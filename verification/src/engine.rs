//! The virtual-parcel pipeline: decode the field block, aggregate the
//! building footprints by repeated union, subtract the aggregate from the
//! field block, and measure and re-encode what remains.
//!
//! Each request is processed independently and statelessly; the result is a
//! pure function of the request. Areas travel as the bit pattern of the
//! `f64` that the planar area computation yields, since the verifier does
//! not reason about floating-point values themselves.

use vstd::prelude::*;

use crate::decode::DecodeError;
use crate::decode::decode_spec;
use crate::decode::parse_multipolygon;
use crate::geometry::MultiPolygonGeom;
use crate::geometry::PolygonView;
use crate::geometry::RegionView;
use crate::geometry::area_bits;
use crate::geometry::area_bits_geo;
use crate::geometry::clone_multipolygon;
use crate::geometry::difference_geo;
use crate::geometry::difference_view;
use crate::geometry::encode_multipolygon;
use crate::geometry::encoded_doc;
use crate::geometry::member_count;
use crate::geometry::mp_view;
use crate::geometry::union_geo;
use crate::geometry::union_view;

verus! {

/// One parcel computation request: the field block document and the building
/// documents, in order.
pub struct VirtualParcelRequest {
    pub field_block_geojson: String,
    pub building_geojsons: Vec<String>,
}

/// The outcome: the net area as the bit pattern of an `f64` in the square of
/// the input coordinate unit, and the residual parcel as one GeoJSON
/// geometry document.
pub struct VirtualParcelResult {
    pub net_area_sqm_bits: u64,
    pub virtual_parcel_geojson: String,
}

/// Why a request failed. Every failure is terminal and caller-visible; the
/// first decode failure (field block before any building, buildings in input
/// order) is the one reported.
#[derive(Clone, Copy, Debug, PartialEq, Eq, Structural)]
pub enum EngineError {
    /// The field block document failed to decode.
    FieldBlock(DecodeError),
    /// The building document at this position failed to decode.
    Building(usize, DecodeError),
    /// The outer request envelope is malformed.
    RequestParseFailed,
    /// The result could not be re-encoded.
    ResultSerializationFailed,
}

impl EngineError {
    /// A fixed, user-facing message for the failure kind.
    pub fn describe(&self) -> (r: &'static str)
        ensures
            r@ == match *self {
                EngineError::FieldBlock(e) => e.describe_spec(),
                EngineError::Building(_, e) => e.describe_spec(),
                EngineError::RequestParseFailed => "Failed to parse request JSON"@,
                EngineError::ResultSerializationFailed => "Failed to serialize result"@,
            },
    {
        match *self {
            EngineError::FieldBlock(e) => e.describe(),
            EngineError::Building(_, e) => e.describe(),
            EngineError::RequestParseFailed => "Failed to parse request JSON",
            EngineError::ResultSerializationFailed => "Failed to serialize result",
        }
    }
}

/// A region of zero polygons: the identity element for union, standing for
/// zero area.
pub fn empty_region() -> (r: MultiPolygonGeom)
    ensures
        mp_view(r) == Seq::<PolygonView>::empty(),
{
    let members: Vec<Vec<Vec<geojson::Position>>> = Vec::new();
    proof {
        assert(crate::decode::members_view(members@) =~= Seq::<PolygonView>::empty());
        assert(crate::decode::lift_members(Seq::<PolygonView>::empty()) =~= Seq::<
            PolygonView,
        >::empty());
    }
    crate::decode::multipolygon_from_members(members)
}

/// What aggregating `docs[i..]` onto an already-unioned `acc` yields: each
/// document is decoded in order and folded in by planar union; the first
/// decode failure aborts with that building's index.
pub open spec fn aggregate_from(acc: RegionView, docs: Seq<String>, i: int) -> Result<
    RegionView,
    EngineError,
>
    decreases docs.len() - i,
{
    if i < 0 || i >= docs.len() {
        Ok(acc)
    } else {
        match decode_spec(docs[i]@) {
            Ok(b) => aggregate_from(union_view(acc, b), docs, i + 1),
            Err(e) => Err(EngineError::Building(i as usize, e)),
        }
    }
}

/// What aggregating a building document sequence yields, starting from the
/// empty region.
pub open spec fn aggregate_spec(docs: Seq<String>) -> Result<RegionView, EngineError> {
    aggregate_from(Seq::<PolygonView>::empty(), docs, 0)
}

/// Decodes each building document in input order and accumulates the
/// footprints by planar union, starting from the empty region. The first
/// decode failure aborts the whole aggregation with that building's index;
/// with no buildings the result is the empty region.
pub fn aggregate(buildings: &Vec<String>) -> (r: Result<MultiPolygonGeom, EngineError>)
    ensures
        match r {
            Ok(m) => aggregate_spec(buildings@) == Ok::<RegionView, EngineError>(mp_view(m)),
            Err(e) => aggregate_spec(buildings@) == Err::<RegionView, EngineError>(e),
        },
        buildings@.len() == 0 ==> (r matches Ok(m) && mp_view(m) == Seq::<PolygonView>::empty()),
{
    let mut acc = empty_region();
    let mut i: usize = 0;
    while i < buildings.len()
        invariant
            0 <= i <= buildings@.len(),
            aggregate_spec(buildings@) == aggregate_from(mp_view(acc), buildings@, i as int),
        decreases buildings@.len() - i,
    {
        match parse_multipolygon(buildings[i].as_str()) {
            Ok(b) => {
                acc = union_geo(&acc, &b);
            },
            Err(e) => {
                return Err(EngineError::Building(i, e));
            },
        }
        i = i + 1;
    }
    Ok(acc)
}

/// What subtracting the obstacles from the base yields. An empty obstacle
/// region is the union identity, so the difference is a no-op copy of the
/// base; otherwise the planar set-difference is computed.
pub open spec fn subtract_spec(base: RegionView, obstacles: RegionView) -> RegionView {
    if obstacles.len() == 0 {
        base
    } else {
        difference_view(base, obstacles)
    }
}

/// Computes the planar set-difference `base \ obstacles`: every point
/// covered by the base and not by the obstacles. Neither input is mutated.
pub fn subtract(base: &MultiPolygonGeom, obstacles: &MultiPolygonGeom) -> (r: MultiPolygonGeom)
    ensures
        mp_view(r) == subtract_spec(mp_view(*base), mp_view(*obstacles)),
{
    if member_count(obstacles) == 0 {
        clone_multipolygon(base)
    } else {
        difference_geo(base, obstacles)
    }
}

/// Measures the unsigned planar area of the residual region (as `f64` bits)
/// and re-encodes it as one GeoJSON geometry document. An empty region has
/// area bits 0, the bit pattern of exactly 0.0.
pub fn finalize(parcel: &MultiPolygonGeom) -> (r: (u64, String))
    ensures
        r.0 == area_bits(mp_view(*parcel)),
        r.1@ == encoded_doc(mp_view(*parcel)),
        mp_view(*parcel).len() == 0 ==> r.0 == 0,
{
    let bits = area_bits_geo(parcel);
    let doc = encode_multipolygon(parcel);
    (bits, doc)
}

/// What the whole pipeline yields for a request: the area bits and encoded
/// document of `subtract(field, aggregate(buildings))`, or the first error,
/// the field block being decoded before any building.
pub open spec fn pipeline_spec(field: Seq<char>, buildings: Seq<String>) -> Result<
    (u64, Seq<char>),
    EngineError,
> {
    match decode_spec(field) {
        Err(e) => Err(EngineError::FieldBlock(e)),
        Ok(base) => match aggregate_spec(buildings) {
            Err(e) => Err(e),
            Ok(obstacles) => {
                let parcel = subtract_spec(base, obstacles);
                Ok((area_bits(parcel), encoded_doc(parcel)))
            },
        },
    }
}

/// Runs the four pipeline stages on one request: exactly as
/// [`pipeline_spec`] says, for every request.
pub fn calculate_virtual_parcel(request: &VirtualParcelRequest) -> (r: Result<
    VirtualParcelResult,
    EngineError,
>)
    ensures
        match r {
            Ok(out) => pipeline_spec(request.field_block_geojson@, request.building_geojsons@)
                == Ok::<(u64, Seq<char>), EngineError>(
                (out.net_area_sqm_bits, out.virtual_parcel_geojson@),
            ),
            Err(e) => pipeline_spec(request.field_block_geojson@, request.building_geojsons@)
                == Err::<(u64, Seq<char>), EngineError>(e),
        },
{
    let field_block = match parse_multipolygon(request.field_block_geojson.as_str()) {
        Ok(m) => m,
        Err(e) => {
            return Err(EngineError::FieldBlock(e));
        },
    };
    let obstacles = match aggregate(&request.building_geojsons) {
        Ok(m) => m,
        Err(e) => {
            return Err(e);
        },
    };
    let parcel = subtract(&field_block, &obstacles);
    let (bits, doc) = finalize(&parcel);
    Ok(VirtualParcelResult { net_area_sqm_bits: bits, virtual_parcel_geojson: doc })
}

/// The semantic version of this library, constant for the build.
pub fn get_version() -> (r: &'static str)
    ensures
        r@ == "0.1.0"@,
{
    "0.1.0"
}

/// Law: aggregating no building documents yields the empty region, and
/// subtracting the empty region leaves any base region unchanged — so a
/// request without buildings returns the field block as it was decoded.
pub proof fn lemma_subtract_of_empty_aggregate_is_identity(base: RegionView, docs: Seq<String>)
    requires
        docs.len() == 0,
    ensures
        aggregate_spec(docs) == Ok::<RegionView, EngineError>(Seq::<PolygonView>::empty()),
        subtract_spec(base, Seq::<PolygonView>::empty()) == base,
{
    assert(aggregate_from(Seq::<PolygonView>::empty(), docs, 0) == Ok::<RegionView, EngineError>(
        Seq::<PolygonView>::empty(),
    ));
}

/// Law: a request without buildings yields the decoded field block itself —
/// its area and its encoding, unchanged.
pub proof fn lemma_no_buildings_returns_base(field: Seq<char>, docs: Seq<String>, base: RegionView)
    requires
        docs.len() == 0,
        decode_spec(field) == Ok::<RegionView, DecodeError>(base),
    ensures
        pipeline_spec(field, docs) == Ok::<(u64, Seq<char>), EngineError>(
            (area_bits(base), encoded_doc(base)),
        ),
{
    lemma_subtract_of_empty_aggregate_is_identity(base, docs);
}

} // verus!


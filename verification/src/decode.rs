//! The geometry decoder: turns one GeoJSON interchange document into a typed
//! multi-polygon region.
//!
//! A document must be a bare Geometry or a Feature wrapping one; a
//! FeatureCollection is rejected. The geometry must be a Polygon or a
//! MultiPolygon; a Polygon is lifted to a single-member region, a
//! MultiPolygon passes through with its member order preserved. Every
//! position of every ring must carry at least two coordinates; a shorter
//! position cannot be converted to a planar coordinate pair and fails the
//! decode. That validation is verified here; parsing and the construction of
//! the backing `geo_types` values are trusted wrappers.

use vstd::prelude::*;

use crate::geometry::MultiPolygonGeom;
use crate::geometry::PolygonView;
use crate::geometry::RegionView;
use crate::geometry::mp_view;

verus! {

#[verifier::external_type_specification]
#[verifier::external_body]
pub struct ExGeometry(geojson::Geometry);

#[verifier::external_type_specification]
#[verifier::external_body]
pub struct ExPosition(geojson::Position);

/// The numbers a GeoJSON position holds, as the bit patterns of its `f64`s.
pub uninterp spec fn pos_view(p: geojson::Position) -> Seq<u64>;

/// Relies on `geojson::Position::len`: the number of coordinate numbers the
/// position holds.
pub assume_specification[ geojson::Position::len ](p: &geojson::Position) -> (r: usize)
    ensures
        r == pos_view(*p).len(),
;

/// A ring of positions, abstractly.
pub open spec fn ring_view(ring: Seq<geojson::Position>) -> Seq<Seq<u64>> {
    ring.map_values(|p: geojson::Position| pos_view(p))
}

/// A polygon's rings, abstractly.
pub open spec fn rings_view(rings: Seq<Vec<geojson::Position>>) -> PolygonView {
    rings.map_values(|ring: Vec<geojson::Position>| ring_view(ring@))
}

/// A multi-polygon's members, abstractly.
pub open spec fn members_view(members: Seq<Vec<Vec<geojson::Position>>>) -> RegionView {
    members.map_values(|rings: Vec<Vec<geojson::Position>>| rings_view(rings@))
}

/// The convertible content of a parsed GeoJSON geometry object.
pub enum GeomView {
    /// A Polygon, as its rings.
    Polygon(PolygonView),
    /// A MultiPolygon, as its members' rings.
    MultiPolygon(RegionView),
    /// Any other geometry type.
    Other,
}

/// The classification of a GeoJSON document text.
pub enum DocView {
    /// The text is not a parsable GeoJSON document.
    Invalid,
    /// A bare geometry object with the given content.
    Geometry(GeomView),
    /// A feature wrapping a geometry with the given content.
    Feature(GeomView),
    /// A feature that carries no geometry.
    FeatureEmpty,
    /// A feature collection, which this decoder rejects.
    FeatureCollection,
}

/// What `geojson::GeoJson::from_str` makes of a document text: a pure
/// function of the text.
pub uninterp spec fn doc_view(s: Seq<char>) -> DocView;

/// The content of a parsed GeoJSON geometry object: a pure function of the
/// value.
pub uninterp spec fn gj_view(g: geojson::Geometry) -> GeomView;

/// A parsed document, classified at its top level.
pub(crate) enum ParsedDocument {
    Geometry(geojson::Geometry),
    Feature(geojson::Geometry),
    FeatureEmpty,
    FeatureCollection,
}

/// A geometry object, classified by its type, with polygonal coordinates
/// moved out.
pub(crate) enum GeometryClass {
    Polygonal(Vec<Vec<geojson::Position>>),
    MultiPolygonal(Vec<Vec<Vec<geojson::Position>>>),
    Other,
}

/// Relies on `geojson::GeoJson::from_str`: it parses the text into a bare
/// geometry, a feature (whose geometry is optional), or a feature
/// collection, or fails on malformed input — deterministically in the text.
#[verifier::external_body]
pub(crate) fn parse_document(s: &str) -> (r: Result<ParsedDocument, ()>)
    ensures
        match r {
            Ok(ParsedDocument::Geometry(g)) => doc_view(s@) == DocView::Geometry(gj_view(g)),
            Ok(ParsedDocument::Feature(g)) => doc_view(s@) == DocView::Feature(gj_view(g)),
            Ok(ParsedDocument::FeatureEmpty) => doc_view(s@) is FeatureEmpty,
            Ok(ParsedDocument::FeatureCollection) => doc_view(s@) is FeatureCollection,
            Err(_) => doc_view(s@) is Invalid,
        },
{
    match s.parse::<geojson::GeoJson>() {
        Ok(geojson::GeoJson::Geometry(g)) => Ok(ParsedDocument::Geometry(g)),
        Ok(geojson::GeoJson::Feature(f)) => match f.geometry {
            Some(g) => Ok(ParsedDocument::Feature(g)),
            None => Ok(ParsedDocument::FeatureEmpty),
        },
        Ok(geojson::GeoJson::FeatureCollection(_)) => Ok(ParsedDocument::FeatureCollection),
        Err(_) => Err(()),
    }
}

/// Relies on the variants of `geojson::GeometryValue`: the geometry's
/// coordinates are moved out unchanged for the two polygonal types.
#[verifier::external_body]
pub(crate) fn classify_geometry(g: geojson::Geometry) -> (r: GeometryClass)
    ensures
        match r {
            GeometryClass::Polygonal(rings) => gj_view(g) == GeomView::Polygon(
                rings_view(rings@),
            ),
            GeometryClass::MultiPolygonal(members) => gj_view(g) == GeomView::MultiPolygon(
                members_view(members@),
            ),
            GeometryClass::Other => gj_view(g) is Other,
        },
{
    match g.value {
        geojson::GeometryValue::Polygon { coordinates } => GeometryClass::Polygonal(coordinates),
        geojson::GeometryValue::MultiPolygon { coordinates } => GeometryClass::MultiPolygonal(
            coordinates,
        ),
        _ => GeometryClass::Other,
    }
}

/// Every position of every ring carries at least two coordinates, so each can
/// be converted to a planar coordinate pair.
pub open spec fn poly_view_ok(pv: PolygonView) -> bool {
    forall|i: int, j: int|
        0 <= i < pv.len() && 0 <= j < pv[i].len() ==> #[trigger] pv[i][j].len() >= 2
}

/// [`poly_view_ok`], over every member of a region.
pub open spec fn region_input_ok(mv: RegionView) -> bool {
    forall|k: int| 0 <= k < mv.len() ==> poly_view_ok(#[trigger] mv[k])
}

/// The polygon that `geo` builds from these rings (closing each ring), as a
/// pure function of the coordinates. Named by the construction wrappers.
pub uninterp spec fn geo_polygon_of(pv: PolygonView) -> PolygonView;

/// Each member lifted through [`geo_polygon_of`].
pub open spec fn lift_members(mv: RegionView) -> RegionView {
    mv.map_values(|pv: PolygonView| geo_polygon_of(pv))
}

/// Relies on geojson's conversion of polygon coordinates to a
/// `geo_types::Polygon` (which indexes the first two numbers of each
/// position, hence the precondition) and on `geo_types::MultiPolygon`
/// construction.
#[verifier::external_body]
pub(crate) fn multipolygon_from_polygon_rings(rings: Vec<Vec<geojson::Position>>) -> (r:
    MultiPolygonGeom)
    requires
        poly_view_ok(rings_view(rings@)),
    ensures
        mp_view(r) == seq![geo_polygon_of(rings_view(rings@))],
{
    let value = geojson::GeometryValue::Polygon { coordinates: rings };
    let p: geo_types::Polygon = value.try_into().unwrap();
    MultiPolygonGeom { inner: geo_types::MultiPolygon(vec![p]) }
}

/// Relies on geojson's conversion of multi-polygon coordinates to a
/// `geo_types::MultiPolygon`: each member is built as in
/// [`multipolygon_from_polygon_rings`], in order.
#[verifier::external_body]
pub(crate) fn multipolygon_from_members(members: Vec<Vec<Vec<geojson::Position>>>) -> (r:
    MultiPolygonGeom)
    requires
        region_input_ok(members_view(members@)),
    ensures
        mp_view(r) == lift_members(members_view(members@)),
{
    let value = geojson::GeometryValue::MultiPolygon { coordinates: members };
    let mp: geo_types::MultiPolygon = value.try_into().unwrap();
    MultiPolygonGeom { inner: mp }
}

/// True when every position of the ring carries at least two coordinates.
fn check_ring(ring: &Vec<geojson::Position>) -> (r: bool)
    ensures
        r == forall|j: int| 0 <= j < ring@.len() ==> ring_view(ring@)[j].len() >= 2,
{
    let mut j: usize = 0;
    while j < ring.len()
        invariant
            0 <= j <= ring@.len(),
            forall|j0: int| 0 <= j0 < j ==> ring_view(ring@)[j0].len() >= 2,
        decreases ring@.len() - j,
    {
        if ring[j].len() < 2 {
            assert(ring_view(ring@)[j as int].len() < 2);
            return false;
        }
        j = j + 1;
    }
    true
}

/// True when every position of every ring carries at least two coordinates.
fn check_rings(rings: &Vec<Vec<geojson::Position>>) -> (r: bool)
    ensures
        r == poly_view_ok(rings_view(rings@)),
{
    let mut i: usize = 0;
    while i < rings.len()
        invariant
            0 <= i <= rings@.len(),
            forall|i0: int, j0: int|
                0 <= i0 < i && 0 <= j0 < rings_view(rings@)[i0].len() ==> #[trigger] rings_view(
                    rings@,
                )[i0][j0].len() >= 2,
        decreases rings@.len() - i,
    {
        if !check_ring(&rings[i]) {
            proof {
                let iw = i as int;
                assert(rings_view(rings@)[iw] == ring_view(rings@[iw]@));
                let jw = choose|j: int|
                    !(0 <= j < rings@[iw]@.len() ==> ring_view(rings@[iw]@)[j].len() >= 2);
                assert(rings_view(rings@)[iw][jw].len() < 2);
            }
            return false;
        }
        i = i + 1;
    }
    true
}

/// True when every member polygon passes [`check_rings`].
fn check_members(members: &Vec<Vec<Vec<geojson::Position>>>) -> (r: bool)
    ensures
        r == region_input_ok(members_view(members@)),
{
    let mut k: usize = 0;
    while k < members.len()
        invariant
            0 <= k <= members@.len(),
            forall|k0: int| 0 <= k0 < k ==> poly_view_ok(#[trigger] members_view(members@)[k0]),
        decreases members@.len() - k,
    {
        if !check_rings(&members[k]) {
            proof {
                let kw = k as int;
                assert(members_view(members@)[kw] == rings_view(members@[kw]@));
                assert(!poly_view_ok(members_view(members@)[kw]));
            }
            return false;
        }
        k = k + 1;
    }
    true
}

/// Why a document failed to decode. Each decode failure is terminal: the
/// first one aborts the whole request.
#[derive(Clone, Copy, Debug, PartialEq, Eq, Structural)]
pub enum DecodeError {
    /// The document text is not parsable GeoJSON.
    InvalidDocument,
    /// The top level is a FeatureCollection, which is rejected.
    UnsupportedTopLevelShape,
    /// A Feature-shaped document carries no geometry.
    MissingGeometry,
    /// The geometry cannot be converted to planar coordinates (a position
    /// with fewer than two numbers).
    GeometryConversionFailed,
    /// The geometry type is valid GeoJSON but not Polygon or MultiPolygon.
    UnsupportedGeometryType,
}

impl DecodeError {
    /// The message [`Self::describe`] returns for each failure.
    pub open spec fn describe_spec(&self) -> Seq<char> {
        match *self {
            DecodeError::InvalidDocument => "Invalid GeoJSON"@,
            DecodeError::UnsupportedTopLevelShape => "FeatureCollection not supported directly (must be Geometry or Feature)"@,
            DecodeError::MissingGeometry => "Feature has no geometry"@,
            DecodeError::GeometryConversionFailed => "Failed to convert GeoJSON Value to Geometry"@,
            DecodeError::UnsupportedGeometryType => "Input must be a Polygon or MultiPolygon"@,
        }
    }

    /// A fixed, user-facing message for the failure.
    pub fn describe(&self) -> (r: &'static str)
        ensures
            r@ == self.describe_spec(),
    {
        match *self {
            DecodeError::InvalidDocument => "Invalid GeoJSON",
            DecodeError::UnsupportedTopLevelShape => "FeatureCollection not supported directly (must be Geometry or Feature)",
            DecodeError::MissingGeometry => "Feature has no geometry",
            DecodeError::GeometryConversionFailed => "Failed to convert GeoJSON Value to Geometry",
            DecodeError::UnsupportedGeometryType => "Input must be a Polygon or MultiPolygon",
        }
    }
}

/// What decoding a geometry content yields: a Polygon is lifted to a
/// single-member region, a MultiPolygon passes through member by member.
pub open spec fn lift_spec(gv: GeomView) -> Result<RegionView, DecodeError> {
    match gv {
        GeomView::Polygon(pv) => if poly_view_ok(pv) {
            Ok(seq![geo_polygon_of(pv)])
        } else {
            Err(DecodeError::GeometryConversionFailed)
        },
        GeomView::MultiPolygon(mv) => if region_input_ok(mv) {
            Ok(lift_members(mv))
        } else {
            Err(DecodeError::GeometryConversionFailed)
        },
        GeomView::Other => Err(DecodeError::UnsupportedGeometryType),
    }
}

/// What decoding a document text yields, for every text.
pub open spec fn decode_spec(s: Seq<char>) -> Result<RegionView, DecodeError> {
    match doc_view(s) {
        DocView::Invalid => Err(DecodeError::InvalidDocument),
        DocView::Geometry(gv) => lift_spec(gv),
        DocView::Feature(gv) => lift_spec(gv),
        DocView::FeatureEmpty => Err(DecodeError::MissingGeometry),
        DocView::FeatureCollection => Err(DecodeError::UnsupportedTopLevelShape),
    }
}

/// Decodes the convertible content of a parsed geometry object.
fn decode_geometry(g: geojson::Geometry) -> (r: Result<MultiPolygonGeom, DecodeError>)
    ensures
        match r {
            Ok(m) => lift_spec(gj_view(g)) == Ok::<RegionView, DecodeError>(mp_view(m)),
            Err(e) => lift_spec(gj_view(g)) == Err::<RegionView, DecodeError>(e),
        },
{
    match classify_geometry(g) {
        GeometryClass::Polygonal(rings) => {
            if check_rings(&rings) {
                Ok(multipolygon_from_polygon_rings(rings))
            } else {
                Err(DecodeError::GeometryConversionFailed)
            }
        },
        GeometryClass::MultiPolygonal(members) => {
            if check_members(&members) {
                Ok(multipolygon_from_members(members))
            } else {
                Err(DecodeError::GeometryConversionFailed)
            }
        },
        GeometryClass::Other => Err(DecodeError::UnsupportedGeometryType),
    }
}

/// Decodes one GeoJSON document into a multi-polygon region, or reports why
/// it cannot be: exactly as [`decode_spec`] says, for every document text.
pub fn parse_multipolygon(s: &str) -> (r: Result<MultiPolygonGeom, DecodeError>)
    ensures
        match r {
            Ok(m) => decode_spec(s@) == Ok::<RegionView, DecodeError>(mp_view(m)),
            Err(e) => decode_spec(s@) == Err::<RegionView, DecodeError>(e),
        },
{
    match parse_document(s) {
        Err(_) => Err(DecodeError::InvalidDocument),
        Ok(ParsedDocument::FeatureCollection) => Err(DecodeError::UnsupportedTopLevelShape),
        Ok(ParsedDocument::FeatureEmpty) => Err(DecodeError::MissingGeometry),
        Ok(ParsedDocument::Geometry(g)) => decode_geometry(g),
        Ok(ParsedDocument::Feature(g)) => decode_geometry(g),
    }
}

/// Law: a Feature-wrapped document decodes exactly as a bare geometry
/// document with the same geometry content.
pub proof fn lemma_feature_wrapping_is_transparent(
    bare: Seq<char>,
    wrapped: Seq<char>,
    gv: GeomView,
)
    requires
        doc_view(bare) == DocView::Geometry(gv),
        doc_view(wrapped) == DocView::Feature(gv),
    ensures
        decode_spec(bare) == decode_spec(wrapped),
{
}

/// Law: a document whose top level is a FeatureCollection never decodes; it
/// fails with exactly [`DecodeError::UnsupportedTopLevelShape`].
pub proof fn lemma_feature_collection_rejected(s: Seq<char>)
    requires
        doc_view(s) is FeatureCollection,
    ensures
        decode_spec(s) == Err::<RegionView, DecodeError>(DecodeError::UnsupportedTopLevelShape),
{
}

} // verus!

//! Planar regions backed by `geo_types::MultiPolygon`, together with trusted
//! wrappers around the boolean-operation, area and encoding primitives of the
//! `geo` and `geojson` crates.
//!
//! A region is opaque to the verifier; its mathematical content is given by
//! the uninterpreted view [`mp_view`], and every trusted wrapper relates its
//! result to that view.

use vstd::prelude::*;

verus! {

/// One polygon, abstractly: its rings (exterior first, then holes), each ring
/// a sequence of positions, each position the sequence of the bit patterns of
/// its floating-point coordinates.
pub type PolygonView = Seq<Seq<Seq<u64>>>;

/// A planar region, abstractly: the polygons it consists of, in order.
pub type RegionView = Seq<PolygonView>;

/// A planar region: zero or more polygons with holes. Holds a
/// `geo_types::MultiPolygon`, which the verifier treats as opaque.
#[verifier::external_body]
pub struct MultiPolygonGeom {
    pub(crate) inner: geo_types::MultiPolygon,
}

/// The polygons a region holds, abstractly.
pub uninterp spec fn mp_view(m: MultiPolygonGeom) -> RegionView;

/// The union of two regions, as `geo`'s `BooleanOps::union` computes it: a
/// pure function of the operands' coordinates.
pub uninterp spec fn union_view(a: RegionView, b: RegionView) -> RegionView;

/// The set-difference of two regions, as `geo`'s `BooleanOps::difference`
/// computes it: a pure function of the operands' coordinates.
pub uninterp spec fn difference_view(a: RegionView, b: RegionView) -> RegionView;

/// The unsigned planar area of a region, as the bit pattern of the `f64` that
/// `geo`'s `Area::unsigned_area` computes: a pure function of the coordinates.
pub uninterp spec fn area_bits(m: RegionView) -> u64;

/// The GeoJSON geometry document that encodes a region: a pure function of
/// the coordinates.
pub uninterp spec fn encoded_doc(m: RegionView) -> Seq<char>;

/// Relies on `geo::BooleanOps::union` for `MultiPolygon`: a deterministic,
/// CPU-bound computation over the two operands' coordinates.
#[verifier::external_body]
pub(crate) fn union_geo(a: &MultiPolygonGeom, b: &MultiPolygonGeom) -> (r: MultiPolygonGeom)
    ensures
        mp_view(r) == union_view(mp_view(*a), mp_view(*b)),
{
    MultiPolygonGeom { inner: geo::BooleanOps::union(&a.inner, &b.inner) }
}

/// Relies on `geo::BooleanOps::difference` for `MultiPolygon`: a
/// deterministic, CPU-bound computation over the two operands' coordinates.
#[verifier::external_body]
pub(crate) fn difference_geo(a: &MultiPolygonGeom, b: &MultiPolygonGeom) -> (r: MultiPolygonGeom)
    ensures
        mp_view(r) == difference_view(mp_view(*a), mp_view(*b)),
{
    MultiPolygonGeom { inner: geo::BooleanOps::difference(&a.inner, &b.inner) }
}

/// Relies on `geo::Area::unsigned_area` for `MultiPolygon`: a fold of the
/// member polygons' unsigned areas starting from zero, so a region of no
/// polygons has area exactly zero, whose `f64` bit pattern is 0.
#[verifier::external_body]
pub(crate) fn area_bits_geo(m: &MultiPolygonGeom) -> (r: u64)
    ensures
        r == area_bits(mp_view(*m)),
        mp_view(*m).len() == 0 ==> r == 0,
{
    geo::Area::unsigned_area(&m.inner).to_bits()
}

/// Relies on geojson's `From<&geo_types::MultiPolygon>` for `GeometryValue`
/// and its `Display` impl (serialization through serde_json): together they
/// encode the region as one GeoJSON geometry document, a pure function of the
/// coordinates.
#[verifier::external_body]
pub(crate) fn encode_multipolygon(m: &MultiPolygonGeom) -> (r: String)
    ensures
        r@ == encoded_doc(mp_view(*m)),
{
    geojson::GeometryValue::from(&m.inner).to_string()
}

/// Relies on `Clone` for `geo_types::MultiPolygon`: the copy holds the same
/// polygons with the same coordinates.
#[verifier::external_body]
pub(crate) fn clone_multipolygon(m: &MultiPolygonGeom) -> (r: MultiPolygonGeom)
    ensures
        mp_view(r) == mp_view(*m),
{
    MultiPolygonGeom { inner: m.inner.clone() }
}

/// Relies on `Vec::len` for the member vector inside
/// `geo_types::MultiPolygon`: the number of polygons the region holds.
#[verifier::external_body]
pub(crate) fn member_count(m: &MultiPolygonGeom) -> (r: usize)
    ensures
        r == mp_view(*m).len(),
{
    m.inner.0.len()
}

} // verus!

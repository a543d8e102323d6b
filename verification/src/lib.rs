//! Computes a "virtual parcel": the usable land area that remains of a field
//! block once the footprints of its buildings are subtracted.
//!
//! The pipeline has four stages, run in sequence: decode each GeoJSON document
//! into a multi-polygon region, union the building footprints, subtract the
//! union from the field block, and finally measure and re-encode the result.
//! Planar boolean geometry and area arithmetic are delegated to the `geo`
//! crate behind trusted wrappers; everything around those calls is verified.
//!
//! Coordinates are taken as already projected, metric-unit numbers; the
//! library performs planar arithmetic on whatever numbers it receives.
//! Numerically degenerate rings (self-intersections, zero-area slivers) are
//! passed through permissively and may yield geometrically meaningless but
//! non-crashing results.

pub mod decode;
pub mod engine;
pub mod geometry;

pub use decode::DecodeError;
pub use decode::parse_multipolygon;
pub use engine::EngineError;
pub use engine::VirtualParcelRequest;
pub use engine::VirtualParcelResult;
pub use engine::aggregate;
pub use engine::calculate_virtual_parcel;
pub use engine::empty_region;
pub use engine::finalize;
pub use engine::get_version;
pub use engine::subtract;
pub use geometry::MultiPolygonGeom;

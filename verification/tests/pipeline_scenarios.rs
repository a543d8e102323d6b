//! End-to-end scenarios for the virtual-parcel pipeline.

use geometry_engine::EngineError;
use geometry_engine::VirtualParcelRequest;
use geometry_engine::VirtualParcelResult;
use geometry_engine::calculate_virtual_parcel;
use geometry_engine::get_version;

const TOL: f64 = 1e-9;

fn square(x: f64, y: f64, s: f64) -> String {
    let x2 = x + s;
    let y2 = y + s;
    format!(
        "{{\"type\":\"Polygon\",\"coordinates\":[[[{x:?},{y:?}],[{x2:?},{y:?}],[{x2:?},{y2:?}],[{x:?},{y2:?}],[{x:?},{y:?}]]]}}"
    )
}

fn run(field: &str, buildings: &[&str]) -> Result<VirtualParcelResult, EngineError> {
    let request = VirtualParcelRequest {
        field_block_geojson: field.to_string(),
        building_geojsons: buildings.iter().map(|s| s.to_string()).collect(),
    };
    calculate_virtual_parcel(&request)
}

fn area_of(result: &VirtualParcelResult) -> f64 {
    f64::from_bits(result.net_area_sqm_bits)
}

fn to_geo(doc: &str) -> geo_types::MultiPolygon<f64> {
    let parsed: geojson::GeoJson = doc.parse().expect("parsable geometry document");
    let geometry = match parsed {
        geojson::GeoJson::Geometry(g) => g,
        _ => panic!("expected a bare geometry document"),
    };
    let converted: geo_types::Geometry<f64> = geometry.value.try_into().expect("convertible");
    match converted {
        geo_types::Geometry::Polygon(p) => geo_types::MultiPolygon(vec![p]),
        geo_types::Geometry::MultiPolygon(mp) => mp,
        _ => panic!("expected a polygonal geometry"),
    }
}

fn symmetric_difference_area(a: &str, b: &str) -> f64 {
    let ga = to_geo(a);
    let gb = to_geo(b);
    geo::Area::unsigned_area(&geo::BooleanOps::xor(&ga, &gb))
}

#[test]
fn scenario_inner_building_reduces_area() {
    let field = square(0.0, 0.0, 10.0);
    let building = square(4.0, 4.0, 2.0);
    let result = run(&field, &[&building]).expect("pipeline succeeds");
    assert!((area_of(&result) - 96.0).abs() < TOL);
}

#[test]
fn scenario_no_buildings_returns_field() {
    let field = square(0.0, 0.0, 10.0);
    let result = run(&field, &[]).expect("pipeline succeeds");
    assert!((area_of(&result) - 100.0).abs() < TOL);
    assert!(symmetric_difference_area(&field, &result.virtual_parcel_geojson) < TOL);
}

#[test]
fn scenario_full_cover_empties_parcel() {
    let field = square(0.0, 0.0, 10.0);
    let building = square(-1.0, -1.0, 12.0);
    let result = run(&field, &[&building]).expect("pipeline succeeds");
    assert_eq!(area_of(&result), 0.0);
    let residual = to_geo(&result.virtual_parcel_geojson);
    assert_eq!(residual.0.len(), 0);
}

#[test]
fn scenario_feature_wrapped_field_decodes_identically() {
    let bare = square(0.0, 0.0, 10.0);
    let wrapped = format!("{{\"type\":\"Feature\",\"geometry\":{bare},\"properties\":null}}");
    let building = square(4.0, 4.0, 2.0);
    let from_bare = run(&bare, &[&building]).expect("bare field succeeds");
    let from_wrapped = run(&wrapped, &[&building]).expect("wrapped field succeeds");
    assert_eq!(from_bare.net_area_sqm_bits, from_wrapped.net_area_sqm_bits);
    assert_eq!(from_bare.virtual_parcel_geojson, from_wrapped.virtual_parcel_geojson);
}

#[test]
fn feature_wrapped_building_decodes_identically() {
    let field = square(0.0, 0.0, 10.0);
    let bare_building = square(4.0, 4.0, 2.0);
    let wrapped_building =
        format!("{{\"type\":\"Feature\",\"geometry\":{bare_building},\"properties\":null}}");
    let from_bare = run(&field, &[&bare_building]).expect("bare building succeeds");
    let from_wrapped = run(&field, &[&wrapped_building]).expect("wrapped building succeeds");
    assert_eq!(from_bare.net_area_sqm_bits, from_wrapped.net_area_sqm_bits);
    assert_eq!(from_bare.virtual_parcel_geojson, from_wrapped.virtual_parcel_geojson);
}

#[test]
fn scenario_feature_collection_rejected() {
    let field = square(0.0, 0.0, 10.0);
    let collection = format!(
        "{{\"type\":\"FeatureCollection\",\"features\":[{{\"type\":\"Feature\",\"geometry\":{field},\"properties\":null}}]}}"
    );
    let as_field = run(&collection, &[]);
    assert_eq!(
        as_field.err(),
        Some(EngineError::FieldBlock(geometry_engine::DecodeError::UnsupportedTopLevelShape))
    );
    let as_building = run(&field, &[&collection]);
    assert_eq!(
        as_building.err(),
        Some(EngineError::Building(0, geometry_engine::DecodeError::UnsupportedTopLevelShape))
    );
}

#[test]
fn scenario_overlapping_buildings_union_first() {
    let field = square(0.0, 0.0, 10.0);
    let a = square(0.0, 0.0, 6.0);
    let b = square(4.0, 4.0, 6.0);
    let result = run(&field, &[&a, &b]).expect("pipeline succeeds");
    assert!((area_of(&result) - 32.0).abs() < TOL);
}

#[test]
fn order_independence_of_aggregation() {
    let field = square(0.0, 0.0, 10.0);
    let a = square(0.0, 0.0, 6.0);
    let b = square(4.0, 4.0, 6.0);
    let ab = run(&field, &[&a, &b]).expect("pipeline succeeds");
    let ba = run(&field, &[&b, &a]).expect("pipeline succeeds");
    assert!((area_of(&ab) - area_of(&ba)).abs() < TOL);
    assert!(
        symmetric_difference_area(&ab.virtual_parcel_geojson, &ba.virtual_parcel_geojson) < TOL
    );
}

#[test]
fn disjoint_obstacle_leaves_area_unchanged() {
    let field = square(0.0, 0.0, 10.0);
    let far_building = square(20.0, 20.0, 2.0);
    let result = run(&field, &[&far_building]).expect("pipeline succeeds");
    assert!((area_of(&result) - 100.0).abs() < TOL);
}

#[test]
fn full_consumption_of_exactly_matching_member() {
    let member = square(20.0, 0.0, 5.0);
    let field = "{\"type\":\"MultiPolygon\",\"coordinates\":[\
        [[[0.0,0.0],[10.0,0.0],[10.0,10.0],[0.0,10.0],[0.0,0.0]]],\
        [[[20.0,0.0],[25.0,0.0],[25.0,5.0],[20.0,5.0],[20.0,0.0]]]]}"
        .to_string();
    let base_area = 125.0;
    let member_area = 25.0;
    let result = run(&field, &[&member]).expect("pipeline succeeds");
    assert!((area_of(&result) - (base_area - member_area)).abs() < TOL);
}

#[test]
fn areas_are_never_negative() {
    let field = square(0.0, 0.0, 10.0);
    let cases: Vec<Vec<String>> = vec![
        vec![],
        vec![square(4.0, 4.0, 2.0)],
        vec![square(-1.0, -1.0, 12.0)],
        vec![square(0.0, 0.0, 6.0), square(4.0, 4.0, 6.0)],
    ];
    for buildings in cases {
        let refs: Vec<&str> = buildings.iter().map(|s| s.as_str()).collect();
        let result = run(&field, &refs).expect("pipeline succeeds");
        assert!(area_of(&result) >= 0.0);
    }
}

#[test]
fn round_trip_preserves_result_geometry() {
    let field = square(0.0, 0.0, 10.0);
    let building = square(4.0, 4.0, 2.0);
    let first = run(&field, &[&building]).expect("pipeline succeeds");
    // The result has a hole; feeding it back through the pipeline with no
    // buildings must preserve both the area and the encoding.
    let second = run(&first.virtual_parcel_geojson, &[]).expect("round trip succeeds");
    assert_eq!(first.net_area_sqm_bits, second.net_area_sqm_bits);
    assert_eq!(first.virtual_parcel_geojson, second.virtual_parcel_geojson);
}

#[test]
fn version_is_constant() {
    assert_eq!(get_version(), "0.1.0");
}

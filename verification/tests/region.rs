use bevy_osm_tiles::{BoundingBox, Region};

/// Degrees as coordinate units of 1e-7 degree.
fn deg(value: f64) -> i32 {
    (value * 1e7).round() as i32
}

/// A span of degrees as coordinate units.
fn span(value: f64) -> i64 {
    (value * 1e7).round() as i64
}

/// Kilometres as metres.
fn km(value: f64) -> u32 {
    (value * 1000.0).round() as u32
}

#[test]
fn config_test_bounding_box_creation() {
    let bbox = BoundingBox::new(deg(52.0), deg(13.0), deg(53.0), deg(14.0));
    assert_eq!(bbox.center(), (deg(52.5), deg(13.5)));
    assert_eq!(bbox.width(), span(1.0));
    assert_eq!(bbox.height(), span(1.0));
}

#[test]
fn config_test_bounding_box_contains() {
    let bbox = BoundingBox::new(deg(52.0), deg(13.0), deg(53.0), deg(14.0));

    assert!(bbox.contains(deg(52.5), deg(13.5))); // Center
    assert!(bbox.contains(deg(52.0), deg(13.0))); // Southwest corner
    assert!(bbox.contains(deg(53.0), deg(14.0))); // Northeast corner

    assert!(!bbox.contains(deg(51.9), deg(13.5))); // Too far south
    assert!(!bbox.contains(deg(52.5), deg(12.9))); // Too far west
    assert!(!bbox.contains(deg(53.1), deg(13.5))); // Too far north
    assert!(!bbox.contains(deg(52.5), deg(14.1))); // Too far east
}

#[test]
fn test_region_creation() {
    let city = Region::city("Berlin");
    match city {
        Region::City { name } => assert_eq!(name, "Berlin"),
        _ => panic!("Expected City variant"),
    }

    let bbox = Region::bbox(deg(52.0), deg(13.0), deg(53.0), deg(14.0));
    match bbox {
        Region::BoundingBox(b) => {
            assert_eq!(b.south, deg(52.0));
            assert_eq!(b.north, deg(53.0));
        }
        _ => panic!("Expected BoundingBox variant"),
    }
}

#[test]
fn region_test_bounding_box_creation() {
    let bbox = BoundingBox::new(deg(52.0), deg(13.0), deg(53.0), deg(14.0));
    assert_eq!(bbox.south, deg(52.0));
    assert_eq!(bbox.west, deg(13.0));
    assert_eq!(bbox.north, deg(53.0));
    assert_eq!(bbox.east, deg(14.0));
}

#[test]
fn test_bounding_box_center() {
    let bbox = BoundingBox::new(deg(52.0), deg(13.0), deg(53.0), deg(14.0));
    let center = bbox.center();
    assert_eq!(center, (deg(52.5), deg(13.5)));

    // Test with non-symmetric bbox
    let bbox2 = BoundingBox::new(deg(50.0), deg(10.0), deg(52.0), deg(15.0));
    let center2 = bbox2.center();
    assert_eq!(center2, (deg(51.0), deg(12.5)));
}

#[test]
fn test_bounding_box_dimensions() {
    let bbox = BoundingBox::new(deg(52.0), deg(13.0), deg(53.0), deg(14.0));
    assert_eq!(bbox.width(), span(1.0));
    assert_eq!(bbox.height(), span(1.0));

    let bbox2 = BoundingBox::new(deg(50.0), deg(10.0), deg(52.5), deg(15.5));
    assert_eq!(bbox2.width(), span(5.5));
    assert_eq!(bbox2.height(), span(2.5));
}

#[test]
fn region_test_bounding_box_contains() {
    let bbox = BoundingBox::new(deg(52.0), deg(13.0), deg(53.0), deg(14.0));

    // Points inside
    assert!(bbox.contains(deg(52.5), deg(13.5))); // Center
    assert!(bbox.contains(deg(52.0), deg(13.0))); // Southwest corner
    assert!(bbox.contains(deg(53.0), deg(14.0))); // Northeast corner
    assert!(bbox.contains(deg(52.1), deg(13.9))); // Inside

    // Points outside
    assert!(!bbox.contains(deg(51.9), deg(13.5))); // Too far south
    assert!(!bbox.contains(deg(52.5), deg(12.9))); // Too far west
    assert!(!bbox.contains(deg(53.1), deg(13.5))); // Too far north
    assert!(!bbox.contains(deg(52.5), deg(14.1))); // Too far east
}

#[test]
fn test_region_city_creation() {
    let region = Region::city("Berlin");
    match region {
        Region::City { name } => assert_eq!(name, "Berlin"),
        _ => panic!("Expected City variant"),
    }

    let region2 = Region::city(&String::from("Munich"));
    match region2 {
        Region::City { name } => assert_eq!(name, "Munich"),
        _ => panic!("Expected City variant"),
    }
}

#[test]
fn test_region_bbox_creation() {
    let region = Region::bbox(deg(52.0), deg(13.0), deg(53.0), deg(14.0));
    match region {
        Region::BoundingBox(bbox) => {
            assert_eq!(bbox.south, deg(52.0));
            assert_eq!(bbox.west, deg(13.0));
            assert_eq!(bbox.north, deg(53.0));
            assert_eq!(bbox.east, deg(14.0));
        }
        _ => panic!("Expected BoundingBox variant"),
    }
}

#[test]
fn test_region_center_radius_creation() {
    let region = Region::center_radius(deg(52.5), deg(13.4), km(5.0));
    match region {
        Region::CenterRadius {
            lat,
            lon,
            radius_m,
        } => {
            assert_eq!(lat, deg(52.5));
            assert_eq!(lon, deg(13.4));
            assert_eq!(radius_m, km(5.0));
        }
        _ => panic!("Expected CenterRadius variant"),
    }
}

#[test]
fn test_bounding_box_edge_cases() {
    // Test with bbox crossing prime meridian (longitude 0)
    let cross_meridian = BoundingBox::new(deg(51.0), deg(-1.0), deg(52.0), deg(1.0));
    assert_eq!(cross_meridian.width(), span(2.0));
    assert!(cross_meridian.contains(deg(51.5), deg(0.0)));

    // Test with bbox crossing equator
    let cross_equator = BoundingBox::new(deg(-1.0), deg(10.0), deg(1.0), deg(11.0));
    assert_eq!(cross_equator.height(), span(2.0));
    assert!(cross_equator.contains(deg(0.0), deg(10.5)));
}

#[test]
fn test_bounding_box_invalid_coordinates() {
    // These are technically invalid but should still work
    let inverted_lat = BoundingBox::new(deg(53.0), deg(13.0), deg(52.0), deg(14.0)); // south > north
    assert_eq!(inverted_lat.height(), span(-1.0));

    let inverted_lon = BoundingBox::new(deg(52.0), deg(14.0), deg(53.0), deg(13.0)); // west > east
    assert_eq!(inverted_lon.width(), span(-1.0));
}

#[test]
fn centre_rounds_towards_negative_infinity() {
    let bbox = BoundingBox::new(-3, -8, 0, -1);
    assert_eq!(bbox.center(), (-2, -5));
    let bbox = BoundingBox::new(0, 1, 3, 8);
    assert_eq!(bbox.center(), (1, 4));
    let widest = BoundingBox::new(i32::MIN, i32::MIN, i32::MAX, i32::MAX);
    assert_eq!(widest.center(), (-1, -1));
    assert_eq!(widest.width(), 4294967295);
}

#[test]
fn inverted_box_contains_nothing() {
    let inverted = BoundingBox::new(deg(53.0), deg(13.0), deg(52.0), deg(14.0));
    assert!(!inverted.contains(deg(52.5), deg(13.5)));
    assert!(!inverted.contains(deg(53.0), deg(13.0)));
}

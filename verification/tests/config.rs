use bevy_osm_tiles::{FeatureSet, OsmConfig, OsmConfigBuilder, OsmFeature, OsmTagQuery, Region};

/// Degrees as coordinate units of 1e-7 degree.
fn deg(value: f64) -> i32 {
    (value * 1e7).round() as i32
}

/// Metres as millimetres.
fn mm(value: f64) -> u32 {
    (value * 1000.0).round() as u32
}

/// Kilometres as metres.
fn km(value: f64) -> u32 {
    (value * 1000.0).round() as u32
}

#[test]
fn test_config_builder() {
    let config = OsmConfig::for_city("Munich")
        .with_grid_resolution(200)
        .with_tile_size(mm(5.0))
        .with_timeout(60);

    match config.region {
        Region::City { name } => assert_eq!(name, "Munich"),
        _ => panic!("Expected city region"),
    }
    assert_eq!(config.grid_resolution, 200);
    assert_eq!(config.tile_size_mm, mm(5.0));
    assert_eq!(config.timeout_seconds, 60);
}

#[test]
fn test_builder_new() {
    let builder = OsmConfigBuilder::new();
    let config = builder.build();

    // Should use defaults
    assert_eq!(config.grid_resolution, 100);
    assert_eq!(config.tile_size_mm, mm(10.0));
    assert_eq!(config.timeout_seconds, 30);

    // Should default to Berlin
    match config.region {
        Region::City { name } => assert_eq!(name, "Berlin"),
        _ => panic!("Expected City region"),
    }
}

#[test]
fn test_builder_region_methods() {
    // Test city method
    let config = OsmConfigBuilder::new().city("Munich").build();
    match config.region {
        Region::City { name } => assert_eq!(name, "Munich"),
        _ => panic!("Expected City region"),
    }

    // Test bbox method
    let config = OsmConfigBuilder::new()
        .bbox(deg(52.0), deg(13.0), deg(53.0), deg(14.0))
        .build();
    match config.region {
        Region::BoundingBox(bbox) => {
            assert_eq!(bbox.south, deg(52.0));
            assert_eq!(bbox.west, deg(13.0));
            assert_eq!(bbox.north, deg(53.0));
            assert_eq!(bbox.east, deg(14.0));
        }
        _ => panic!("Expected BoundingBox region"),
    }

    // Test center_radius method
    let config = OsmConfigBuilder::new()
        .center_radius(deg(52.5), deg(13.4), km(5.0))
        .build();
    match config.region {
        Region::CenterRadius {
            lat,
            lon,
            radius_m,
        } => {
            assert_eq!(lat, deg(52.5));
            assert_eq!(lon, deg(13.4));
            assert_eq!(radius_m, km(5.0));
        }
        _ => panic!("Expected CenterRadius region"),
    }

    // Test region method with Region enum
    let bbox_region = Region::bbox(deg(50.0), deg(10.0), deg(51.0), deg(11.0));
    let config = OsmConfigBuilder::new().region(bbox_region).build();
    match config.region {
        Region::BoundingBox(bbox) => {
            assert_eq!(bbox.south, deg(50.0));
            assert_eq!(bbox.west, deg(10.0));
        }
        _ => panic!("Expected BoundingBox region"),
    }
}

#[test]
fn test_builder_configuration_methods() {
    let config = OsmConfigBuilder::new()
        .grid_resolution(200)
        .tile_size(mm(5.0))
        .timeout(120)
        .build();

    assert_eq!(config.grid_resolution, 200);
    assert_eq!(config.tile_size_mm, mm(5.0));
    assert_eq!(config.timeout_seconds, 120);
}

#[test]
fn test_builder_feature_methods() {
    // Test with predefined feature set
    let config = OsmConfigBuilder::new()
        .features(FeatureSet::transportation())
        .build();

    assert!(config.features.contains_feature(&OsmFeature::Roads));
    assert!(config.features.contains_feature(&OsmFeature::Highways));
    assert!(config.features.contains_feature(&OsmFeature::Railways));

    // Test with individual features
    let config = OsmConfigBuilder::new()
        .with_feature(OsmFeature::Buildings)
        .with_feature(OsmFeature::Water)
        .build();

    assert!(config.features.contains_feature(&OsmFeature::Buildings));
    assert!(config.features.contains_feature(&OsmFeature::Water));
    assert!(!config.features.contains_feature(&OsmFeature::Roads));

    // Test with multiple features
    let features = vec![OsmFeature::Roads, OsmFeature::Buildings, OsmFeature::Parks];
    let config = OsmConfigBuilder::new()
        .with_features(features.clone())
        .build();

    for feature in features {
        assert!(config.features.contains_feature(&feature));
    }
}

#[test]
fn test_builder_feature_removal() {
    let config = OsmConfigBuilder::new()
        .urban_features() // Includes Roads, Buildings, Parks, Water
        .without_feature(OsmFeature::Water)
        .build();

    assert!(config.features.contains_feature(&OsmFeature::Roads));
    assert!(config.features.contains_feature(&OsmFeature::Buildings));
    assert!(config.features.contains_feature(&OsmFeature::Parks));
    assert!(!config.features.contains_feature(&OsmFeature::Water));
}

#[test]
fn test_builder_custom_queries() {
    let queries = vec![
        OsmTagQuery::new("shop", Some("supermarket")),
        OsmTagQuery::new("emergency", Some("hospital")),
    ];

    let config = OsmConfigBuilder::new()
        .with_custom_queries(queries.clone())
        .build();

    assert_eq!(config.features.custom_queries().len(), 2);
    for query in &queries {
        assert!(config.features.custom_queries().contains(query));
    }

    // Test single custom query
    let config = OsmConfigBuilder::new()
        .with_custom_query("shop", Some("bakery"))
        .build();

    assert_eq!(config.features.custom_queries().len(), 1);
    assert_eq!(
        config.features.custom_queries()[0],
        OsmTagQuery::new("shop", Some("bakery"))
    );
}

#[test]
fn test_builder_feature_presets() {
    // Test urban preset
    let config = OsmConfigBuilder::new().urban_features().build();
    assert!(config.features.contains_feature(&OsmFeature::Roads));
    assert!(config.features.contains_feature(&OsmFeature::Buildings));
    assert!(config.features.contains_feature(&OsmFeature::Parks));
    assert!(config.features.contains_feature(&OsmFeature::Water));

    // Test transportation preset
    let config = OsmConfigBuilder::new().transportation_features().build();
    assert!(config.features.contains_feature(&OsmFeature::Roads));
    assert!(config.features.contains_feature(&OsmFeature::Highways));
    assert!(config.features.contains_feature(&OsmFeature::Railways));
    assert!(config.features.contains_feature(&OsmFeature::Footpaths));
    assert!(config.features.contains_feature(&OsmFeature::Parking));

    // Test natural preset
    let config = OsmConfigBuilder::new().natural_features().build();
    assert!(config.features.contains_feature(&OsmFeature::Water));
    assert!(config.features.contains_feature(&OsmFeature::Rivers));
    assert!(config.features.contains_feature(&OsmFeature::Lakes));
    assert!(config.features.contains_feature(&OsmFeature::Forests));
    assert!(config.features.contains_feature(&OsmFeature::Parks));
    assert!(config.features.contains_feature(&OsmFeature::Grassland));

    // Test comprehensive preset
    let config = OsmConfigBuilder::new().comprehensive_features().build();
    assert!(config.features.contains_feature(&OsmFeature::Roads));
    assert!(config.features.contains_feature(&OsmFeature::Highways));
    assert!(config.features.contains_feature(&OsmFeature::Buildings));
    assert!(config.features.contains_feature(&OsmFeature::Residential));
    assert!(config.features.contains_feature(&OsmFeature::Commercial));
    assert!(config.features.contains_feature(&OsmFeature::Water));
    assert!(config.features.contains_feature(&OsmFeature::Parks));
    assert!(config.features.contains_feature(&OsmFeature::Forests));
    assert!(config.features.contains_feature(&OsmFeature::Railways));
    assert!(config.features.contains_feature(&OsmFeature::Amenities));
}

#[test]
fn test_builder_convenience_constructors() {
    // Test for_gaming
    let config = OsmConfigBuilder::for_gaming().build();
    assert!(config.features.contains_feature(&OsmFeature::Roads));
    assert!(config.features.contains_feature(&OsmFeature::Buildings));
    assert!(config.features.contains_feature(&OsmFeature::Parks));
    assert!(config.features.contains_feature(&OsmFeature::Water));
    assert!(config.features.contains_feature(&OsmFeature::Amenities));
    assert!(config.features.contains_feature(&OsmFeature::Tourism));
    assert_eq!(config.grid_resolution, 200);
    assert_eq!(config.tile_size_mm, mm(5.0));

    // Test for_navigation
    let config = OsmConfigBuilder::for_navigation().build();
    assert!(config.features.contains_feature(&OsmFeature::Roads));
    assert!(config.features.contains_feature(&OsmFeature::Highways));
    assert!(config.features.contains_feature(&OsmFeature::Railways));
    assert!(config.features.contains_feature(&OsmFeature::Buildings));
    assert!(config.features.contains_feature(&OsmFeature::Amenities));
    assert_eq!(config.grid_resolution, 150);
    assert_eq!(config.tile_size_mm, mm(8.0));

    // Test for_urban_planning
    let config = OsmConfigBuilder::for_urban_planning().build();
    assert!(config.features.contains_feature(&OsmFeature::Boundaries));
    assert!(config.features.contains_feature(&OsmFeature::Landuse));
    assert_eq!(config.grid_resolution, 300);
    assert_eq!(config.tile_size_mm, mm(3.0));

    // Test for_environment
    let config = OsmConfigBuilder::for_environment().build();
    assert!(config.features.contains_feature(&OsmFeature::Water));
    assert!(config.features.contains_feature(&OsmFeature::Forests));
    assert!(config.features.contains_feature(&OsmFeature::Landuse));
    assert_eq!(config.grid_resolution, 100);
    assert_eq!(config.tile_size_mm, mm(15.0));
}

#[test]
fn test_builder_chaining() {
    let config = OsmConfigBuilder::new()
        .city("Vienna")
        .grid_resolution(150)
        .tile_size(mm(7.5))
        .timeout(45)
        .urban_features()
        .with_feature(OsmFeature::Tourism)
        .without_feature(OsmFeature::Water)
        .with_custom_query("shop", Some("bakery"))
        .build();

    // Check region
    match config.region {
        Region::City { name } => assert_eq!(name, "Vienna"),
        _ => panic!("Expected City region"),
    }

    // Check configuration
    assert_eq!(config.grid_resolution, 150);
    assert_eq!(config.tile_size_mm, mm(7.5));
    assert_eq!(config.timeout_seconds, 45);

    // Check features
    assert!(config.features.contains_feature(&OsmFeature::Roads));
    assert!(config.features.contains_feature(&OsmFeature::Buildings));
    assert!(config.features.contains_feature(&OsmFeature::Parks));
    assert!(config.features.contains_feature(&OsmFeature::Tourism));
    assert!(!config.features.contains_feature(&OsmFeature::Water));

    // Check custom query
    assert_eq!(config.features.custom_queries().len(), 1);
    assert!(config
        .features
        .custom_queries()
        .contains(&OsmTagQuery::new("shop", Some("bakery"))));
}

#[test]
fn test_builder_default() {
    let builder1 = OsmConfigBuilder::new();
    let builder2 = OsmConfigBuilder::default();

    let config1 = builder1.build();
    let config2 = builder2.build();

    // Should be equivalent
    assert_eq!(config1.grid_resolution, config2.grid_resolution);
    assert_eq!(config1.tile_size_mm, config2.tile_size_mm);
    assert_eq!(config1.timeout_seconds, config2.timeout_seconds);
}

#[test]
fn test_builder_complex_scenario() {
    // Simulate a complex real-world configuration
    let config = OsmConfigBuilder::for_gaming()
        .city("Tokyo")
        .grid_resolution(250)
        .with_feature(OsmFeature::Railways) // Add railways for Japan
        .with_custom_query("railway", Some("station"))
        .with_custom_query("building", Some("temple"))
        .timeout(90)
        .build();

    // Verify the complex setup
    match config.region {
        Region::City { name } => assert_eq!(name, "Tokyo"),
        _ => panic!("Expected City region"),
    }

    assert_eq!(config.grid_resolution, 250);
    assert_eq!(config.timeout_seconds, 90);

    // Should have gaming features plus railways
    assert!(config.features.contains_feature(&OsmFeature::Roads));
    assert!(config.features.contains_feature(&OsmFeature::Buildings));
    assert!(config.features.contains_feature(&OsmFeature::Amenities));
    assert!(config.features.contains_feature(&OsmFeature::Tourism));
    assert!(config.features.contains_feature(&OsmFeature::Railways));

    // Should have custom queries for Japanese-specific features
    assert_eq!(config.features.custom_queries().len(), 2);
    assert!(config
        .features
        .custom_queries()
        .contains(&OsmTagQuery::new("railway", Some("station"))));
    assert!(config
        .features
        .custom_queries()
        .contains(&OsmTagQuery::new("building", Some("temple"))));
}

#[test]
fn test_osm_config_default() {
    let config = OsmConfig::default();

    // Check defaults
    assert_eq!(config.grid_resolution, 100);
    assert_eq!(config.tile_size_mm, mm(10.0));
    assert_eq!(config.timeout_seconds, 30);

    // Should default to Berlin
    match config.region {
        Region::City { name } => assert_eq!(name, "Berlin"),
        _ => panic!("Expected City region"),
    }

    // Should have urban features by default
    assert!(config.features.contains_feature(&OsmFeature::Roads));
    assert!(config.features.contains_feature(&OsmFeature::Buildings));
    assert!(config.features.contains_feature(&OsmFeature::Parks));
    assert!(config.features.contains_feature(&OsmFeature::Water));
}

#[test]
fn test_osm_config_for_city() {
    let config = OsmConfig::for_city("Munich");

    match config.region {
        Region::City { name } => assert_eq!(name, "Munich"),
        _ => panic!("Expected City region"),
    }

    // Other fields should be default
    assert_eq!(config.grid_resolution, 100);
    assert_eq!(config.tile_size_mm, mm(10.0));
    assert_eq!(config.timeout_seconds, 30);
}

#[test]
fn test_osm_config_builder_methods() {
    let config = OsmConfig::for_city("Hamburg")
        .with_grid_resolution(150)
        .with_tile_size(mm(7.5))
        .with_timeout(45)
        .with_features(FeatureSet::transportation());

    match config.region {
        Region::City { name } => assert_eq!(name, "Hamburg"),
        _ => panic!("Expected City region"),
    }

    assert_eq!(config.grid_resolution, 150);
    assert_eq!(config.tile_size_mm, mm(7.5));
    assert_eq!(config.timeout_seconds, 45);

    // Should have transportation features
    assert!(config.features.contains_feature(&OsmFeature::Roads));
    assert!(config.features.contains_feature(&OsmFeature::Highways));
    assert!(config.features.contains_feature(&OsmFeature::Railways));
    assert!(!config.features.contains_feature(&OsmFeature::Buildings));
}

#[test]
fn test_osm_config_builder_creation() {
    let builder = OsmConfig::builder();
    let config = builder.city("Vienna").grid_resolution(200).build();

    match config.region {
        Region::City { name } => assert_eq!(name, "Vienna"),
        _ => panic!("Expected City region"),
    }

    assert_eq!(config.grid_resolution, 200);
}

#[test]
fn test_osm_config_complex_scenario() {
    // Test a complex configuration with all features
    let custom_queries = vec![
        OsmTagQuery::new("shop", Some("supermarket")),
        OsmTagQuery::new("emergency", Some("hospital")),
    ];

    let config = OsmConfig::builder()
        .center_radius(deg(48.1351), deg(11.5820), km(10.0)) // Munich coordinates
        .grid_resolution(300)
        .tile_size(mm(3.0))
        .timeout(120)
        .comprehensive_features()
        .with_feature(OsmFeature::Tourism)
        .with_custom_queries(custom_queries.clone())
        .build();

    // Check region
    match config.region {
        Region::CenterRadius {
            lat,
            lon,
            radius_m,
        } => {
            assert_eq!(lat, deg(48.1351));
            assert_eq!(lon, deg(11.5820));
            assert_eq!(radius_m, km(10.0));
        }
        _ => panic!("Expected CenterRadius region"),
    }

    // Check configuration
    assert_eq!(config.grid_resolution, 300);
    assert_eq!(config.tile_size_mm, mm(3.0));
    assert_eq!(config.timeout_seconds, 120);

    // Check comprehensive features
    assert!(config.features.contains_feature(&OsmFeature::Roads));
    assert!(config.features.contains_feature(&OsmFeature::Highways));
    assert!(config.features.contains_feature(&OsmFeature::Buildings));
    assert!(config.features.contains_feature(&OsmFeature::Water));
    assert!(config.features.contains_feature(&OsmFeature::Railways));
    assert!(config.features.contains_feature(&OsmFeature::Amenities));
    assert!(config.features.contains_feature(&OsmFeature::Tourism)); // Added feature

    // Check custom queries
    assert_eq!(config.features.custom_queries().len(), 2);
    for query in &custom_queries {
        assert!(config.features.custom_queries().contains(query));
    }
}

#[test]
fn test_osm_config_method_chaining() {
    // Test that all builder methods can be chained
    let config = OsmConfig::for_city("Test City")
        .with_grid_resolution(250)
        .with_tile_size(mm(2.5))
        .with_timeout(60)
        .with_features(
            FeatureSet::new()
                .with_feature(OsmFeature::Roads)
                .with_feature(OsmFeature::Buildings)
                .with_custom_query(OsmTagQuery::new("test", Some("value"))),
        );

    match config.region {
        Region::City { name } => assert_eq!(name, "Test City"),
        _ => panic!("Expected City region"),
    }

    assert_eq!(config.grid_resolution, 250);
    assert_eq!(config.tile_size_mm, mm(2.5));
    assert_eq!(config.timeout_seconds, 60);
    assert!(config.features.contains_feature(&OsmFeature::Roads));
    assert!(config.features.contains_feature(&OsmFeature::Buildings));
    assert_eq!(config.features.custom_queries().len(), 1);
}

#[test]
fn test_osm_config_validation() {
    // Test that configurations can have various valid values
    let configs = vec![
        OsmConfig::for_city("A")
            .with_grid_resolution(1)
            .with_tile_size(mm(0.1))
            .with_timeout(1),
        OsmConfig::for_city("B")
            .with_grid_resolution(1000)
            .with_tile_size(mm(100.0))
            .with_timeout(3600),
        OsmConfig::builder()
            .bbox(deg(-90.0), deg(-180.0), deg(90.0), deg(180.0))
            .build(), // World bbox
    ];

    for config in configs {
        // Should be valid configurations
        assert!(config.grid_resolution > 0);
        assert!(config.tile_size_mm > 0);
        assert!(config.timeout_seconds > 0);
    }
}

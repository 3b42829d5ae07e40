use bevy_osm_tiles::{
    BoundingBox, FeatureSet, FetchStep, FileProvider, GeocodeAnswer, GeocodeHit, GeocodeReply, HttpConfig, HttpError, MockProvider, NetworkError,
    OsmConfigBuilder, OsmData, OsmDataFormat, OsmFeature, OsmMetadata, OsmTilesError,
    OverpassProvider, Provider, ProviderCapabilities, ProviderFactory, RawDocument, RawElement,
    QueryReply, RawPoint, Region,
};

/// Degrees as coordinate units of 1e-7 degree.
fn deg(value: f64) -> i32 {
    (value * 1e7).round() as i32
}

/// Kilometres as metres.
fn km(value: f64) -> u32 {
    (value * 1000.0).round() as u32
}

#[test]
fn test_osm_metadata_creation() {
    let metadata = OsmMetadata::new("test-source", "test-provider");

    assert_eq!(metadata.source, "test-source");
    assert_eq!(metadata.provider_type, "test-provider");
    assert!(metadata.element_count.is_none());
    assert!(metadata.processing_time_ms.is_none());
    assert!(metadata.extra.is_empty());
    assert!(!metadata.timestamp.is_empty());
}

#[test]
fn test_osm_metadata_builder() {
    let metadata = OsmMetadata::new("source", "provider")
        .with_element_count(42)
        .with_processing_time(1500)
        .with_extra("key1", "value1")
        .with_extra("key2", "value2");

    assert_eq!(metadata.element_count, Some(42));
    assert_eq!(metadata.processing_time_ms, Some(1500));
    assert_eq!(metadata.extra.get("key1"), Some(&"value1".to_string()));
    assert_eq!(metadata.extra.get("key2"), Some(&"value2".to_string()));
}

#[test]
fn test_provider_capabilities_default() {
    let capabilities = ProviderCapabilities::default();

    assert!(!capabilities.supports_real_time);
    assert!(!capabilities.requires_network);
    assert!(!capabilities.supports_geocoding);
    assert!(capabilities.max_area_km2.is_none());
    assert_eq!(capabilities.supported_formats, vec![OsmDataFormat::Json]);
    assert!(capabilities.rate_limit_rpm.is_none());
    assert!(capabilities.wasm_compatible);
    assert!(capabilities.notes.is_none());
}

#[test]
fn test_provider_factory_available_providers() {
    let providers = ProviderFactory::available_providers();
    assert_eq!(providers, vec!["overpass", "mock"]);
}

#[test]
fn test_provider_factory_create_overpass() {
    let provider = ProviderFactory::overpass();
    assert_eq!(provider.provider_type(), "overpass");
}

#[test]
fn test_provider_factory_create_overpass_with_url() {
    let custom_url = "https://custom.overpass.api/interpreter";
    let provider = ProviderFactory::overpass_with_url(custom_url);
    assert_eq!(provider.base_url, custom_url);
}

#[test]
fn test_provider_factory_create_mock() {
    let provider = ProviderFactory::mock();
    assert_eq!(provider.provider_type(), "mock");
}

#[test]
fn test_provider_factory_create_mock_with_data() {
    let custom_data = r#"{"custom": "data"}"#;
    let provider = ProviderFactory::mock_with_data(custom_data);
    // We can't easily test the internal data without accessing private fields,
    // but we can verify it was created
    assert_eq!(provider.provider_type(), "mock");
}

#[test]
fn test_provider_factory_create_provider_by_name() {
    // Test valid provider names
    let overpass = ProviderFactory::create_provider("overpass").unwrap();
    assert_eq!(overpass.provider_type(), "overpass");

    let mock = ProviderFactory::create_provider("mock").unwrap();
    assert_eq!(mock.provider_type(), "mock");

    // Test invalid provider name
    let result = ProviderFactory::create_provider("invalid");
    assert!(result.is_err());

    if let Err(OsmTilesError::Config(msg)) = result {
        assert!(msg.contains("Unknown provider: 'invalid'"));
        assert!(msg.contains("Available providers:"));
    } else {
        panic!("Expected Config error");
    }
}

#[test]
fn test_provider_trait_methods() {
    // Test that we can use providers through the common type
    let provider: Provider = Provider::Mock(ProviderFactory::mock());

    assert_eq!(provider.provider_type(), "mock");

    let capabilities = provider.capabilities();
    assert!(capabilities.wasm_compatible);

    // Test availability
    let mock = ProviderFactory::mock();
    let availability = mock.test_availability();
    assert!(availability.is_ok());

    // Test region resolution
    let region = Region::city("test");
    let bbox = mock.resolve_region(&region).unwrap();
    assert!(bbox.contains(deg(52.5), deg(13.4))); // Should be in the test range
}

#[test]
fn test_provider_trait_with_config() {
    let provider = ProviderFactory::mock();
    let config = OsmConfigBuilder::new().city("test").build();

    let result = provider.fetch_data(&config).unwrap();

    assert!(!result.raw_data.is_empty());
    assert!(matches!(result.format, OsmDataFormat::Json));
    assert_eq!(result.metadata.provider_type, "mock");
}

#[test]
fn test_mock_provider_basic() {
    let provider = MockProvider::new();
    assert_eq!(provider.provider_type(), "mock");

    let capabilities = provider.capabilities();
    assert!(!capabilities.supports_real_time);
    assert!(!capabilities.requires_network);
    assert!(capabilities.supports_geocoding);
    assert!(capabilities.wasm_compatible);
    assert!(capabilities.max_area_km2.is_none());
}

#[test]
fn test_mock_provider_with_custom_data() {
    let custom_data = r#"{"elements": [{"type": "node", "id": 1, "lat": 50.0, "lon": 8.0}]}"#;
    let provider = MockProvider::with_data(custom_data);

    let config = OsmConfigBuilder::new().city("test").build();

    let result = provider.fetch_data(&config).unwrap();
    assert_eq!(result.raw_data, custom_data);
    assert_eq!(result.format, OsmDataFormat::Json);
    assert_eq!(result.metadata.provider_type, "mock");
}

#[test]
fn test_mock_provider_with_failure() {
    let provider = MockProvider::new().with_failure();

    let config = OsmConfigBuilder::new().city("test").build();

    let result = provider.fetch_data(&config);
    assert!(result.is_err());

    if let Err(OsmTilesError::Network(NetworkError::Connection { message })) = result {
        assert_eq!(message, "Simulated network failure");
    } else {
        panic!("Expected NetworkError::Connection");
    }
}

#[test]
fn test_mock_provider_region_resolution() {
    let provider = MockProvider::new();

    // Test bounding box region
    let bbox_region = Region::bbox(deg(52.0), deg(13.0), deg(53.0), deg(14.0));
    let result = provider.resolve_region(&bbox_region).unwrap();
    assert_eq!(result.south, deg(52.0));
    assert_eq!(result.west, deg(13.0));
    assert_eq!(result.north, deg(53.0));
    assert_eq!(result.east, deg(14.0));

    // Test center radius region
    let center_region = Region::center_radius(deg(52.5), deg(13.4), km(5.0));
    let result = provider.resolve_region(&center_region).unwrap();
    assert!(result.contains(deg(52.5), deg(13.4))); // Should contain center point

    // Test known cities
    let berlin_region = Region::city("berlin");
    let result = provider.resolve_region(&berlin_region).unwrap();
    assert!(result.contains(deg(52.5), deg(13.4))); // Berlin coordinates

    let munich_region = Region::city("munich");
    let result = provider.resolve_region(&munich_region).unwrap();
    assert!(result.contains(deg(48.1), deg(11.5))); // Munich coordinates

    // Test unknown city
    let unknown_region = Region::city("unknown_city");
    let result = provider.resolve_region(&unknown_region);
    assert!(result.is_err());

    if let Err(OsmTilesError::Geographic(msg)) = result {
        assert!(msg.contains("Mock provider doesn't know city"));
    } else {
        panic!("Expected Geographic error");
    }
}

#[test]
fn test_mock_provider_test_availability() {
    // Normal provider should be available
    let provider = MockProvider::new();
    assert!(provider.test_availability().is_ok());

    // Provider with failure should not be available
    let failing_provider = MockProvider::new().with_failure();
    let result = failing_provider.test_availability();
    assert!(result.is_err());

    if let Err(OsmTilesError::Geographic(msg)) = result {
        assert_eq!(msg, "Mock failure enabled");
    } else {
        panic!("Expected Geographic error");
    }
}

#[test]
fn test_mock_provider_metadata() {
    let provider = MockProvider::new();
    let config = OsmConfigBuilder::new()
        .city("test")
        .features(FeatureSet::urban())
        .build();

    let result = provider.fetch_data(&config).unwrap();
    let metadata = result.metadata;

    assert_eq!(metadata.provider_type, "mock");
    assert_eq!(metadata.source, "mock-provider");
    assert_eq!(metadata.element_count, Some(4));
    assert!(metadata.processing_time_ms.is_some());
    assert_eq!(metadata.extra.get("simulated"), Some(&"true".to_string()));
    assert_eq!(
        metadata.extra.get("wasm_compatible"),
        Some(&"true".to_string())
    );
    assert_eq!(metadata.extra.get("test_data"), Some(&"true".to_string()));
}

#[test]
fn test_mock_provider_default_test_data() {
    let provider = MockProvider::new();
    let config = OsmConfigBuilder::new().city("test").build();

    let result = provider.fetch_data(&config).unwrap();

    // Verify the data is valid JSON
    let parsed: serde_json::Value = serde_json::from_str(&result.raw_data).unwrap();
    assert!(parsed.get("elements").is_some());

    // Should have the expected test elements
    let elements = parsed["elements"].as_array().unwrap();
    assert_eq!(elements.len(), 4);

    // Check for expected element types
    let element_types: Vec<&str> = elements
        .iter()
        .filter_map(|e| e.get("type").and_then(|t| t.as_str()))
        .collect();
    assert!(element_types.contains(&"way"));
    assert!(element_types.contains(&"node"));
}

#[test]
fn test_provider_capabilities_differences() {
    let mock_provider = ProviderFactory::mock();
    let overpass_provider = ProviderFactory::overpass();

    let mock_caps = mock_provider.capabilities();
    let overpass_caps = overpass_provider.capabilities();

    // Both should be WASM compatible
    assert!(mock_caps.wasm_compatible);
    assert!(overpass_caps.wasm_compatible);

    // Overpass requires network, mock doesn't
    assert!(!mock_caps.requires_network);
    assert!(overpass_caps.requires_network);

    // Overpass provides real-time data, mock doesn't
    assert!(!mock_caps.supports_real_time);
    assert!(overpass_caps.supports_real_time);

    // Both support geocoding
    assert!(mock_caps.supports_geocoding);
    assert!(overpass_caps.supports_geocoding);
}

#[test]
fn test_provider_factory_consistency() {
    // Test that factory methods create consistent providers
    let provider1 = ProviderFactory::overpass();
    let provider2 = ProviderFactory::overpass();

    // Should have same configuration
    assert_eq!(provider1.base_url, provider2.base_url);
    assert_eq!(provider1.provider_type(), provider2.provider_type());

    // Test custom URL consistency
    let custom_url = "https://test.example.com/api";
    let custom1 = ProviderFactory::overpass_with_url(custom_url);
    let custom2 = ProviderFactory::overpass_with_url(custom_url);

    assert_eq!(custom1.base_url, custom2.base_url);
    assert_eq!(custom1.base_url, custom_url);
}

#[test]
fn test_provider_error_handling() {
    // Test mock provider with failure
    let failing_provider = ProviderFactory::mock().with_failure();
    let config = OsmConfigBuilder::new().city("test").build();

    let result = failing_provider.fetch_data(&config);
    assert!(result.is_err());

    let availability = failing_provider.test_availability();
    assert!(availability.is_err());

    // Test invalid city with mock provider
    let provider = ProviderFactory::mock();
    let result = provider.resolve_region(&Region::city("invalid_city_name"));
    assert!(result.is_err());
}

#[test]
fn test_different_feature_sets() {
    let provider = ProviderFactory::mock();

    let configs = vec![
        OsmConfigBuilder::new().urban_features().build(),
        OsmConfigBuilder::new().transportation_features().build(),
        OsmConfigBuilder::new().natural_features().build(),
        OsmConfigBuilder::new().comprehensive_features().build(),
    ];

    for config in configs {
        // Without a region the city of Berlin is asked for.
        let result = provider.fetch_data(&config).unwrap();
        assert!(!result.raw_data.is_empty());
        assert_eq!(result.metadata.provider_type, "mock");
        // Mock provider should handle all feature sets
    }
}

#[test]
fn test_overpass_provider_basic() {
    let provider = OverpassProvider::new();
    assert_eq!(provider.provider_type(), "overpass");
    assert_eq!(provider.base_url, "https://overpass-api.de/api/interpreter");

    let capabilities = provider.capabilities();
    assert!(capabilities.supports_real_time);
    assert!(capabilities.requires_network);
    assert!(capabilities.supports_geocoding);
    assert!(capabilities.wasm_compatible);
    assert_eq!(capabilities.max_area_km2, Some(1000));
    assert_eq!(capabilities.rate_limit_rpm, Some(60));
}

#[test]
fn test_overpass_provider_custom_url() {
    let custom_url = "https://lz4.overpass-api.de/api/interpreter";
    let provider = OverpassProvider::with_base_url(custom_url);
    assert_eq!(provider.base_url, custom_url);
}

#[test]
fn test_build_overpass_query() {
    let provider = OverpassProvider::new();
    let bbox = BoundingBox::new(deg(52.0), deg(13.0), deg(53.0), deg(14.0));
    let config = OsmConfigBuilder::new()
        .features(FeatureSet::urban())
        .build();

    let query = provider.build_overpass_query(&bbox, &config);

    // Should contain basic structure
    assert!(query.contains("[out:json]"));
    assert!(query.contains("[timeout:"));
    assert!(query.contains("52,13,53,14")); // bbox coordinates
    assert!(query.contains("out geom"));

    // Should contain feature queries
    assert!(query.contains("way[\"highway\"]"));
    assert!(query.contains("way[\"building\"]"));
    assert!(query.contains("way[\"leisure\"]"));
    assert!(query.contains("way[\"natural\"]"));
}

#[test]
fn test_build_overpass_query_with_custom_features() {
    let provider = OverpassProvider::new();
    let bbox = BoundingBox::new(deg(52.0), deg(13.0), deg(53.0), deg(14.0));
    let config = OsmConfigBuilder::new()
        .features(
            FeatureSet::new()
                .with_feature(OsmFeature::Buildings)
                .with_feature(OsmFeature::Railways),
        )
        .build();

    let query = provider.build_overpass_query(&bbox, &config);

    // Should contain building queries
    assert!(query.contains("way[\"building\"]"));
    assert!(query.contains("relation[\"building\"]")); // Buildings use relations

    // Should contain railway queries
    assert!(query.contains("way[\"railway\"]"));

    // Should not contain roads (not in feature set)
    assert!(!query.contains("way[\"highway\"]"));
}

#[test]
fn test_should_include_relations() {
    let provider = OverpassProvider::new();

    // These should include relations
    assert!(provider.should_include_relations("building"));
    assert!(provider.should_include_relations("natural"));
    assert!(provider.should_include_relations("landuse"));
    assert!(provider.should_include_relations("leisure"));
    assert!(provider.should_include_relations("boundary"));
    assert!(provider.should_include_relations("waterway"));

    // These should not
    assert!(!provider.should_include_relations("highway"));
    assert!(!provider.should_include_relations("amenity"));
    assert!(!provider.should_include_relations("unknown"));
}

#[test]
fn test_should_include_nodes() {
    let provider = OverpassProvider::new();

    // These should include nodes
    assert!(provider.should_include_nodes("amenity"));
    assert!(provider.should_include_nodes("tourism"));
    assert!(provider.should_include_nodes("power"));

    // These should not
    assert!(!provider.should_include_nodes("building"));
    assert!(!provider.should_include_nodes("highway"));
    assert!(!provider.should_include_nodes("unknown"));
}

#[test]
fn test_timeout_calculation() {
    let provider = OverpassProvider::new();
    let config = OsmConfigBuilder::new().timeout(120).build();
    let bbox = BoundingBox::new(deg(52.0), deg(13.0), deg(52.1), deg(13.1));

    let query = provider.build_overpass_query(&bbox, &config);
    assert!(query.contains("[timeout:120]"));

    // Test custom timeout override
    let provider_with_timeout = OverpassProvider::new().with_timeout_secs(90);
    let query = provider_with_timeout.build_overpass_query(&bbox, &config);
    assert!(query.contains("[timeout:90]"));
}

#[test]
fn overpass_query_exact() {
    let provider = OverpassProvider::new().with_timeout_secs(25);
    let bbox = BoundingBox::new(deg(52.4), deg(-0.5), deg(52.6), deg(13.0000001));
    let config = OsmConfigBuilder::new()
        .with_feature(OsmFeature::Water)
        .with_feature(OsmFeature::Amenities)
        .build();
    assert_eq!(
        provider.build_overpass_query(&bbox, &config),
        "[out:json][timeout:25];\n(\n\
         \x20 way[\"amenity\"](52.4,-0.5,52.6,13.0000001);\n\
         \x20 node[\"amenity\"](52.4,-0.5,52.6,13.0000001);\n\
         \x20 way[\"natural\"][\"water\"](52.4,-0.5,52.6,13.0000001);\n\
         \x20 relation[\"natural\"][\"water\"](52.4,-0.5,52.6,13.0000001);\n\
         \x20 way[\"waterway\"](52.4,-0.5,52.6,13.0000001);\n\
         \x20 relation[\"waterway\"](52.4,-0.5,52.6,13.0000001);\n\
         );\nout geom;"
    );
    let nothing = OsmConfigBuilder::new().build();
    assert_eq!(
        OverpassProvider::new().build_overpass_query(&bbox, &nothing),
        "[out:json][timeout:30];\n(\n);\nout geom;"
    );
}

#[test]
fn overpass_constructors() {
    let config = HttpConfig::new().with_user_agent("agent");
    let provider = OverpassProvider::with_config("https://example.org/api", config);
    assert_eq!(provider.base_url, "https://example.org/api");
    assert_eq!(provider.http_config.user_agent, "agent");
    assert_eq!(provider.custom_timeout, None);
    assert_eq!(
        OverpassProvider::for_wasm().base_url,
        "https://overpass-api.de/api/interpreter"
    );
    assert_eq!(
        OverpassProvider::for_native().base_url,
        "https://overpass-api.de/api/interpreter"
    );
    assert_eq!(
        OverpassProvider::default().base_url,
        "https://overpass-api.de/api/interpreter"
    );
    let config = OsmConfigBuilder::new().timeout(7).build();
    assert_eq!(OverpassProvider::new().timeout_for(&config), 7);
    assert_eq!(
        OverpassProvider::new().with_timeout_secs(9).timeout_for(&config),
        9
    );
}

#[test]
fn overpass_converts_http_errors() {
    assert!(matches!(
        OverpassProvider::convert_http_error(HttpError::RequestFailed { message: "a".to_string() }),
        NetworkError::Connection { message } if message == "a"
    ));
    assert!(matches!(
        OverpassProvider::convert_http_error(HttpError::HttpStatus { status: 503 }),
        NetworkError::HttpError { status: 503 }
    ));
    assert!(matches!(
        OverpassProvider::convert_http_error(HttpError::Timeout { seconds: 12 }),
        NetworkError::Timeout { seconds: 12 }
    ));
    assert!(matches!(
        OverpassProvider::convert_http_error(HttpError::Network { message: "b".to_string() }),
        NetworkError::Connection { message } if message == "b"
    ));
}

#[test]
fn overpass_steps_and_checks() {
    let provider = OverpassProvider::new();
    let bbox = BoundingBox::new(1, 2, 3, 4);
    assert!(matches!(
        provider.begin(&Region::BoundingBox(bbox)),
        FetchStep::Measure { bbox: b } if b == bbox
    ));
    assert!(matches!(
        provider.begin(&Region::center_radius(5, 6, 7)),
        FetchStep::Surround { lat: 5, lon: 6, radius_m: 7 }
    ));
    match provider.begin(&Region::city("New York")) {
        FetchStep::Geocode { name, url } => {
            assert_eq!(name, "New York");
            assert_eq!(
                url,
                "https://nominatim.openstreetmap.org/search?q=New%20York&format=json&limit=1&addressdetails=1"
            );
        }
        other => panic!("expected a request to the geocoder, got {:?}", other),
    }
    assert_eq!(
        OverpassProvider::nominatim_url("K\u{f6}ln/Bonn"),
        "https://nominatim.openstreetmap.org/search?q=K%C3%B6ln%2FBonn&format=json&limit=1&addressdetails=1"
    );

    assert!(OverpassProvider::check_status(200).is_ok());
    assert!(matches!(
        OverpassProvider::check_status(429),
        Err(OsmTilesError::Network(NetworkError::HttpError { status: 429 }))
    ));
    assert!(matches!(
        OverpassProvider::check_status(201),
        Err(OsmTilesError::Network(NetworkError::HttpError { status: 201 }))
    ));

    assert!(OverpassProvider::check_area(0).is_ok());
    assert!(OverpassProvider::check_area(5_000_000_000).is_ok());
    match OverpassProvider::check_area(5_000_000_001) {
        Err(OsmTilesError::Config(message)) => assert_eq!(
            message,
            "Area too large: 5000.00 km\u{b2}. Overpass API typically limits requests to ~1000 km\u{b2}"
        ),
        other => panic!("expected a configuration error, got {:?}", other),
    }
    match OverpassProvider::check_area(12_345_678_900) {
        Err(OsmTilesError::Config(message)) => assert_eq!(
            message,
            "Area too large: 12345.67 km\u{b2}. Overpass API typically limits requests to ~1000 km\u{b2}"
        ),
        other => panic!("expected a configuration error, got {:?}", other),
    }
}

fn hit(entries: &[Option<&str>]) -> GeocodeHit {
    GeocodeHit {
        boundingbox: Some(entries.iter().map(|e| e.map(|s| s.to_string())).collect()),
    }
}

fn geographic(result: Result<BoundingBox, OsmTilesError>) -> String {
    match result {
        Err(OsmTilesError::Geographic(message)) => message,
        other => panic!("expected a geographic error, got {:?}", other),
    }
}

fn parse(result: Result<BoundingBox, OsmTilesError>) -> String {
    match result {
        Err(OsmTilesError::Parse(message)) => message,
        other => panic!("expected a parse error, got {:?}", other),
    }
}

#[test]
fn geocoded_region_decisions() {
    // South, north, west, east.
    let berlin = hit(&[
        Some("52.3382448"),
        Some("52.6755087"),
        Some("13.0883450"),
        Some("13.7611609"),
    ]);
    assert_eq!(
        OverpassProvider::geocoded_region("Berlin", &GeocodeAnswer::Hits(vec![berlin])).unwrap(),
        BoundingBox::new(523382448, 130883450, 526755087, 137611609)
    );
    assert_eq!(
        geographic(OverpassProvider::geocoded_region("Atlantis", &GeocodeAnswer::Hits(Vec::new()))),
        "Could not find city: Atlantis"
    );
    assert_eq!(
        geographic(OverpassProvider::geocoded_region(
            "Atlantis",
            &GeocodeAnswer::Hits(vec![GeocodeHit { boundingbox: None }])
        )),
        "No bounding box found for city: Atlantis"
    );
    assert_eq!(
        geographic(OverpassProvider::geocoded_region(
            "X",
            &GeocodeAnswer::Hits(vec![hit(&[Some("1"), Some("2"), Some("3")])])
        )),
        "Invalid bounding box format from geocoding service"
    );
    assert_eq!(
        parse(OverpassProvider::geocoded_region(
            "X",
            &GeocodeAnswer::Hits(vec![hit(&[Some("1"), None, Some("x"), Some("4")])])
        )),
        "Invalid north latitude"
    );
    assert_eq!(
        parse(OverpassProvider::geocoded_region(
            "X",
            &GeocodeAnswer::Hits(vec![hit(&[Some("1"), Some("2"), Some("x"), None])])
        )),
        "Invalid west longitude format"
    );
    assert_eq!(
        parse(OverpassProvider::geocoded_region(
            "X",
            &GeocodeAnswer::Hits(vec![hit(&[Some("south"), Some("2"), Some("3"), Some("4")])])
        )),
        "Invalid south latitude format"
    );
    assert_eq!(
        parse(OverpassProvider::geocoded_region(
            "X",
            &GeocodeAnswer::Hits(vec![hit(&[Some("1"), Some("2"), Some("3"), None])])
        )),
        "Invalid east longitude"
    );
    // Only the first place counts.
    assert_eq!(
        OverpassProvider::geocoded_region(
            "X",
            &GeocodeAnswer::Hits(vec![
                hit(&[Some("-1.5"), Some("2"), Some("-3"), Some("4.25")]),
                GeocodeHit { boundingbox: None }
            ])
        )
        .unwrap(),
        BoundingBox::new(-15000000, -30000000, 20000000, 42500000)
    );
    assert_eq!(
        parse(OverpassProvider::geocoded_region(
            "X",
            &GeocodeAnswer::Invalid { reason: "eof".to_string() }
        )),
        "Failed to parse geocoding response: eof"
    );
}

#[test]
fn overpass_fetch_metadata() {
    let provider = OverpassProvider::with_base_url("https://example.org/api");
    let bbox = BoundingBox::new(deg(52.0), deg(13.0), deg(52.1), deg(13.25));
    let metadata = provider.fetch_metadata(2048, 77_123_456, &bbox, 1500, Some(42));
    assert_eq!(metadata.source, "https://example.org/api");
    assert_eq!(metadata.provider_type, "overpass");
    assert_eq!(metadata.processing_time_ms, Some(1500));
    assert_eq!(metadata.element_count, Some(42));
    assert_eq!(metadata.extra.get("query_size"), Some(&"2048".to_string()));
    assert_eq!(metadata.extra.get("area_km2"), Some(&"77.12".to_string()));
    assert_eq!(metadata.extra.get("bbox"), Some(&"52,13,52.1,13.25".to_string()));
    assert_eq!(
        metadata.extra.get("http_client"),
        Some(&"trait_based".to_string())
    );
    assert_eq!(metadata.extra.len(), 4);
    let unknown = provider.fetch_metadata(0, 5_000, &bbox, 0, None);
    assert_eq!(unknown.element_count, None);
    assert_eq!(unknown.extra.get("area_km2"), Some(&"0.00".to_string()));
}

#[test]
fn mock_provider_exact() {
    let provider = MockProvider::default();
    // Cities are known whatever the case of their names.
    assert_eq!(
        provider.resolve_region(&Region::city("BERLIN")).unwrap(),
        BoundingBox::new(deg(52.3), deg(13.0), deg(52.7), deg(13.8))
    );
    assert_eq!(
        provider.resolve_region(&Region::city("M\u{dc}NCHEN")).unwrap(),
        BoundingBox::new(deg(48.0), deg(11.3), deg(48.3), deg(11.8))
    );
    assert_eq!(
        provider.resolve_region(&Region::city("Hamburg")).unwrap(),
        BoundingBox::new(deg(53.4), deg(9.7), deg(53.8), deg(10.3))
    );
    for name in ["test", "TestCity", "Mock"] {
        assert_eq!(
            provider.resolve_region(&Region::city(name)).unwrap(),
            BoundingBox::new(deg(52.4), deg(13.3), deg(52.6), deg(13.5))
        );
    }
    match provider.resolve_region(&Region::city("Paris")) {
        Err(OsmTilesError::Geographic(message)) => assert_eq!(
            message,
            "Mock provider doesn't know city: 'Paris'. Try: berlin, munich, hamburg, or test"
        ),
        other => panic!("expected a geographic error, got {:?}", other),
    }
    // A radius of 111 km is a degree each way.
    assert_eq!(
        provider
            .resolve_region(&Region::center_radius(deg(52.5), deg(13.4), km(111.0)))
            .unwrap(),
        BoundingBox::new(deg(51.5), deg(12.4), deg(53.5), deg(14.4))
    );
    // The box stays within the range of coordinates.
    assert_eq!(
        provider
            .resolve_region(&Region::center_radius(i32::MAX, i32::MIN, u32::MAX))
            .unwrap(),
        BoundingBox::new(i32::MIN, i32::MIN, i32::MAX, i32::MAX)
    );
    assert_eq!(MockProvider::city_box("berlin"), provider.resolve_region(&Region::city("Berlin")).ok());
    assert_eq!(MockProvider::city_box("Berlin"), None);
    assert!(MockProvider::default_test_data().contains("Mock Provider v1.0"));

    let data: OsmData = provider
        .fetch_data(&OsmConfigBuilder::new().center_radius(0, 0, 111).build())
        .unwrap();
    assert_eq!(data.bounding_box, BoundingBox::new(-10000, -10000, 10000, 10000));
    assert_eq!(data.raw_data, MockProvider::default_test_data());
    assert_eq!(data.metadata.processing_time_ms, Some(1));
    assert_eq!(data.metadata.extra.len(), 3);
    let copy = data.clone();
    assert_eq!(copy.raw_data, data.raw_data);
    assert_eq!(copy.metadata.source, "mock-provider");
    assert!(matches!(
        provider.fetch_data(&OsmConfigBuilder::new().city("Paris").build()),
        Err(OsmTilesError::Geographic(_))
    ));
}

#[test]
fn error_messages() {
    assert_eq!(
        OsmTilesError::Network(NetworkError::HttpError { status: 404 }).message(),
        "Network error: HTTP request failed: 404"
    );
    assert_eq!(
        OsmTilesError::from(NetworkError::Timeout { seconds: 30 }).message(),
        "Network error: Request timed out after 30 seconds"
    );
    assert_eq!(
        NetworkError::Connection { message: "refused".to_string() }.message(),
        "Connection error: refused"
    );
    assert_eq!(
        NetworkError::InvalidUrl { url: "htp:/x".to_string() }.message(),
        "Invalid URL: htp:/x"
    );
    assert_eq!(OsmTilesError::Parse("p".to_string()).message(), "Parse error: p");
    assert_eq!(
        OsmTilesError::Config("c".to_string()).message(),
        "Configuration error: c"
    );
    assert_eq!(
        OsmTilesError::Geographic("g".to_string()).message(),
        "Geographic error: g"
    );
    assert_eq!(
        OsmTilesError::GridGeneration("r".to_string()).message(),
        "Grid generation error: r"
    );
    assert_eq!(
        OsmTilesError::invalid_json("expected value at line 1").message(),
        "Parse error: Invalid JSON: expected value at line 1"
    );
    match ProviderFactory::create_provider("file") {
        Err(e) => assert_eq!(
            e.message(),
            "Configuration error: Unknown provider: 'file'. Available providers: [\"overpass\", \"mock\"]"
        ),
        Ok(_) => panic!("expected an error"),
    }
}

#[test]
fn file_provider_decisions() {
    assert_eq!(FileProvider::new("data/berlin.osm").detect_format(), OsmDataFormat::Xml);
    assert_eq!(FileProvider::new("berlin.xml").detect_format(), OsmDataFormat::Xml);
    assert_eq!(FileProvider::new("/tmp/berlin.json").detect_format(), OsmDataFormat::Json);
    assert_eq!(FileProvider::new("berlin.XML").detect_format(), OsmDataFormat::Json);
    assert_eq!(FileProvider::new("berlin").detect_format(), OsmDataFormat::Json);
    assert_eq!(FileProvider::new(".xml").detect_format(), OsmDataFormat::Json);
    assert_eq!(FileProvider::new("a.xml/b").detect_format(), OsmDataFormat::Json);
    assert_eq!(FileProvider::new("..xml").detect_format(), OsmDataFormat::Xml);
    assert_eq!(FileProvider::new("dir/.osm").detect_format(), OsmDataFormat::Json);
    assert_eq!(FileProvider::new("dir/a.osm").detect_format(), OsmDataFormat::Xml);
    assert_eq!(FileProvider::new("xml").detect_format(), OsmDataFormat::Json);
    assert_eq!(FileProvider::new("").detect_format(), OsmDataFormat::Json);
    assert_eq!(FileProvider::new("map.osm.json").detect_format(), OsmDataFormat::Json);

    let way = |points: &[(Option<i32>, Option<i32>)]| RawElement {
        id: Some(1),
        kind: Some("way".to_string()),
        tags: Vec::new(),
        lat: Some(-9),
        lon: Some(99),
        geometry: Some(
            points
                .iter()
                .map(|(lat, lon)| RawPoint { lat: *lat, lon: *lon })
                .collect(),
        ),
    };
    let document = RawDocument {
        elements: Some(vec![
            way(&[(Some(5), Some(6)), (None, Some(-100)), (Some(1), Some(8))]),
            way(&[]),
            way(&[(Some(3), Some(2))]),
        ]),
    };
    assert_eq!(document.geometry_points(), vec![(5, 6), (1, 8), (3, 2)]);
    assert_eq!(
        FileProvider::extract_bbox(&document),
        Some(BoundingBox::new(1, 2, 5, 8))
    );
    assert_eq!(FileProvider::extract_bbox(&RawDocument { elements: None }), None);
    assert_eq!(
        FileProvider::extract_bbox(&RawDocument { elements: Some(vec![way(&[])]) }),
        None
    );

    let provider = FileProvider::new("map.json");
    assert_eq!(provider.provider_type(), "file");
    let unit = BoundingBox::new(0, 0, deg(1.0), deg(1.0));
    assert_eq!(provider.resolve_region(&Region::city("anywhere")), unit);
    assert_eq!(
        provider.resolve_region(&Region::bbox(1, 2, 3, 4)),
        BoundingBox::new(1, 2, 3, 4)
    );
    let data = provider.loaded("{\"k\": \"\u{e4}\"}".to_string(), Some(&document));
    assert_eq!(data.format, OsmDataFormat::Json);
    assert_eq!(data.bounding_box, BoundingBox::new(1, 2, 5, 8));
    assert_eq!(data.metadata.source, "map.json");
    assert_eq!(data.metadata.provider_type, "file");
    assert_eq!(data.metadata.extra.get("file_size"), Some(&"11".to_string()));
    assert_eq!(data.metadata.extra.get("format"), Some(&"Json".to_string()));
    assert_eq!(provider.loaded(String::new(), None).bounding_box, unit);

    let known = FileProvider::new("map.osm").with_bbox(BoundingBox::new(9, 9, 10, 10));
    assert_eq!(
        known.resolve_region(&Region::center_radius(0, 0, 5)),
        BoundingBox::new(9, 9, 10, 10)
    );
    let data = known.loaded("<osm/>".to_string(), Some(&document));
    assert_eq!(data.format, OsmDataFormat::Xml);
    assert_eq!(data.bounding_box, BoundingBox::new(9, 9, 10, 10));
    assert_eq!(data.metadata.extra.get("format"), Some(&"Xml".to_string()));
    assert!(matches!(
        known.read_error("denied"),
        OsmTilesError::Config(m) if m == "Failed to read file 'map.osm': denied"
    ));
    assert!(matches!(
        known.missing_error(),
        OsmTilesError::Config(m) if m == "File not found: map.osm"
    ));
    let capabilities = known.capabilities();
    assert_eq!(
        capabilities.supported_formats,
        vec![OsmDataFormat::Json, OsmDataFormat::Xml]
    );
    assert!(!capabilities.requires_network);
}

#[test]
fn test_parse_element_count() {
    // Valid JSON with elements
    let json_with_elements = r#"{"elements": [{"type": "node"}, {"type": "way"}]}"#;
    assert_eq!(
        OverpassProvider::parse_element_count(json_with_elements),
        Some(2)
    );

    // Empty elements array
    let json_empty = r#"{"elements": []}"#;
    assert_eq!(OverpassProvider::parse_element_count(json_empty), Some(0));

    // No elements field
    let json_no_elements = r#"{"version": 0.6}"#;
    assert_eq!(
        OverpassProvider::parse_element_count(json_no_elements),
        None
    );

    // Invalid JSON
    let invalid_json = "not json";
    assert_eq!(OverpassProvider::parse_element_count(invalid_json), None);
}

#[test]
fn element_count_decisions() {
    assert_eq!(
        OverpassProvider::parse_element_count(r#"{"elements": {"a": 1}}"#),
        None
    );
    assert_eq!(OverpassProvider::parse_element_count(r#"[1, 2, 3]"#), None);
    assert_eq!(
        OverpassProvider::parse_element_count(r#"{"other": [1], "elements": [1, [2, 3], {}]}"#),
        Some(3)
    );
    assert_eq!(
        OverpassProvider::parse_element_count(&MockProvider::default_test_data()),
        Some(4)
    );
    assert_eq!(bevy_osm_tiles::json::element_count(None), None);
    assert_eq!(bevy_osm_tiles::json::element_count(Some(7)), Some(7));
    assert_eq!(
        bevy_osm_tiles::json::element_count(Some(usize::MAX)),
        Some(u32::MAX)
    );
}

#[test]
fn test_provider_comparison() {
    // Test that both providers can handle the same configuration
    let config = OsmConfigBuilder::new()
        .city("test")
        .features(FeatureSet::urban())
        .build();

    // Mock provider should always work
    let mock_provider = ProviderFactory::mock();
    let mock_result = mock_provider.fetch_data(&config).unwrap();
    assert_eq!(mock_result.metadata.provider_type, "mock");
    assert!(!mock_result.raw_data.is_empty());

    // Both providers should resolve the same region type
    let region = Region::bbox(deg(52.0), deg(13.0), deg(53.0), deg(14.0));

    let mock_bbox = mock_provider.resolve_region(&region).unwrap();
    let overpass_provider = ProviderFactory::overpass();
    let overpass_bbox = match overpass_provider.begin(&region) {
        FetchStep::Measure { bbox } => bbox,
        other => panic!("expected a bounding box, got {:?}", other),
    };

    // Bounding boxes should be identical for bbox regions
    assert_eq!(mock_bbox.south, overpass_bbox.south);
    assert_eq!(mock_bbox.west, overpass_bbox.west);
    assert_eq!(mock_bbox.north, overpass_bbox.north);
    assert_eq!(mock_bbox.east, overpass_bbox.east);
}

#[test]
fn test_provider_metadata_consistency() {
    let provider = ProviderFactory::mock();
    let config = OsmConfigBuilder::new()
        .city("test")
        .features(FeatureSet::transportation())
        .build();

    let result = provider.fetch_data(&config).unwrap();
    let metadata = result.metadata;

    // Check required metadata fields
    assert!(!metadata.timestamp.is_empty());
    assert!(!metadata.source.is_empty());
    assert!(!metadata.provider_type.is_empty());

    // Check consistency
    assert_eq!(metadata.provider_type, provider.provider_type());

    // Timestamp should be recent (within last minute)
    let timestamp = chrono::DateTime::parse_from_rfc3339(&metadata.timestamp).unwrap();
    let now = chrono::Utc::now();
    let diff = now.signed_duration_since(timestamp.with_timezone(&chrono::Utc));
    assert!(diff.num_seconds() < 60);
}

#[test]
fn test_region_type_handling() {
    let provider = ProviderFactory::mock();

    let regions = vec![
        Region::bbox(deg(52.0), deg(13.0), deg(53.0), deg(14.0)),
        Region::center_radius(deg(52.5), deg(13.4), km(10.0)),
        Region::city("berlin"),
    ];

    for region in regions {
        let config = OsmConfigBuilder::new().region(region).build();

        let result = provider.fetch_data(&config).unwrap();
        assert!(!result.raw_data.is_empty());

        // Bounding box should be reasonable
        let bbox = result.bounding_box;
        assert!(bbox.north > bbox.south);
        assert!(bbox.east > bbox.west);
    }
}

#[test]
fn test_resolve_region_bounding_box() {
    let provider = OverpassProvider::new();
    let region = Region::bbox(deg(52.0), deg(13.0), deg(53.0), deg(14.0));

    let result = match provider.begin(&region) {
        FetchStep::Measure { bbox } => bbox,
        other => panic!("expected a bounding box, got {:?}", other),
    };
    assert_eq!(result.south, deg(52.0));
    assert_eq!(result.west, deg(13.0));
    assert_eq!(result.north, deg(53.0));
    assert_eq!(result.east, deg(14.0));
}

#[test]
fn fetch_step_by_step() {
    let provider = OverpassProvider::with_base_url("https://example.org/api").with_timeout_secs(25);
    let config = OsmConfigBuilder::new()
        .city("Berlin")
        .with_feature(OsmFeature::Railways)
        .build();

    // A city is looked up first.
    let name = match provider.begin(&config.region) {
        FetchStep::Geocode { name, url } => {
            assert!(url.starts_with("https://nominatim.openstreetmap.org/search?q=Berlin&"));
            name
        }
        other => panic!("expected a request to the geocoder, got {:?}", other),
    };
    let reply = GeocodeReply::Answered {
        status: 200,
        answer: GeocodeAnswer::Hits(vec![hit(&[
            Some("52.4"),
            Some("52.6"),
            Some("13.3"),
            Some("13.5"),
        ])]),
    };
    let bbox = match provider.after_geocode(&name, &reply) {
        FetchStep::Measure { bbox } => bbox,
        other => panic!("expected a box to measure, got {:?}", other),
    };
    assert_eq!(bbox, BoundingBox::new(deg(52.4), deg(13.3), deg(52.6), deg(13.5)));

    // The measured box is queried for.
    let (url, query) = match provider.after_measure(&config, bbox, 301_000_000) {
        FetchStep::Query { bbox: b, area_m2, url, query } => {
            assert_eq!(b, bbox);
            assert_eq!(area_m2, 301_000_000);
            (url, query)
        }
        other => panic!("expected a query, got {:?}", other),
    };
    assert_eq!(url, "https://example.org/api");
    assert_eq!(
        query,
        "[out:json][timeout:25];\n(\n  way[\"railway\"](52.4,13.3,52.6,13.5);\n);\nout geom;"
    );

    // The answer becomes the data.
    let body = r#"{"elements": [{"type": "node"}, {"type": "way"}]}"#.to_string();
    let reply = QueryReply::Answered { status: 200, body: body.clone() };
    match provider.after_query(bbox, 301_000_000, reply, 1234) {
        FetchStep::Finish(data) => {
            assert_eq!(data.raw_data, body);
            assert_eq!(data.format, OsmDataFormat::Json);
            assert_eq!(data.bounding_box, bbox);
            assert_eq!(data.metadata.source, "https://example.org/api");
            assert_eq!(data.metadata.provider_type, "overpass");
            assert_eq!(data.metadata.element_count, Some(2));
            assert_eq!(data.metadata.processing_time_ms, Some(1234));
            assert_eq!(data.metadata.extra.get("query_size"), Some(&"49".to_string()));
            assert_eq!(data.metadata.extra.get("area_km2"), Some(&"301.00".to_string()));
            assert_eq!(
                data.metadata.extra.get("bbox"),
                Some(&"52.4,13.3,52.6,13.5".to_string())
            );
        }
        other => panic!("expected the data, got {:?}", other),
    }
}

#[test]
fn fetch_failures() {
    let provider = OverpassProvider::new();
    let config = OsmConfigBuilder::new().build();
    let bbox = BoundingBox::new(1, 2, 3, 4);

    // The geocoder cannot be reached, answers with a failure, or finds
    // nothing.
    assert!(matches!(
        provider.after_geocode(
            "X",
            &GeocodeReply::Failed(HttpError::Timeout { seconds: 9 })
        ),
        FetchStep::Fail(OsmTilesError::Network(NetworkError::Timeout { seconds: 9 }))
    ));
    assert!(matches!(
        provider.after_geocode(
            "X",
            &GeocodeReply::Answered {
                status: 503,
                answer: GeocodeAnswer::Hits(Vec::new())
            }
        ),
        FetchStep::Fail(OsmTilesError::Network(NetworkError::HttpError { status: 503 }))
    ));
    assert!(matches!(
        provider.after_geocode(
            "X",
            &GeocodeReply::Answered {
                status: 200,
                answer: GeocodeAnswer::Hits(Vec::new())
            }
        ),
        FetchStep::Fail(OsmTilesError::Geographic(message)) if message == "Could not find city: X"
    ));
    assert!(matches!(
        OverpassProvider::geocoded(
            "X",
            &GeocodeReply::Answered {
                status: 200,
                answer: GeocodeAnswer::Invalid { reason: "eof".to_string() }
            }
        ),
        Err(OsmTilesError::Parse(message)) if message == "Failed to parse geocoding response: eof"
    ));

    // The box is too large.
    assert!(matches!(
        provider.after_measure(&config, bbox, 5_000_000_001),
        FetchStep::Fail(OsmTilesError::Config(_))
    ));
    assert!(matches!(
        provider.after_measure(&config, bbox, 5_000_000_000),
        FetchStep::Query { .. }
    ));

    // The API cannot be reached or answers with a failure.
    assert!(matches!(
        provider.after_query(
            bbox,
            1,
            QueryReply::Failed(HttpError::Network { message: "down".to_string() }),
            5
        ),
        FetchStep::Fail(OsmTilesError::Network(NetworkError::Connection { message }))
            if message == "down"
    ));
    assert!(matches!(
        provider.after_query(
            bbox,
            1,
            QueryReply::Answered { status: 429, body: "{}".to_string() },
            5
        ),
        FetchStep::Fail(OsmTilesError::Network(NetworkError::HttpError { status: 429 }))
    ));
    // A body without elements gives data without a count.
    match provider.after_query(
        bbox,
        1,
        QueryReply::Answered { status: 200, body: "no json".to_string() },
        5,
    ) {
        FetchStep::Finish(data) => assert_eq!(data.metadata.element_count, None),
        other => panic!("expected the data, got {:?}", other),
    }

    assert!(OverpassProvider::availability(&QueryReply::Answered {
        status: 200,
        body: String::new()
    })
    .is_ok());
    assert!(matches!(
        OverpassProvider::availability(&QueryReply::Answered {
            status: 500,
            body: String::new()
        }),
        Err(OsmTilesError::Network(NetworkError::HttpError { status: 500 }))
    ));
    assert!(matches!(
        OverpassProvider::availability(&QueryReply::Failed(HttpError::RequestFailed {
            message: "refused".to_string()
        })),
        Err(OsmTilesError::Network(NetworkError::Connection { message })) if message == "refused"
    ));
}

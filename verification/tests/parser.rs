use bevy_osm_tiles::{
    Decoded, OsmDataFormat, OsmElement, OsmElementType, OsmParser, OsmTilesError, RawDocument, RawElement,
    RawPoint, TagMap, TileType,
};

/// Degrees as coordinate units of 1e-7 degree.
fn deg(value: f64) -> i32 {
    (value * 1e7).round() as i32
}

fn tags_of(tags: &[(&str, &str)]) -> Vec<(String, Option<String>)> {
    tags.iter()
        .map(|(k, v)| (k.to_string(), Some(v.to_string())))
        .collect()
}

fn points_of(geometry: &[(f64, f64)]) -> Vec<RawPoint> {
    geometry
        .iter()
        .map(|(lat, lon)| RawPoint {
            lat: Some(deg(*lat)),
            lon: Some(deg(*lon)),
        })
        .collect()
}

/// A cafe, a street and a residential building.
fn create_test_document() -> Decoded {
    Decoded::Document(RawDocument {
        elements: Some(vec![
            RawElement {
                id: Some(1001),
                kind: Some("node".to_string()),
                tags: tags_of(&[("amenity", "cafe"), ("name", "Test Cafe")]),
                lat: Some(deg(52.5)),
                lon: Some(deg(13.4)),
                geometry: None,
            },
            RawElement {
                id: Some(2001),
                kind: Some("way".to_string()),
                tags: tags_of(&[("highway", "residential"), ("name", "Test Street")]),
                lat: None,
                lon: None,
                geometry: Some(points_of(&[(52.499, 13.399), (52.501, 13.401)])),
            },
            RawElement {
                id: Some(3001),
                kind: Some("way".to_string()),
                tags: tags_of(&[("building", "residential")]),
                lat: None,
                lon: None,
                geometry: Some(points_of(&[
                    (52.500, 13.400),
                    (52.500, 13.401),
                    (52.501, 13.401),
                    (52.501, 13.400),
                    (52.500, 13.400),
                ])),
            },
        ]),
    })
}

fn elements_of(decoded: &mut Decoded) -> &mut Vec<RawElement> {
    match decoded {
        Decoded::Document(document) => document.elements.as_mut().unwrap(),
        Decoded::Invalid { reason } => panic!("the data is invalid: {}", reason),
    }
}

fn blank(kind: &str) -> RawElement {
    RawElement {
        id: Some(1),
        kind: Some(kind.to_string()),
        tags: Vec::new(),
        lat: None,
        lon: None,
        geometry: None,
    }
}

fn parse_error(result: Result<Option<OsmElement>, OsmTilesError>) -> String {
    match result {
        Err(OsmTilesError::Parse(message)) => message,
        other => panic!("expected a parse error, got {:?}", other),
    }
}

#[test]
fn test_parse_json() {
    let parser = OsmParser;
    let document = create_test_document();

    let elements = parser.parse(OsmDataFormat::Json, &document).unwrap();
    assert_eq!(elements.len(), 3);

    // Check cafe (node)
    let cafe = &elements[0];
    assert_eq!(cafe.id, 1001);
    assert_eq!(cafe.element_type, OsmElementType::Node);
    assert_eq!(cafe.tags.get("amenity"), Some(&"cafe".to_string()));
    assert_eq!(cafe.geometry.len(), 1);
    assert_eq!(cafe.geometry[0], (deg(52.5), deg(13.4)));

    // Check street (way)
    let street = &elements[1];
    assert_eq!(street.id, 2001);
    assert_eq!(street.element_type, OsmElementType::Way);
    assert_eq!(street.tags.get("highway"), Some(&"residential".to_string()));
    assert_eq!(street.geometry.len(), 2);

    // Check building (way)
    let building = &elements[2];
    assert_eq!(building.id, 3001);
    assert_eq!(building.element_type, OsmElementType::Way);
    assert_eq!(
        building.tags.get("building"),
        Some(&"residential".to_string())
    );
    assert_eq!(building.geometry.len(), 5); // Closed polygon
}

#[test]
fn osm_parser_test_tile_type_mapping() {
    let mut element = OsmElement {
        id: 1,
        element_type: OsmElementType::Way,
        tags: TagMap::new(),
        geometry: vec![(deg(52.5), deg(13.4))],
    };

    // Test building
    element
        .tags
        .insert("building".to_string(), "yes".to_string());
    assert_eq!(element.to_tile_type(), TileType::Building);

    // Test residential building
    element
        .tags
        .insert("building".to_string(), "residential".to_string());
    assert_eq!(element.to_tile_type(), TileType::Residential);

    // Test road
    element.tags.clear();
    element
        .tags
        .insert("highway".to_string(), "residential".to_string());
    assert_eq!(element.to_tile_type(), TileType::Road);

    // Test water
    element.tags.clear();
    element
        .tags
        .insert("natural".to_string(), "water".to_string());
    assert_eq!(element.to_tile_type(), TileType::Water);

    // Test amenity
    element.tags.clear();
    element
        .tags
        .insert("amenity".to_string(), "cafe".to_string());
    assert_eq!(element.to_tile_type(), TileType::Amenity);
}

#[test]
fn test_element_center_point() {
    let element = OsmElement {
        id: 1,
        element_type: OsmElementType::Way,
        tags: TagMap::new(),
        geometry: vec![
            (deg(52.0), deg(13.0)),
            (deg(52.1), deg(13.1)),
            (deg(52.2), deg(13.2)),
        ],
    };

    let center = element.center_point().unwrap();
    assert!((center.0 - deg(52.1)).abs() < deg(0.001));
    assert!((center.1 - deg(13.1)).abs() < deg(0.001));
}

#[test]
fn test_element_bounding_box() {
    let element = OsmElement {
        id: 1,
        element_type: OsmElementType::Way,
        tags: TagMap::new(),
        geometry: vec![
            (deg(52.0), deg(13.0)),
            (deg(52.2), deg(13.2)),
            (deg(52.1), deg(13.1)),
        ],
    };

    let bbox = element.bounding_box().unwrap();
    assert_eq!(bbox, (deg(52.0), deg(13.0), deg(52.2), deg(13.2))); // (min_lat, min_lon, max_lat, max_lon)
}

fn classify(tags: &[(&str, &str)]) -> TileType {
    let mut map = TagMap::new();
    for (k, v) in tags {
        map.insert(k.to_string(), v.to_string());
    }
    OsmElement {
        id: 1,
        element_type: OsmElementType::Way,
        tags: map,
        geometry: Vec::new(),
    }
    .to_tile_type()
}

#[test]
fn classification_rules_in_order() {
    // Buildings, by their use.
    assert_eq!(classify(&[("building", "yes")]), TileType::Building);
    assert_eq!(classify(&[("building", "residential")]), TileType::Residential);
    assert_eq!(classify(&[("building", "commercial")]), TileType::Commercial);
    assert_eq!(classify(&[("building", "retail")]), TileType::Commercial);
    assert_eq!(classify(&[("building", "industrial")]), TileType::Industrial);
    // The rule for buildings comes before the rule for roads.
    assert_eq!(
        classify(&[("building", "yes"), ("highway", "residential")]),
        TileType::Building
    );
    assert_eq!(
        classify(&[("highway", "residential"), ("building", "yes")]),
        TileType::Building
    );
    assert_eq!(classify(&[("highway", "x"), ("waterway", "river")]), TileType::Road);
    // Water.
    assert_eq!(classify(&[("waterway", "river")]), TileType::Water);
    assert_eq!(classify(&[("natural", "water")]), TileType::Water);
    assert_eq!(
        classify(&[("natural", "water"), ("leisure", "park")]),
        TileType::Water
    );
    // Green space.
    assert_eq!(classify(&[("leisure", "park")]), TileType::GreenSpace);
    assert_eq!(classify(&[("leisure", "garden")]), TileType::GreenSpace);
    assert_eq!(classify(&[("landuse", "forest")]), TileType::GreenSpace);
    assert_eq!(classify(&[("natural", "wood")]), TileType::GreenSpace);
    assert_eq!(classify(&[("landuse", "grass")]), TileType::GreenSpace);
    assert_eq!(
        classify(&[("landuse", "grass"), ("railway", "rail")]),
        TileType::GreenSpace
    );
    // Railways, parking, amenities, tourism.
    assert_eq!(classify(&[("railway", "rail")]), TileType::Railway);
    assert_eq!(
        classify(&[("railway", "rail"), ("amenity", "parking")]),
        TileType::Railway
    );
    assert_eq!(classify(&[("amenity", "parking")]), TileType::Parking);
    assert_eq!(classify(&[("landuse", "parking")]), TileType::Parking);
    assert_eq!(classify(&[("amenity", "cafe")]), TileType::Amenity);
    assert_eq!(
        classify(&[("amenity", "cafe"), ("tourism", "hotel")]),
        TileType::Amenity
    );
    assert_eq!(classify(&[("tourism", "hotel")]), TileType::Tourism);
    assert_eq!(
        classify(&[("tourism", "hotel"), ("landuse", "residential")]),
        TileType::Tourism
    );
    // Land use, by its value.
    assert_eq!(classify(&[("landuse", "residential")]), TileType::Residential);
    assert_eq!(classify(&[("landuse", "commercial")]), TileType::Commercial);
    assert_eq!(classify(&[("landuse", "retail")]), TileType::Commercial);
    assert_eq!(classify(&[("landuse", "industrial")]), TileType::Industrial);
    assert_eq!(
        classify(&[("landuse", "meadow")]),
        TileType::Custom("landuse_meadow".to_string())
    );
    // Nothing that is known.
    assert_eq!(classify(&[]), TileType::Empty);
    assert_eq!(classify(&[("name", "x"), ("leisure", "pitch")]), TileType::Empty);
    assert_eq!(classify(&[("natural", "tree")]), TileType::Empty);
}

#[test]
fn classification_depends_on_the_tags_only() {
    let mut first = TagMap::new();
    first.insert("highway".to_string(), "primary".to_string());
    first.insert("building".to_string(), "retail".to_string());
    let mut second = TagMap::new();
    second.insert("building".to_string(), "x".to_string());
    second.insert("highway".to_string(), "primary".to_string());
    second.insert("building".to_string(), "retail".to_string());
    let a = OsmElement {
        id: 1,
        element_type: OsmElementType::Node,
        tags: first,
        geometry: vec![(0, 0)],
    };
    let b = OsmElement {
        id: 99,
        element_type: OsmElementType::Relation,
        tags: second,
        geometry: Vec::new(),
    };
    assert_eq!(a.to_tile_type(), b.to_tile_type());
    assert_eq!(a.to_tile_type(), a.clone().to_tile_type());
    assert_eq!(a.to_tile_type(), TileType::Commercial);
}

#[test]
fn element_metadata_and_extent() {
    let mut tags = TagMap::new();
    tags.insert("amenity".to_string(), "cafe".to_string());
    let element = OsmElement {
        id: 4001,
        element_type: OsmElementType::Node,
        tags,
        geometry: vec![(-5, 7), (-2, -3), (4, 1)],
    };
    let metadata = element.to_tile_metadata();
    assert_eq!(metadata.osm_ids, vec![4001]);
    assert_eq!(metadata.tags.get("amenity"), Some(&"cafe".to_string()));
    assert_eq!(metadata.tags.len(), 1);
    assert_eq!(metadata.confidence, 1000);
    assert_eq!(element.bounding_box(), Some((-5, -3, 4, 7)));
    // The mean of -5, -2 and 4 is -1; that of 7, -3 and 1 is 5 / 3, which
    // is rounded down.
    assert_eq!(element.center_point(), Some((-1, 1)));
    let down = OsmElement {
        id: 1,
        element_type: OsmElementType::Node,
        tags: TagMap::new(),
        geometry: vec![(-1, 0), (-2, 0)],
    };
    assert_eq!(down.center_point(), Some((-2, 0)));
    let nothing = OsmElement {
        id: 1,
        element_type: OsmElementType::Node,
        tags: TagMap::new(),
        geometry: Vec::new(),
    };
    assert_eq!(nothing.center_point(), None);
    assert_eq!(nothing.bounding_box(), None);
}

#[test]
fn parse_element_decisions() {
    let parser = OsmParser;

    let mut no_id = blank("node");
    no_id.id = None;
    no_id.kind = None;
    assert_eq!(parse_error(parser.parse_element(&no_id)), "Element missing 'id'");

    let mut no_type = blank("node");
    no_type.kind = None;
    assert_eq!(
        parse_error(parser.parse_element(&no_type)),
        "Element missing 'type'"
    );

    // An unknown type is skipped, whatever else is wrong.
    assert!(parser.parse_element(&blank("area")).unwrap().is_none());

    // A node needs both coordinates.
    assert_eq!(
        parse_error(parser.parse_element(&blank("node"))),
        "Node missing 'lat'"
    );
    let mut no_lon = blank("node");
    no_lon.lat = Some(1);
    assert_eq!(parse_error(parser.parse_element(&no_lon)), "Node missing 'lon'");
    no_lon.lon = Some(2);
    let node = parser.parse_element(&no_lon).unwrap().unwrap();
    assert_eq!(node.geometry, vec![(1, 2)]);
    assert_eq!(node.element_type, OsmElementType::Node);
    assert!(node.tags.is_empty());

    // A way without geometry takes its own coordinates, if it has both.
    let mut way = blank("way");
    way.lat = Some(3);
    assert!(parser.parse_element(&way).unwrap().is_none());
    way.lon = Some(4);
    assert_eq!(
        parser.parse_element(&way).unwrap().unwrap().geometry,
        vec![(3, 4)]
    );
    // Its geometry array wins over them.
    way.geometry = Some(vec![
        RawPoint { lat: Some(5), lon: Some(6) },
        RawPoint { lat: Some(7), lon: Some(8) },
    ]);
    let parsed = parser.parse_element(&way).unwrap().unwrap();
    assert_eq!(parsed.geometry, vec![(5, 6), (7, 8)]);
    assert_eq!(parsed.element_type, OsmElementType::Way);

    // The first point with something missing decides the error.
    way.geometry = Some(vec![
        RawPoint { lat: Some(5), lon: Some(6) },
        RawPoint { lat: Some(5), lon: None },
        RawPoint { lat: None, lon: None },
    ]);
    assert_eq!(
        parse_error(parser.parse_element(&way)),
        "Geometry point missing 'lon'"
    );
    way.geometry = Some(vec![RawPoint { lat: None, lon: None }]);
    assert_eq!(
        parse_error(parser.parse_element(&way)),
        "Geometry point missing 'lat'"
    );

    // Neither geometry nor tags: skipped. Tags alone are enough.
    let mut relation = blank("relation");
    relation.geometry = Some(Vec::new());
    assert!(parser.parse_element(&relation).unwrap().is_none());
    relation.tags = vec![
        ("type".to_string(), Some("multipolygon".to_string())),
        ("layer".to_string(), None),
        ("type".to_string(), Some("boundary".to_string())),
    ];
    let parsed = parser.parse_element(&relation).unwrap().unwrap();
    assert_eq!(parsed.element_type, OsmElementType::Relation);
    assert!(parsed.geometry.is_empty());
    // A tag whose value is no text is left out; a later entry replaces an
    // earlier one.
    assert_eq!(parsed.tags.len(), 1);
    assert_eq!(parsed.tags.get("type"), Some(&"boundary".to_string()));
    assert!(!parsed.tags.contains_key("layer"));
    // Tags that are all left out count as none.
    relation.tags = vec![("layer".to_string(), None)];
    assert!(parser.parse_element(&relation).unwrap().is_none());
}

#[test]
fn parse_document_decisions() {
    let parser = OsmParser;
    let mut document = create_test_document();
    match parser.parse(OsmDataFormat::Xml, &document) {
        Err(OsmTilesError::Parse(message)) => {
            assert_eq!(message, "XML parsing not yet implemented - use JSON format")
        }
        other => panic!("expected a parse error, got {:?}", other),
    }
    // Elements that stand for nothing are left out.
    elements_of(&mut document).insert(1, blank("area"));
    let elements = parser.parse(OsmDataFormat::Json, &document).unwrap();
    assert_eq!(
        elements.iter().map(|e| e.id).collect::<Vec<i64>>(),
        vec![1001, 2001, 3001]
    );
    // The first element that is invalid makes the document invalid.
    let mut bad = blank("node");
    bad.id = None;
    elements_of(&mut document).insert(2, bad);
    elements_of(&mut document).push(blank("node"));
    match parser.parse(OsmDataFormat::Json, &document) {
        Err(OsmTilesError::Parse(message)) => assert_eq!(message, "Element missing 'id'"),
        other => panic!("expected a parse error, got {:?}", other),
    }
    match parser.parse(
        OsmDataFormat::Json,
        &Decoded::Invalid { reason: "EOF while parsing".to_string() },
    ) {
        Err(OsmTilesError::Parse(message)) => {
            assert_eq!(message, "Invalid JSON: EOF while parsing")
        }
        other => panic!("expected a parse error, got {:?}", other),
    }
    match parser.parse(
        OsmDataFormat::Json,
        &Decoded::Document(RawDocument { elements: None }),
    ) {
        Err(OsmTilesError::Parse(message)) => {
            assert_eq!(message, "No 'elements' array found in JSON")
        }
        other => panic!("expected a parse error, got {:?}", other),
    }
    assert!(parser
        .parse(
            OsmDataFormat::Json,
            &Decoded::Document(RawDocument { elements: Some(Vec::new()) }),
        )
        .unwrap()
        .is_empty());
}

#[test]
fn tag_map_behaves_like_a_map() {
    let mut tags = TagMap::new();
    assert!(tags.is_empty());
    assert_eq!(tags.insert("a".to_string(), "1".to_string()), None);
    assert_eq!(tags.insert("b".to_string(), "2".to_string()), None);
    assert_eq!(
        tags.insert("a".to_string(), "3".to_string()),
        Some("1".to_string())
    );
    assert_eq!(tags.len(), 2);
    assert_eq!(tags.get("a"), Some(&"3".to_string()));
    assert_eq!(tags.get("b"), Some(&"2".to_string()));
    assert_eq!(tags.get("c"), None);
    assert!(tags.contains_key("b"));
    assert!(!tags.contains_key(""));
    assert!(tags.has("a", "3"));
    assert!(!tags.has("a", "1"));
    assert!(!tags.has("c", "3"));
    assert_eq!(tags.key_at(0), "a");
    assert_eq!(tags.value_at(1), "2");
    let copy = tags.clone();
    tags.clear();
    assert!(tags.is_empty());
    assert_eq!(tags.len(), 0);
    assert_eq!(copy.len(), 2);
    assert_eq!(copy.get("a"), Some(&"3".to_string()));
}

//! Turning decoded map data into elements.
//!
//! Decoding the text of the data is not done here. What comes in is the
//! decoded document, field by field as the text gave it, and every
//! decision about it is taken here: which elements count, which are
//! skipped, and which make the whole document invalid.

use vstd::prelude::*;
use crate::data::OsmDataFormat;
use crate::element::{ElementView, OsmElement, OsmElementType};
use crate::error::OsmTilesError;
use crate::tags::TagMap;
use crate::text::str_eq;

verus! {

/// A point of a decoded geometry. A coordinate is `None` where the data
/// lacks it or gives something other than a number.
#[derive(Debug)]
pub struct RawPoint {
    pub lat: Option<i32>,
    pub lon: Option<i32>,
}

/// A decoded element. A field is `None` where the data lacks it or gives
/// a value of another type than the field's.
#[derive(Debug)]
pub struct RawElement {
    /// The `id` field, if it is an integer.
    pub id: Option<i64>,
    /// The `type` field, if it is a string.
    pub kind: Option<String>,
    /// The entries of the `tags` object in the order of the data, each
    /// with its value if that is a string; empty without such an object.
    pub tags: Vec<(String, Option<String>)>,
    /// The `lat` field, if it is a number.
    pub lat: Option<i32>,
    /// The `lon` field, if it is a number.
    pub lon: Option<i32>,
    /// The `geometry` field, if it is an array.
    pub geometry: Option<Vec<RawPoint>>,
}

/// A decoded document.
#[derive(Debug)]
pub struct RawDocument {
    /// The `elements` field, if it is an array.
    pub elements: Option<Vec<RawElement>>,
}

/// What decoding the text of map data gave: the document, or, for a text
/// that is no JSON, the words of the decoder on what is wrong with it.
#[derive(Debug)]
pub enum Decoded {
    Document(RawDocument),
    Invalid { reason: String },
}

/// The points of a decoded geometry that have both coordinates.
pub open spec fn complete_points(points: Seq<RawPoint>) -> Seq<(i32, i32)>
    decreases points.len(),
{
    if points.len() == 0 {
        Seq::empty()
    } else {
        let rest = complete_points(points.drop_last());
        if points.last().lat is Some && points.last().lon is Some {
            rest.push((points.last().lat->0, points.last().lon->0))
        } else {
            rest
        }
    }
}

/// The points with both coordinates of the geometry arrays of all
/// elements, element after element.
pub open spec fn document_points(elements: Seq<RawElement>) -> Seq<(i32, i32)>
    decreases elements.len(),
{
    if elements.len() == 0 {
        Seq::empty()
    } else {
        document_points(elements.drop_last()) + match elements.last().geometry {
            Some(points) => complete_points(points@),
            None => Seq::empty(),
        }
    }
}

impl RawDocument {
    /// The points with both coordinates of the geometry arrays of all
    /// elements; none without an array of elements.
    pub fn geometry_points(&self) -> (r: Vec<(i32, i32)>)
        ensures
            r@ == match self.elements {
                Some(elements) => document_points(elements@),
                None => Seq::empty(),
            },
    {
        let mut all: Vec<(i32, i32)> = Vec::new();
        let elements = match &self.elements {
            Some(elements) => elements,
            None => {
                return all;
            },
        };
        let mut i: usize = 0;
        assert(elements@.take(0).len() == 0);
        while i < elements.len()
            invariant
                i <= elements@.len(),
                all@ == document_points(elements@.take(i as int)),
            decreases elements@.len() - i,
        {
            proof {
                let next = elements@.take(i + 1);
                assert(next.drop_last() =~= elements@.take(i as int));
                assert(next.last() == elements@[i as int]);
            }
            let ghost before = all@;
            match &elements[i].geometry {
                Some(points) => {
                    let mut k: usize = 0;
                    assert(points@.take(0).len() == 0);
                    assert(all@ =~= before + complete_points(points@.take(0)));
                    while k < points.len()
                        invariant
                            k <= points@.len(),
                            all@ == before + complete_points(points@.take(k as int)),
                        decreases points@.len() - k,
                    {
                        proof {
                            let next = points@.take(k + 1);
                            assert(next.drop_last() =~= points@.take(k as int));
                            assert(next.last() == points@[k as int]);
                        }
                        match (points[k].lat, points[k].lon) {
                            (Some(lat), Some(lon)) => {
                                all.push((lat, lon));
                            },
                            _ => {},
                        }
                        assert(all@ =~= before + complete_points(points@.take(k + 1)));
                        k += 1;
                    }
                    assert(points@.take(points@.len() as int) =~= points@);
                },
                None => {
                    assert(all@ =~= before + Seq::<(i32, i32)>::empty());
                },
            }
            i += 1;
        }
        assert(elements@.take(elements@.len() as int) =~= elements@);
        all
    }
}

/// The parser for decoded map data.
#[derive(Debug, Clone, Copy)]
pub struct OsmParser;

/// The element kind that a `type` field names.
pub open spec fn element_kind(name: Seq<char>) -> Option<OsmElementType> {
    if name == "node"@ {
        Some(OsmElementType::Node)
    } else if name == "way"@ {
        Some(OsmElementType::Way)
    } else if name == "relation"@ {
        Some(OsmElementType::Relation)
    } else {
        None
    }
}

/// The tags of decoded entries: those whose value is a string, a later
/// entry for a key replacing an earlier one.
pub open spec fn raw_tags(entries: Seq<(String, Option<String>)>) -> Map<Seq<char>, Seq<char>>
    decreases entries.len(),
{
    if entries.len() == 0 {
        Map::empty()
    } else {
        let rest = raw_tags(entries.drop_last());
        match entries.last().1 {
            Some(value) => rest.insert(entries.last().0@, value@),
            None => rest,
        }
    }
}

/// What is wrong with a decoded point, if anything: the latitude is
/// looked at first.
pub open spec fn point_failure(point: RawPoint) -> Option<Seq<char>> {
    if point.lat is None {
        Some("Geometry point missing 'lat'"@)
    } else if point.lon is None {
        Some("Geometry point missing 'lon'"@)
    } else {
        None
    }
}

/// What is wrong with the first decoded point that has something wrong.
pub open spec fn points_failure(points: Seq<RawPoint>) -> Option<Seq<char>>
    decreases points.len(),
{
    if points.len() == 0 {
        None
    } else {
        match points_failure(points.drop_last()) {
            Some(message) => Some(message),
            None => point_failure(points.last()),
        }
    }
}

/// The points of a decoded geometry in which nothing is wrong.
pub open spec fn points_of(points: Seq<RawPoint>) -> Seq<(i32, i32)> {
    Seq::new(points.len(), |i: int| (points[i].lat->0, points[i].lon->0))
}

/// The geometry of a decoded element of the given kind, or the text of
/// what is wrong with it. A node needs both coordinates. A way or a
/// relation takes its geometry array; without one it takes its own
/// coordinates if it has both, and else has no geometry.
pub open spec fn raw_geometry(raw: RawElement, kind: OsmElementType) -> Result<
    Seq<(i32, i32)>,
    Seq<char>,
> {
    if kind == OsmElementType::Node {
        if raw.lat is None {
            Err("Node missing 'lat'"@)
        } else if raw.lon is None {
            Err("Node missing 'lon'"@)
        } else {
            Ok(seq![(raw.lat->0, raw.lon->0)])
        }
    } else {
        match raw.geometry {
            Some(points) => match points_failure(points@) {
                Some(message) => Err(message),
                None => Ok(points_of(points@)),
            },
            None => if raw.lat is Some && raw.lon is Some {
                Ok(seq![(raw.lat->0, raw.lon->0)])
            } else {
                Ok(Seq::empty())
            },
        }
    }
}

/// What a decoded element stands for: an element, nothing (`Ok(None)`:
/// the kind is unknown, or there is neither geometry nor a tag), or the
/// text of what is wrong with it. The identifier is looked at first, then
/// the kind, then the geometry.
pub open spec fn parse_element_spec(raw: RawElement) -> Result<Option<ElementView>, Seq<char>> {
    if raw.id is None {
        Err("Element missing 'id'"@)
    } else if raw.kind is None {
        Err("Element missing 'type'"@)
    } else {
        match element_kind(raw.kind->0@) {
            None => Ok(None),
            Some(kind) => match raw_geometry(raw, kind) {
                Err(message) => Err(message),
                Ok(geometry) => if geometry.len() == 0 && raw_tags(raw.tags@) == Map::<
                    Seq<char>,
                    Seq<char>,
                >::empty() {
                    Ok(None)
                } else {
                    Ok(
                        Some(
                            ElementView {
                                id: raw.id->0,
                                element_type: kind,
                                tags: raw_tags(raw.tags@),
                                geometry,
                            },
                        ),
                    )
                },
            },
        }
    }
}

/// What a list of decoded elements stands for: the elements in order,
/// without those that stand for nothing, or the text of what is wrong
/// with the first element that has something wrong.
pub open spec fn parse_all(elements: Seq<RawElement>) -> Result<Seq<ElementView>, Seq<char>>
    decreases elements.len(),
{
    if elements.len() == 0 {
        Ok(Seq::empty())
    } else {
        match parse_all(elements.drop_last()) {
            Err(message) => Err(message),
            Ok(parsed) => match parse_element_spec(elements.last()) {
                Err(message) => Err(message),
                Ok(None) => Ok(parsed),
                Ok(Some(element)) => Ok(parsed.push(element)),
            },
        }
    }
}

/// What decoded data in the given format stands for: its elements, or
/// the text of what is wrong. XML is not read, whatever the data; a text
/// that is no JSON is invalid, and so is a document without an array of
/// elements.
pub open spec fn parse_spec(format: OsmDataFormat, decoded: Decoded) -> Result<
    Seq<ElementView>,
    Seq<char>,
> {
    match format {
        OsmDataFormat::Xml => Err("XML parsing not yet implemented - use JSON format"@),
        OsmDataFormat::Json => match decoded {
            Decoded::Invalid { reason } => Err("Invalid JSON: "@ + reason@),
            Decoded::Document(document) => match document.elements {
                None => Err("No 'elements' array found in JSON"@),
                Some(elements) => parse_all(elements@),
            },
        },
    }
}

/// The models of a list of elements.
pub open spec fn element_views(elements: Seq<OsmElement>) -> Seq<ElementView> {
    elements.map_values(|e: OsmElement| e@)
}

/// Whether a result of parsing is the one that the model asks for: the
/// same value on success, and on failure a parse error with the same
/// text.
pub open spec fn parsed_as<T, V>(
    result: Result<T, OsmTilesError>,
    value: spec_fn(T) -> V,
    expected: Result<V, Seq<char>>,
) -> bool {
    match result {
        Ok(v) => expected == Ok::<V, Seq<char>>(value(v)),
        Err(e) => e@ is Parse && expected == Err::<V, Seq<char>>(e@->Parse_0),
    }
}

impl OsmParser {
    /// The element kind that a `type` field names.
    fn kind_of(name: &str) -> (r: Option<OsmElementType>)
        ensures
            r == element_kind(name@),
    {
        if str_eq(name, "node") {
            Some(OsmElementType::Node)
        } else if str_eq(name, "way") {
            Some(OsmElementType::Way)
        } else if str_eq(name, "relation") {
            Some(OsmElementType::Relation)
        } else {
            None
        }
    }

    /// Collects the tags of decoded entries.
    fn collect_tags(entries: &Vec<(String, Option<String>)>) -> (r: TagMap)
        ensures
            r@ == raw_tags(entries@),
    {
        let mut tags = TagMap::new();
        let mut i: usize = 0;
        while i < entries.len()
            invariant
                i <= entries@.len(),
                tags@ == raw_tags(entries@.take(i as int)),
            decreases entries@.len() - i,
        {
            proof {
                let next = entries@.take(i + 1);
                assert(next.drop_last() =~= entries@.take(i as int));
                assert(next.last() == entries@[i as int]);
            }
            match &entries[i].1 {
                Some(value) => {
                    tags.insert(entries[i].0.clone(), value.clone());
                },
                None => {},
            }
            i += 1;
        }
        assert(entries@.take(entries@.len() as int) =~= entries@);
        tags
    }

    /// Collects the points of a decoded geometry.
    fn collect_points(points: &Vec<RawPoint>) -> (r: Result<Vec<(i32, i32)>, OsmTilesError>)
        ensures
            match r {
                Ok(v) => points_failure(points@) is None && v@ == points_of(points@),
                Err(e) => e@ is Parse && points_failure(points@) == Some(e@->Parse_0),
            },
    {
        let mut coords: Vec<(i32, i32)> = Vec::new();
        let mut i: usize = 0;
        while i < points.len()
            invariant
                i <= points@.len(),
                points_failure(points@.take(i as int)) is None,
                coords@ == points_of(points@.take(i as int)),
            decreases points@.len() - i,
        {
            proof {
                let next = points@.take(i + 1);
                assert(next.drop_last() =~= points@.take(i as int));
                assert(next.last() == points@[i as int]);
                if points_failure(next) is Some {
                    lemma_failure_stays(points@, i + 1);
                }
            }
            let lat = match points[i].lat {
                Some(lat) => lat,
                None => {
                    return Err(OsmTilesError::parse("Geometry point missing 'lat'"));
                },
            };
            let lon = match points[i].lon {
                Some(lon) => lon,
                None => {
                    return Err(OsmTilesError::parse("Geometry point missing 'lon'"));
                },
            };
            coords.push((lat, lon));
            assert(coords@ =~= points_of(points@.take(i + 1)));
            i += 1;
        }
        assert(points@.take(points@.len() as int) =~= points@);
        Ok(coords)
    }

    /// Turns one decoded element into an element, into nothing, or into
    /// the error that makes the document invalid.
    pub fn parse_element(&self, raw: &RawElement) -> (r: Result<Option<OsmElement>, OsmTilesError>)
        ensures
            parsed_as(
                r,
                |o: Option<OsmElement>|
                    match o {
                        Some(e) => Some(e@),
                        None => None,
                    },
                parse_element_spec(*raw),
            ),
    {
        let id = match raw.id {
            Some(id) => id,
            None => {
                return Err(OsmTilesError::parse("Element missing 'id'"));
            },
        };
        let kind_name = match &raw.kind {
            Some(name) => name,
            None => {
                return Err(OsmTilesError::parse("Element missing 'type'"));
            },
        };
        let element_type = match Self::kind_of(kind_name.as_str()) {
            Some(kind) => kind,
            None => {
                return Ok(None);
            },
        };
        let tags = Self::collect_tags(&raw.tags);
        let geometry: Vec<(i32, i32)> = match element_type {
            OsmElementType::Node => {
                let lat = match raw.lat {
                    Some(lat) => lat,
                    None => {
                        return Err(OsmTilesError::parse("Node missing 'lat'"));
                    },
                };
                let lon = match raw.lon {
                    Some(lon) => lon,
                    None => {
                        return Err(OsmTilesError::parse("Node missing 'lon'"));
                    },
                };
                let mut points: Vec<(i32, i32)> = Vec::new();
                points.push((lat, lon));
                assert(points@ =~= seq![(lat, lon)]);
                points
            },
            OsmElementType::Way | OsmElementType::Relation => {
                match &raw.geometry {
                    Some(points) => {
                        match Self::collect_points(points) {
                            Ok(coords) => coords,
                            Err(e) => {
                                return Err(e);
                            },
                        }
                    },
                    None => {
                        let mut points: Vec<(i32, i32)> = Vec::new();
                        match (raw.lat, raw.lon) {
                            (Some(lat), Some(lon)) => {
                                points.push((lat, lon));
                                assert(points@ =~= seq![(lat, lon)]);
                            },
                            _ => {
                                assert(points@ =~= Seq::<(i32, i32)>::empty());
                            },
                        }
                        points
                    },
                }
            },
        };
        if geometry.len() == 0 && tags.is_empty() {
            return Ok(None);
        }
        Ok(Some(OsmElement { id, element_type, tags, geometry }))
    }

    /// Turns decoded data into its elements. XML is not read; a text that
    /// is no JSON is invalid, and so is a document without an array of
    /// elements; the first element that is invalid makes the document
    /// invalid.
    pub fn parse(&self, format: OsmDataFormat, decoded: &Decoded) -> (r: Result<
        Vec<OsmElement>,
        OsmTilesError,
    >)
        ensures
            parsed_as(r, |v: Vec<OsmElement>| element_views(v@), parse_spec(format, *decoded)),
    {
        match format {
            OsmDataFormat::Xml => {
                return Err(
                    OsmTilesError::parse("XML parsing not yet implemented - use JSON format"),
                );
            },
            OsmDataFormat::Json => {},
        }
        let document = match decoded {
            Decoded::Document(document) => document,
            Decoded::Invalid { reason } => {
                return Err(OsmTilesError::invalid_json(reason.as_str()));
            },
        };
        let raw_elements = match &document.elements {
            Some(elements) => elements,
            None => {
                return Err(OsmTilesError::parse("No 'elements' array found in JSON"));
            },
        };
        let mut elements: Vec<OsmElement> = Vec::new();
        let mut i: usize = 0;
        assert(element_views(elements@) =~= Seq::<ElementView>::empty());
        while i < raw_elements.len()
            invariant
                i <= raw_elements@.len(),
                format == OsmDataFormat::Json,
                *decoded == Decoded::Document(*document),
                document.elements == Some(*raw_elements),
                parse_all(raw_elements@.take(i as int)) == Ok::<Seq<ElementView>, Seq<char>>(
                    element_views(elements@),
                ),
            decreases raw_elements@.len() - i,
        {
            proof {
                let next = raw_elements@.take(i + 1);
                assert(next.drop_last() =~= raw_elements@.take(i as int));
                assert(next.last() == raw_elements@[i as int]);
                if parse_all(next) is Err {
                    lemma_parse_failure_stays(raw_elements@, i + 1);
                }
            }
            let ghost before = elements@;
            match self.parse_element(&raw_elements[i]) {
                Ok(Some(element)) => {
                    elements.push(element);
                    assert(element_views(elements@) =~= element_views(before).push(element@));
                },
                Ok(None) => {},
                Err(e) => {
                    return Err(e);
                },
            }
            i += 1;
        }
        assert(raw_elements@.take(raw_elements@.len() as int) =~= raw_elements@);
        Ok(elements)
    }
}

/// Once something is wrong among the first `upto` points, the same thing
/// is wrong with the whole geometry.
pub proof fn lemma_failure_stays(points: Seq<RawPoint>, upto: int)
    requires
        0 <= upto <= points.len(),
        points_failure(points.take(upto)) is Some,
    ensures
        points_failure(points) == points_failure(points.take(upto)),
    decreases points.len() - upto,
{
    if upto < points.len() {
        let next = points.take(upto + 1);
        assert(next.drop_last() =~= points.take(upto));
        lemma_failure_stays(points, upto + 1);
    } else {
        assert(points.take(upto) =~= points);
    }
}

/// Once an element among the first `upto` is invalid, the document is
/// invalid for the same reason.
pub proof fn lemma_parse_failure_stays(elements: Seq<RawElement>, upto: int)
    requires
        0 <= upto <= elements.len(),
        parse_all(elements.take(upto)) is Err,
    ensures
        parse_all(elements) == parse_all(elements.take(upto)),
    decreases elements.len() - upto,
{
    if upto < elements.len() {
        let next = elements.take(upto + 1);
        assert(next.drop_last() =~= elements.take(upto));
        lemma_parse_failure_stays(elements, upto + 1);
    } else {
        assert(elements.take(upto) =~= elements);
    }
}

} // verus!

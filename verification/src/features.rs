//! The features that can be asked of the map, and the tag queries that
//! select them.

use vstd::prelude::*;
use vstd::std_specs::cmp::PartialEqSpecImpl;
use vstd::string::*;
use crate::order::{
    lemma_bytes_total, lemma_bytes_transitive, lemma_encoding_injective, str_position, text_before,
    Position,
};
use crate::text::str_eq;

verus! {

/// A kind of feature that a grid can show.
#[derive(Debug, Clone, Copy, PartialEq, Eq, Structural, Hash)]
pub enum OsmFeature {
    Roads,
    Highways,
    Footpaths,
    Railways,
    Buildings,
    Residential,
    Commercial,
    Industrial,
    Water,
    Rivers,
    Lakes,
    Forests,
    Parks,
    Grassland,
    Parking,
    Amenities,
    Tourism,
    PowerLines,
    Boundaries,
    Landuse,
}

/// A query for the elements that carry a tag: those with the key, or,
/// with a value, those whose key has that value.
#[derive(Debug, Eq, Hash)]
pub struct OsmTagQuery {
    pub key: String,
    pub value: Option<String>,
}

/// The mathematical model of an [`OsmTagQuery`].
pub struct QueryView {
    pub key: Seq<char>,
    pub value: Option<Seq<char>>,
}

impl View for OsmTagQuery {
    type V = QueryView;

    open spec fn view(&self) -> QueryView {
        QueryView {
            key: self.key@,
            value: match self.value {
                Some(v) => Some(v@),
                None => None,
            },
        }
    }
}

impl PartialEq for OsmTagQuery {
    fn eq(&self, other: &Self) -> (r: bool) {
        str_eq(self.key.as_str(), other.key.as_str()) && match (&self.value, &other.value) {
            (Some(a), Some(b)) => str_eq(a.as_str(), b.as_str()),
            (None, None) => true,
            _ => false,
        }
    }
}

impl PartialEqSpecImpl for OsmTagQuery {
    open spec fn obeys_eq_spec() -> bool {
        true
    }

    open spec fn eq_spec(&self, other: &Self) -> bool {
        self@ == other@
    }
}

impl Clone for OsmTagQuery {
    fn clone(&self) -> (r: Self)
        ensures
            r@ == self@,
    {
        OsmTagQuery {
            key: self.key.clone(),
            value: match &self.value {
                Some(v) => Some(v.clone()),
                None => None,
            },
        }
    }
}

/// The query for the elements whose `key` has the value `value`.
pub open spec fn tagged(key: &str, value: &str) -> QueryView {
    QueryView { key: key@, value: Some(value@) }
}

/// The query for the elements that have `key`.
pub open spec fn keyed(key: &str) -> QueryView {
    QueryView { key: key@, value: None }
}

/// The text of a value that may be absent.
pub open spec fn optional_text(value: Option<&str>) -> Option<Seq<char>> {
    match value {
        Some(v) => Some(v@),
        None => None,
    }
}

/// The models of a list of queries.
pub open spec fn query_views(list: Seq<OsmTagQuery>) -> Seq<QueryView> {
    list.map_values(|q: OsmTagQuery| q@)
}

/// The queries that select a feature.
pub open spec fn feature_queries(feature: OsmFeature) -> Seq<QueryView> {
    match feature {
        OsmFeature::Roads => seq![
            tagged("highway", "primary"),
            tagged("highway", "secondary"),
            tagged("highway", "tertiary"),
            tagged("highway", "residential"),
            tagged("highway", "unclassified"),
        ],
        OsmFeature::Highways => seq![
            tagged("highway", "motorway"),
            tagged("highway", "trunk"),
            tagged("highway", "primary"),
        ],
        OsmFeature::Footpaths => seq![
            tagged("highway", "footway"),
            tagged("highway", "path"),
            tagged("highway", "pedestrian"),
            tagged("highway", "steps"),
        ],
        OsmFeature::Railways => seq![keyed("railway")],
        OsmFeature::Buildings => seq![keyed("building")],
        OsmFeature::Residential => seq![
            tagged("building", "residential"),
            tagged("landuse", "residential"),
        ],
        OsmFeature::Commercial => seq![
            tagged("building", "commercial"),
            tagged("landuse", "commercial"),
            tagged("building", "retail"),
        ],
        OsmFeature::Industrial => seq![
            tagged("building", "industrial"),
            tagged("landuse", "industrial"),
        ],
        OsmFeature::Water => seq![tagged("natural", "water"), keyed("waterway")],
        OsmFeature::Rivers => seq![tagged("waterway", "river"), tagged("waterway", "stream")],
        OsmFeature::Lakes => seq![tagged("natural", "water"), tagged("water", "lake")],
        OsmFeature::Forests => seq![tagged("natural", "wood"), tagged("landuse", "forest")],
        OsmFeature::Parks => seq![tagged("leisure", "park"), tagged("leisure", "garden")],
        OsmFeature::Grassland => seq![tagged("landuse", "grass"), tagged("natural", "grassland")],
        OsmFeature::Parking => seq![tagged("amenity", "parking"), tagged("landuse", "parking")],
        OsmFeature::Amenities => seq![keyed("amenity")],
        OsmFeature::Tourism => seq![keyed("tourism")],
        OsmFeature::PowerLines => seq![tagged("power", "line"), tagged("power", "tower")],
        OsmFeature::Boundaries => seq![keyed("boundary")],
        OsmFeature::Landuse => seq![keyed("landuse")],
    }
}

/// What a feature is, in words.
pub open spec fn feature_description(feature: OsmFeature) -> Seq<char> {
    match feature {
        OsmFeature::Roads => "Local roads and streets"@,
        OsmFeature::Highways => "Major highways and motorways"@,
        OsmFeature::Footpaths => "Walking paths and pedestrian areas"@,
        OsmFeature::Railways => "Railway lines and stations"@,
        OsmFeature::Buildings => "All building structures"@,
        OsmFeature::Residential => "Residential buildings and areas"@,
        OsmFeature::Commercial => "Commercial buildings and retail areas"@,
        OsmFeature::Industrial => "Industrial buildings and zones"@,
        OsmFeature::Water => "All water features"@,
        OsmFeature::Rivers => "Rivers and streams"@,
        OsmFeature::Lakes => "Lakes and ponds"@,
        OsmFeature::Forests => "Forests and wooded areas"@,
        OsmFeature::Parks => "Parks and recreational areas"@,
        OsmFeature::Grassland => "Grass and meadow areas"@,
        OsmFeature::Parking => "Parking areas and lots"@,
        OsmFeature::Amenities => "Public amenities and services"@,
        OsmFeature::Tourism => "Tourist attractions and facilities"@,
        OsmFeature::PowerLines => "Power lines and electrical infrastructure"@,
        OsmFeature::Boundaries => "Administrative and other boundaries"@,
        OsmFeature::Landuse => "General land use classifications"@,
    }
}

/// Adds a query to the end of a list.
fn with_query(list: Vec<OsmTagQuery>, key: &str, value: Option<&str>) -> (r: Vec<OsmTagQuery>)
    ensures
        query_views(r@) == query_views(list@).push(
            QueryView { key: key@, value: optional_text(value) },
        ),
{
    let mut list = list;
    let ghost before = list@;
    list.push(OsmTagQuery::new(key, value));
    assert(query_views(list@) =~= query_views(before).push(
        QueryView { key: key@, value: optional_text(value) },
    ));
    list
}

impl OsmFeature {
    /// The queries that select this feature.
    pub fn to_osm_queries(&self) -> (r: Vec<OsmTagQuery>)
        ensures
            query_views(r@) == feature_queries(*self),
    {
        let list: Vec<OsmTagQuery> = Vec::new();
        assert(query_views(list@) =~= Seq::<QueryView>::empty());
        let r = match self {
            OsmFeature::Roads => {
                let list = with_query(list, "highway", Some("primary"));
                let list = with_query(list, "highway", Some("secondary"));
                let list = with_query(list, "highway", Some("tertiary"));
                let list = with_query(list, "highway", Some("residential"));
                with_query(list, "highway", Some("unclassified"))
            },
            OsmFeature::Highways => {
                let list = with_query(list, "highway", Some("motorway"));
                let list = with_query(list, "highway", Some("trunk"));
                with_query(list, "highway", Some("primary"))
            },
            OsmFeature::Footpaths => {
                let list = with_query(list, "highway", Some("footway"));
                let list = with_query(list, "highway", Some("path"));
                let list = with_query(list, "highway", Some("pedestrian"));
                with_query(list, "highway", Some("steps"))
            },
            OsmFeature::Railways => with_query(list, "railway", None),
            OsmFeature::Buildings => with_query(list, "building", None),
            OsmFeature::Residential => {
                let list = with_query(list, "building", Some("residential"));
                with_query(list, "landuse", Some("residential"))
            },
            OsmFeature::Commercial => {
                let list = with_query(list, "building", Some("commercial"));
                let list = with_query(list, "landuse", Some("commercial"));
                with_query(list, "building", Some("retail"))
            },
            OsmFeature::Industrial => {
                let list = with_query(list, "building", Some("industrial"));
                with_query(list, "landuse", Some("industrial"))
            },
            OsmFeature::Water => {
                let list = with_query(list, "natural", Some("water"));
                with_query(list, "waterway", None)
            },
            OsmFeature::Rivers => {
                let list = with_query(list, "waterway", Some("river"));
                with_query(list, "waterway", Some("stream"))
            },
            OsmFeature::Lakes => {
                let list = with_query(list, "natural", Some("water"));
                with_query(list, "water", Some("lake"))
            },
            OsmFeature::Forests => {
                let list = with_query(list, "natural", Some("wood"));
                with_query(list, "landuse", Some("forest"))
            },
            OsmFeature::Parks => {
                let list = with_query(list, "leisure", Some("park"));
                with_query(list, "leisure", Some("garden"))
            },
            OsmFeature::Grassland => {
                let list = with_query(list, "landuse", Some("grass"));
                with_query(list, "natural", Some("grassland"))
            },
            OsmFeature::Parking => {
                let list = with_query(list, "amenity", Some("parking"));
                with_query(list, "landuse", Some("parking"))
            },
            OsmFeature::Amenities => with_query(list, "amenity", None),
            OsmFeature::Tourism => with_query(list, "tourism", None),
            OsmFeature::PowerLines => {
                let list = with_query(list, "power", Some("line"));
                with_query(list, "power", Some("tower"))
            },
            OsmFeature::Boundaries => with_query(list, "boundary", None),
            OsmFeature::Landuse => with_query(list, "landuse", None),
        };
        assert(query_views(r@) =~= feature_queries(*self));
        r
    }

    /// What the feature is, in words.
    pub fn description(&self) -> (r: &'static str)
        ensures
            r@ == feature_description(*self),
    {
        match self {
            OsmFeature::Roads => "Local roads and streets",
            OsmFeature::Highways => "Major highways and motorways",
            OsmFeature::Footpaths => "Walking paths and pedestrian areas",
            OsmFeature::Railways => "Railway lines and stations",
            OsmFeature::Buildings => "All building structures",
            OsmFeature::Residential => "Residential buildings and areas",
            OsmFeature::Commercial => "Commercial buildings and retail areas",
            OsmFeature::Industrial => "Industrial buildings and zones",
            OsmFeature::Water => "All water features",
            OsmFeature::Rivers => "Rivers and streams",
            OsmFeature::Lakes => "Lakes and ponds",
            OsmFeature::Forests => "Forests and wooded areas",
            OsmFeature::Parks => "Parks and recreational areas",
            OsmFeature::Grassland => "Grass and meadow areas",
            OsmFeature::Parking => "Parking areas and lots",
            OsmFeature::Amenities => "Public amenities and services",
            OsmFeature::Tourism => "Tourist attractions and facilities",
            OsmFeature::PowerLines => "Power lines and electrical infrastructure",
            OsmFeature::Boundaries => "Administrative and other boundaries",
            OsmFeature::Landuse => "General land use classifications",
        }
    }
}

/// The filter that a query becomes in the query language of Overpass:
/// the key in quotes and brackets, followed by the value in the same
/// dress if there is one.
pub open spec fn overpass_filter(query: QueryView) -> Seq<char> {
    match query.value {
        Some(value) => "[\""@ + query.key + "\"][\""@ + value + "\"]"@,
        None => "[\""@ + query.key + "\"]"@,
    }
}

impl OsmTagQuery {
    /// The query for `key`, with or without a value.
    pub fn new(key: &str, value: Option<&str>) -> (r: Self)
        ensures
            r@ == (QueryView { key: key@, value: optional_text(value) }),
    {
        OsmTagQuery {
            key: key.to_owned(),
            value: match value {
                Some(v) => Some(v.to_owned()),
                None => None,
            },
        }
    }

    /// The filter for this query in the query language of Overpass.
    pub fn to_overpass_filter(&self) -> (r: String)
        ensures
            r@ == overpass_filter(self@),
    {
        let mut s = String::from_str("[\"");
        s.append(self.key.as_str());
        match &self.value {
            Some(value) => {
                s.append("\"][\"");
                s.append(value.as_str());
                s.append("\"]");
            },
            None => {
                s.append("\"]");
            },
        }
        s
    }
}

/// Whether the value `a` comes before the value `b`: no value comes
/// before every value, and values are ordered as texts.
pub open spec fn value_before(a: Option<Seq<char>>, b: Option<Seq<char>>) -> bool {
    match (a, b) {
        (None, Some(_)) => true,
        (Some(x), Some(y)) => text_before(x, y),
        _ => false,
    }
}

/// Whether the query `a` comes before the query `b`: by key, and among
/// equal keys by value.
pub open spec fn query_before(a: QueryView, b: QueryView) -> bool {
    text_before(a.key, b.key) || (a.key == b.key && value_before(a.value, b.value))
}

/// Whether each query of the list comes before all that follow it.
pub open spec fn strictly_sorted(list: Seq<QueryView>) -> bool {
    forall|i: int, j: int| 0 <= i < j < list.len() ==> query_before(list[i], list[j])
}

/// Of two different texts exactly one comes before the other.
pub proof fn lemma_text_total(a: Seq<char>, b: Seq<char>)
    ensures
        a != b ==> (text_before(a, b) != text_before(b, a)),
        a == b ==> !text_before(a, b),
{
    lemma_bytes_total(vstd::utf8::encode_utf8(a), vstd::utf8::encode_utf8(b));
    if a != b && vstd::utf8::encode_utf8(a) == vstd::utf8::encode_utf8(b) {
        lemma_encoding_injective(a, b);
    }
}

/// The order of queries is transitive.
pub proof fn lemma_query_transitive(a: QueryView, b: QueryView, c: QueryView)
    requires
        query_before(a, b),
        query_before(b, c),
    ensures
        query_before(a, c),
{
    let ka = vstd::utf8::encode_utf8(a.key);
    let kb = vstd::utf8::encode_utf8(b.key);
    let kc = vstd::utf8::encode_utf8(c.key);
    if text_before(a.key, b.key) && text_before(b.key, c.key) {
        lemma_bytes_transitive(ka, kb, kc);
    } else if a.key == b.key && b.key == c.key {
        match (a.value, b.value, c.value) {
            (Some(x), Some(y), Some(z)) => {
                lemma_bytes_transitive(
                    vstd::utf8::encode_utf8(x),
                    vstd::utf8::encode_utf8(y),
                    vstd::utf8::encode_utf8(z),
                );
            },
            _ => {},
        }
    }
}

/// A query does not come before itself, and of two queries not both come
/// before the other.
pub proof fn lemma_query_asymmetric(a: QueryView, b: QueryView)
    ensures
        !(query_before(a, b) && query_before(b, a)),
        !query_before(a, a),
{
    lemma_text_total(a.key, b.key);
    lemma_text_total(a.key, a.key);
    match (a.value, b.value) {
        (Some(x), Some(y)) => {
            lemma_text_total(x, y);
        },
        _ => {},
    }
    match a.value {
        Some(x) => {
            lemma_text_total(x, x);
        },
        None => {},
    }
}

/// How the query `a` stands to the query `b`.
pub fn query_position(a: &OsmTagQuery, b: &OsmTagQuery) -> (r: Position)
    ensures
        r == Position::Before <==> query_before(a@, b@),
        r == Position::Same <==> a@ == b@,
        r == Position::After <==> query_before(b@, a@),
{
    proof {
        lemma_query_asymmetric(a@, b@);
        lemma_text_total(a@.key, b@.key);
    }
    match str_position(a.key.as_str(), b.key.as_str()) {
        Position::Before => Position::Before,
        Position::After => Position::After,
        Position::Same => match (&a.value, &b.value) {
            (None, None) => Position::Same,
            (None, Some(_)) => Position::Before,
            (Some(_), None) => Position::After,
            (Some(x), Some(y)) => {
                proof {
                    lemma_text_total(x@, y@);
                }
                str_position(x.as_str(), y.as_str())
            },
        },
    }
}

/// Puts a query into a sorted list at its place, unless the list holds it
/// already.
pub fn insert_sorted(list: &mut Vec<OsmTagQuery>, query: OsmTagQuery)
    requires
        strictly_sorted(query_views(old(list)@)),
    ensures
        strictly_sorted(query_views(final(list)@)),
        forall|q: QueryView|
            query_views(final(list)@).contains(q) <==> (query_views(old(list)@).contains(q) || q
                == query@),
{
    let ghost before = query_views(list@);
    let mut p: usize = 0;
    while p < list.len() && query_position(&list[p], &query) == Position::Before
        invariant
            p <= list@.len(),
            list@ == old(list)@,
            before == query_views(list@),
            forall|j: int| 0 <= j < p ==> query_before(#[trigger] before[j], query@),
        decreases list@.len() - p,
    {
        assert(before[p as int] == list@[p as int]@);
        p += 1;
    }
    if p < list.len() {
        assert(before[p as int] == list@[p as int]@);
        if query_position(&list[p], &query) == Position::Same {
            assert forall|q: QueryView| before.contains(q) || q == query@ implies before.contains(
                q,
            ) by {
                if q == query@ {
                    assert(before[p as int] == q);
                }
            }
            return ;
        }
    }
    let ghost q0 = query@;
    list.insert(p, query);
    proof {
        let after = query_views(list@);
        assert(after =~= before.insert(p as int, q0));
        assert forall|i: int, j: int| 0 <= i < j < after.len() implies query_before(
            after[i],
            after[j],
        ) by {
            if j < p {
                assert(after[i] == before[i] && after[j] == before[j]);
            } else if j == p {
                assert(after[i] == before[i]);
            } else if i == p {
                assert(after[j] == before[j - 1]);
                assert(query_before(q0, before[p as int]));
                if j - 1 > p {
                    assert(query_before(before[p as int], before[j - 1]));
                    lemma_query_transitive(q0, before[p as int], before[j - 1]);
                }
            } else if i < p {
                assert(after[i] == before[i] && after[j] == before[j - 1]);
            } else {
                assert(after[i] == before[i - 1] && after[j] == before[j - 1]);
            }
        }
        assert forall|q: QueryView| after.contains(q) <==> (before.contains(q) || q == q0) by {
            if after.contains(q) {
                let k = choose|k: int| 0 <= k < after.len() && after[k] == q;
                if k < p {
                    assert(before[k] == q);
                } else if k > p {
                    assert(before[k - 1] == q);
                }
            }
            if before.contains(q) {
                let k = choose|k: int| 0 <= k < before.len() && before[k] == q;
                if k < p {
                    assert(after[k] == q);
                } else {
                    assert(after[k + 1] == q);
                }
            }
            if q == q0 {
                assert(after[p as int] == q);
            }
        }
    }
}

} // verus!

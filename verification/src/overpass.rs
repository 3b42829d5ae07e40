//! The provider that asks the Overpass API: what it asks, and what it
//! makes of the answers. Sending the requests is not done here.

use vstd::prelude::*;
use vstd::string::*;
use vstd::utf8::*;
use crate::config::OsmConfig;
use crate::data::{OsmDataFormat, OsmMetadata};
use crate::error::{ErrorView, NetworkError, NetworkErrorView, OsmTilesError};
use crate::feature_set::FeatureSetView;
use crate::features::{overpass_filter, query_views, strictly_sorted, OsmTagQuery, QueryView};
use crate::fixed::{
    fixed_decimal, fixed_to_string, padded_decimal, parse_coordinate, parse_coordinate_spec,
    write_padded,
};
use crate::json::{count_of_length, elements_length};
use crate::http::{percent_encode, percent_encoded, HttpConfig, HttpError, HttpErrorView};
use crate::mock::ProviderCapabilities;
use crate::region::BoundingBox;
use crate::text::{joined, decimal, str_eq, u64_to_string, usize_to_string};

verus! {

/// The address of the public Overpass API.
pub const DEFAULT_OVERPASS_URL: &'static str = "https://overpass-api.de/api/interpreter";

/// The query that tests whether the Overpass API answers.
pub const AVAILABILITY_QUERY: &'static str = "[out:json][timeout:5];\nnode(0,0,0.001,0.001);\nout;";

/// The largest area that is asked for, in square metres: 5000 square
/// kilometres.
pub const AREA_LIMIT_M2: u64 = 5_000_000_000;

/// The provider that asks the Overpass API.
#[derive(Debug)]
pub struct OverpassProvider {
    /// The address of the API.
    pub base_url: String,
    /// The configuration of the HTTP client.
    pub http_config: HttpConfig,
    /// The timeout in seconds that overrides the one of a configuration.
    pub custom_timeout: Option<u64>,
}

/// Whether relations are asked for along with the ways of a key.
pub open spec fn wants_relations(key: Seq<char>) -> bool {
    key == "building"@ || key == "natural"@ || key == "landuse"@ || key == "leisure"@ || key
        == "boundary"@ || key == "waterway"@
}

/// Whether nodes are asked for along with the ways of a key.
pub open spec fn wants_nodes(key: Seq<char>) -> bool {
    key == "amenity"@ || key == "tourism"@ || key == "power"@
}

/// A coordinate in decimal degrees.
pub open spec fn degrees_text(units: int) -> Seq<char> {
    fixed_decimal(units, 10_000_000, 7)
}

/// A bounding box as the four numbers that Overpass takes: south, west,
/// north and east, with commas between them.
pub open spec fn bbox_text(b: BoundingBox) -> Seq<char> {
    degrees_text(b.south as int) + ","@ + degrees_text(b.west as int) + ","@ + degrees_text(
        b.north as int,
    ) + ","@ + degrees_text(b.east as int)
}

/// The statement that asks for the elements of one kind that pass a
/// filter in a bounding box.
pub open spec fn statement(kind: Seq<char>, filter: Seq<char>, bbox: Seq<char>) -> Seq<char> {
    "  "@ + kind + filter + "("@ + bbox + ");\n"@
}

/// The statements that ask for the elements of one query in a bounding
/// box: the ways, and for some keys the relations or the nodes too.
pub open spec fn query_statements(query: QueryView, bbox: Seq<char>) -> Seq<char> {
    let filter = overpass_filter(query);
    statement("way"@, filter, bbox) + (if wants_relations(query.key) {
        statement("relation"@, filter, bbox)
    } else {
        Seq::empty()
    }) + (if wants_nodes(query.key) {
        statement("node"@, filter, bbox)
    } else {
        Seq::empty()
    })
}

/// The statements for a list of queries, one query after the other.
pub open spec fn all_statements(queries: Seq<QueryView>, bbox: Seq<char>) -> Seq<char>
    decreases queries.len(),
{
    if queries.len() == 0 {
        Seq::empty()
    } else {
        all_statements(queries.drop_last(), bbox) + query_statements(queries.last(), bbox)
    }
}

/// The text of the Overpass query for a list of tag queries in a bounding
/// box with a timeout in seconds.
pub open spec fn overpass_query(timeout: u64, queries: Seq<QueryView>, b: BoundingBox) -> Seq<
    char,
> {
    "[out:json][timeout:"@ + decimal(timeout as nat) + "];\n(\n"@ + all_statements(
        queries,
        bbox_text(b),
    ) + ");\nout geom;"@
}

/// Whether `queries` is the list of the queries that a feature set asks
/// for, each once and in order.
pub open spec fn is_query_list(features: FeatureSetView, queries: Seq<QueryView>) -> bool {
    strictly_sorted(queries) && forall|q: QueryView| queries.contains(q) <==> features.asks(q)
}

/// The address that the geocoder is asked at for a city.
pub open spec fn nominatim_address(name: Seq<char>) -> Seq<char> {
    "https://nominatim.openstreetmap.org/search?q="@ + percent_encoded(encode_utf8(name))
        + "&format=json&limit=1&addressdetails=1"@
}

/// A number of hundredths with two decimals.
pub open spec fn two_decimals(hundredths: nat) -> Seq<char> {
    decimal(hundredths / 100) + "."@ + padded_decimal(hundredths % 100, 2)
}

/// An area in square kilometres with two decimals, rounded down.
pub open spec fn area_text(area_m2: nat) -> Seq<char> {
    two_decimals(area_m2 / 10_000)
}

/// The text of the error for an area that is too large.
pub open spec fn area_message(area_m2: nat) -> Seq<char> {
    "Area too large: "@ + area_text(area_m2)
        + " km\u{b2}. Overpass API typically limits requests to ~1000 km\u{b2}"@
}

/// One place that the geocoder found.
#[derive(Debug)]
pub struct GeocodeHit {
    /// The `boundingbox` field, if it is an array, with each entry that is
    /// a string.
    pub boundingbox: Option<Vec<Option<String>>>,
}

/// What decoding the answer of the geocoder gave: the places it found,
/// or, for a text that is no JSON array, the words of the decoder on what
/// is wrong with it.
#[derive(Debug)]
pub enum GeocodeAnswer {
    Hits(Vec<GeocodeHit>),
    Invalid { reason: String },
}

/// The name of a coordinate of a geocoded bounding box, by its position.
pub open spec fn coordinate_name(index: int) -> Seq<char> {
    if index == 0 {
        "south latitude"@
    } else if index == 1 {
        "north latitude"@
    } else if index == 2 {
        "west longitude"@
    } else {
        "east longitude"@
    }
}

/// What is made of entry `index` of a geocoded bounding box: its
/// coordinate, or the error for an entry that is no text or no number.
pub open spec fn geocoded_coordinate(entries: Seq<Option<String>>, index: int) -> Result<
    int,
    ErrorView,
> {
    match entries[index] {
        None => Err(ErrorView::Parse("Invalid "@ + coordinate_name(index))),
        Some(text) => match parse_coordinate_spec(text@) {
            None => Err(ErrorView::Parse("Invalid "@ + coordinate_name(index) + " format"@)),
            Some(value) => Ok(value),
        },
    }
}

/// The bounding box that the answer of the geocoder gives for a city, or
/// the error for an answer that could not be decoded.
pub open spec fn geocoded_answer(name: Seq<char>, answer: GeocodeAnswer) -> Result<
    BoundingBox,
    ErrorView,
> {
    match answer {
        GeocodeAnswer::Invalid { reason } => Err(
            ErrorView::Parse("Failed to parse geocoding response: "@ + reason@),
        ),
        GeocodeAnswer::Hits(hits) => geocoded_box(name, hits@),
    }
}

/// The bounding box that the places found by the geocoder give for a
/// city, or the error: no place found, the first place without a bounding
/// box, a bounding box that has not four entries, or the first entry that
/// is not a coordinate. The entries are south, north, west and east.
pub open spec fn geocoded_box(name: Seq<char>, hits: Seq<GeocodeHit>) -> Result<
    BoundingBox,
    ErrorView,
> {
    if hits.len() == 0 {
        Err(ErrorView::Geographic("Could not find city: "@ + name))
    } else {
        match hits[0].boundingbox {
            None => Err(ErrorView::Geographic("No bounding box found for city: "@ + name)),
            Some(entries) => if entries@.len() != 4 {
                Err(ErrorView::Geographic("Invalid bounding box format from geocoding service"@))
            } else {
                match geocoded_coordinate(entries@, 0) {
                    Err(e) => Err(e),
                    Ok(south) => match geocoded_coordinate(entries@, 1) {
                        Err(e) => Err(e),
                        Ok(north) => match geocoded_coordinate(entries@, 2) {
                            Err(e) => Err(e),
                            Ok(west) => match geocoded_coordinate(entries@, 3) {
                                Err(e) => Err(e),
                                Ok(east) => Ok(
                                    BoundingBox {
                                        south: south as i32,
                                        west: west as i32,
                                        north: north as i32,
                                        east: east as i32,
                                    },
                                ),
                            },
                        },
                    },
                }
            },
        }
    }
}

/// The name of a coordinate of a geocoded bounding box.
fn coordinate_label(index: usize) -> (r: &'static str)
    ensures
        r@ == coordinate_name(index as int),
{
    if index == 0 {
        "south latitude"
    } else if index == 1 {
        "north latitude"
    } else if index == 2 {
        "west longitude"
    } else {
        "east longitude"
    }
}

/// Reads entry `index` of a geocoded bounding box.
fn read_coordinate(entries: &Vec<Option<String>>, index: usize) -> (r: Result<i32, OsmTilesError>)
    requires
        index < entries@.len(),
    ensures
        match r {
            Ok(v) => geocoded_coordinate(entries@, index as int) == Ok::<int, ErrorView>(v as int),
            Err(e) => geocoded_coordinate(entries@, index as int) == Err::<int, ErrorView>(e@),
        },
{
    match &entries[index] {
        None => Err(OsmTilesError::Parse(joined("Invalid ", coordinate_label(index)))),
        Some(text) => match parse_coordinate(text.as_str()) {
            None => {
                let mut message = joined("Invalid ", coordinate_label(index));
                message.append(" format");
                Err(OsmTilesError::Parse(message))
            },
            Some(value) => Ok(value),
        },
    }
}

/// Writes a coordinate in decimal degrees.
pub fn degrees_to_string(units: i32) -> (r: String)
    ensures
        r@ == degrees_text(units as int),
{
    fixed_to_string(units as i64, 10_000_000, 7)
}

/// Writes a bounding box as the four numbers that Overpass takes.
pub fn bbox_to_string(b: &BoundingBox) -> (r: String)
    ensures
        r@ == bbox_text(*b),
{
    let mut s = degrees_to_string(b.south);
    s.append(",");
    s.append(degrees_to_string(b.west).as_str());
    s.append(",");
    s.append(degrees_to_string(b.north).as_str());
    s.append(",");
    s.append(degrees_to_string(b.east).as_str());
    s
}

/// Writes an area in square kilometres with two decimals, rounded down.
pub fn area_to_string(area_m2: u64) -> (r: String)
    ensures
        r@ == area_text(area_m2 as nat),
{
    let hundredths: u64 = area_m2 / 10_000;
    let mut s = u64_to_string(hundredths / 100);
    s.append(".");
    s.append(write_padded(hundredths % 100, 2).as_str());
    s
}

impl OverpassProvider {
    /// A provider for the public Overpass API.
    pub fn new() -> (r: Self)
        ensures
            r.base_url@ == DEFAULT_OVERPASS_URL@,
            r.http_config.is_default(),
            r.custom_timeout is None,
    {
        OverpassProvider::with_base_url(DEFAULT_OVERPASS_URL)
    }

    /// A provider for the Overpass API at another address.
    pub fn with_base_url(base_url: &str) -> (r: Self)
        ensures
            r.base_url@ == base_url@,
            r.http_config.is_default(),
            r.custom_timeout is None,
    {
        OverpassProvider {
            base_url: base_url.to_owned(),
            http_config: HttpConfig::default(),
            custom_timeout: None,
        }
    }

    /// A provider for the Overpass API at another address, with a
    /// configuration for its HTTP client.
    pub fn with_config(base_url: &str, config: HttpConfig) -> (r: Self)
        ensures
            r.base_url@ == base_url@,
            r.http_config == config,
            r.custom_timeout is None,
    {
        OverpassProvider { base_url: base_url.to_owned(), http_config: config, custom_timeout: None }
    }

    /// A provider for the public Overpass API, for use in a browser.
    pub fn for_wasm() -> (r: Self)
        ensures
            r.base_url@ == DEFAULT_OVERPASS_URL@,
            r.http_config.is_default(),
            r.custom_timeout is None,
    {
        OverpassProvider::with_config(DEFAULT_OVERPASS_URL, HttpConfig::default())
    }

    /// A provider for the public Overpass API, for use outside a browser.
    pub fn for_native() -> (r: Self)
        ensures
            r.base_url@ == DEFAULT_OVERPASS_URL@,
            r.http_config.is_default(),
            r.custom_timeout is None,
    {
        OverpassProvider::with_config(DEFAULT_OVERPASS_URL, HttpConfig::default())
    }

    /// The provider with a timeout that overrides the one of a
    /// configuration.
    pub fn with_timeout_secs(self, timeout_seconds: u64) -> (r: Self)
        ensures
            r.custom_timeout == Some(timeout_seconds),
            r.base_url == self.base_url,
            r.http_config == self.http_config,
    {
        let mut provider = self;
        provider.custom_timeout = Some(timeout_seconds);
        provider
    }

    /// The kind of this provider.
    pub fn provider_type(&self) -> (r: &'static str)
        ensures
            r@ == "overpass"@,
    {
        "overpass"
    }

    /// What a provider of this kind can do: it fetches live over the
    /// network, resolves cities, takes up to 1000 square kilometres and 60
    /// requests a minute, and gives JSON.
    pub open spec fn is_capabilities(c: ProviderCapabilities) -> bool {
        &&& c.supports_real_time
        &&& c.requires_network
        &&& c.supports_geocoding
        &&& c.max_area_km2 == Some(1000u32)
        &&& c.supported_formats@ == seq![OsmDataFormat::Json]
        &&& c.rate_limit_rpm == Some(60u32)
        &&& c.wasm_compatible
        &&& c.notes matches Some(notes) && notes@
            == "Trait-based HTTP client for maximum compatibility"@
    }

    /// What this provider can do.
    pub fn capabilities(&self) -> (r: ProviderCapabilities)
        ensures
            Self::is_capabilities(r),
    {
        let mut supported_formats: Vec<OsmDataFormat> = Vec::new();
        supported_formats.push(OsmDataFormat::Json);
        assert(supported_formats@ =~= seq![OsmDataFormat::Json]);
        ProviderCapabilities {
            supports_real_time: true,
            requires_network: true,
            supports_geocoding: true,
            max_area_km2: Some(1000),
            supported_formats,
            rate_limit_rpm: Some(60),
            wasm_compatible: true,
            notes: Some(String::from_str("Trait-based HTTP client for maximum compatibility")),
        }
    }

    /// Whether relations are asked for along with the ways of a key.
    pub fn should_include_relations(&self, key: &str) -> (r: bool)
        ensures
            r == wants_relations(key@),
    {
        str_eq(key, "building") || str_eq(key, "natural") || str_eq(key, "landuse") || str_eq(
            key,
            "leisure",
        ) || str_eq(key, "boundary") || str_eq(key, "waterway")
    }

    /// Whether nodes are asked for along with the ways of a key.
    pub fn should_include_nodes(&self, key: &str) -> (r: bool)
        ensures
            r == wants_nodes(key@),
    {
        str_eq(key, "amenity") || str_eq(key, "tourism") || str_eq(key, "power")
    }

    /// The timeout in seconds of a request for a configuration: the
    /// provider's own if it has one, else that of the configuration.
    pub fn timeout_for(&self, config: &OsmConfig) -> (r: u64)
        ensures
            r == match self.custom_timeout {
                Some(t) => t,
                None => config.timeout_seconds,
            },
    {
        match self.custom_timeout {
            Some(t) => t,
            None => config.timeout_seconds,
        }
    }

    /// Appends one statement to a query.
    fn push_statement(query: &mut String, kind: &str, filter: &str, bbox: &str)
        ensures
            final(query)@ == old(query)@ + statement(kind@, filter@, bbox@),
    {
        let mut s = String::from_str("  ");
        s.append(kind);
        s.append(filter);
        s.append("(");
        s.append(bbox);
        s.append(");\n");
        query.append(s.as_str());
    }

    /// The statements that ask for the elements of one query in a
    /// bounding box.
    pub fn statements_for(&self, tag_query: &OsmTagQuery, bbox: &str) -> (r: String)
        ensures
            r@ == query_statements(tag_query@, bbox@),
    {
        let filter = tag_query.to_overpass_filter();
        let mut s = String::new();
        Self::push_statement(&mut s, "way", filter.as_str(), bbox);
        let ghost first = s@;
        assert(first =~= statement("way"@, filter@, bbox@));
        if self.should_include_relations(tag_query.key.as_str()) {
            Self::push_statement(&mut s, "relation", filter.as_str(), bbox);
        }
        let ghost second = s@;
        assert(second =~= first + (if wants_relations(tag_query@.key) {
            statement("relation"@, filter@, bbox@)
        } else {
            Seq::empty()
        }));
        if self.should_include_nodes(tag_query.key.as_str()) {
            Self::push_statement(&mut s, "node", filter.as_str(), bbox);
        }
        assert(s@ =~= second + (if wants_nodes(tag_query@.key) {
            statement("node"@, filter@, bbox@)
        } else {
            Seq::empty()
        }));
        s
    }

    /// The text of the Overpass query for a bounding box and the features
    /// of a configuration.
    pub fn build_overpass_query(&self, bbox: &BoundingBox, config: &OsmConfig) -> (r: String)
        ensures
            exists|queries: Seq<QueryView>| #[trigger]
                is_query_list(config.features@, queries) && r@ == overpass_query(
                    match self.custom_timeout {
                        Some(t) => t,
                        None => config.timeout_seconds,
                    },
                    queries,
                    *bbox,
                ),
    {
        let bbox_str = bbox_to_string(bbox);
        let timeout = self.timeout_for(config);
        let mut query = String::from_str("[out:json][timeout:");
        query.append(u64_to_string(timeout).as_str());
        query.append("];\n(\n");
        let ghost head = query@;
        let tag_queries = config.features.to_osm_queries();
        let ghost views = query_views(tag_queries@);
        let mut i: usize = 0;
        assert(query@ =~= head + all_statements(views.take(0), bbox_str@));
        while i < tag_queries.len()
            invariant
                i <= tag_queries@.len(),
                views == query_views(tag_queries@),
                query@ == head + all_statements(views.take(i as int), bbox_str@),
            decreases tag_queries@.len() - i,
        {
            let statements = self.statements_for(&tag_queries[i], bbox_str.as_str());
            proof {
                let next = views.take(i + 1);
                assert(next.drop_last() =~= views.take(i as int));
                assert(next.last() == tag_queries@[i as int]@);
            }
            query.append(statements.as_str());
            assert(query@ =~= head + all_statements(views.take(i + 1), bbox_str@));
            i += 1;
        }
        assert(views.take(tag_queries@.len() as int) =~= views);
        query.append(");\nout geom;");
        assert(is_query_list(config.features@, views));
        assert(query@ =~= overpass_query(timeout, views, *bbox));
        query
    }

    /// The number of elements in the JSON text of an answer, if it has an
    /// array of elements.
    pub fn parse_element_count(json_data: &str) -> (r: Option<u32>)
        ensures
            r == count_of_length(elements_length(json_data@)),
    {
        crate::json::parse_element_count(json_data)
    }

    /// The error of this library for an error of the HTTP client.
    pub fn convert_http_error(err: HttpError) -> (r: NetworkError)
        ensures
            r@ == match err@ {
                HttpErrorView::RequestFailed { message } => NetworkErrorView::Connection { message },
                HttpErrorView::HttpStatus { status } => NetworkErrorView::HttpError { status },
                HttpErrorView::Timeout { seconds } => NetworkErrorView::Timeout { seconds },
                HttpErrorView::Network { message } => NetworkErrorView::Connection { message },
            },
    {
        match err {
            HttpError::RequestFailed { message } => NetworkError::Connection { message },
            HttpError::HttpStatus { status } => NetworkError::HttpError { status },
            HttpError::Timeout { seconds } => NetworkError::Timeout { seconds },
            HttpError::Network { message } => NetworkError::Connection { message },
        }
    }

    /// The address that the geocoder is asked at for a city.
    pub fn nominatim_url(name: &str) -> (r: String)
        ensures
            r@ == nominatim_address(name@),
    {
        let mut url = String::from_str("https://nominatim.openstreetmap.org/search?q=");
        url.append(percent_encode(name).as_str());
        url.append("&format=json&limit=1&addressdetails=1");
        url
    }

    /// Whether an answer counts: only the status 200 does; any other is
    /// the error of that status.
    pub fn check_status(status: u16) -> (r: Result<(), OsmTilesError>)
        ensures
            match r {
                Ok(_) => status == 200,
                Err(e) => status != 200 && e@ == ErrorView::Network(
                    NetworkErrorView::HttpError { status },
                ),
            },
    {
        if status != 200 {
            Err(OsmTilesError::Network(NetworkError::HttpError { status }))
        } else {
            Ok(())
        }
    }

    /// Whether an area in square metres may be asked for: more than 5000
    /// square kilometres may not.
    pub fn check_area(area_m2: u64) -> (r: Result<(), OsmTilesError>)
        ensures
            match r {
                Ok(_) => area_m2 <= AREA_LIMIT_M2,
                Err(e) => area_m2 > AREA_LIMIT_M2 && e@ == ErrorView::Config(
                    area_message(area_m2 as nat),
                ),
            },
    {
        if area_m2 > AREA_LIMIT_M2 {
            let mut message = joined("Area too large: ", area_to_string(area_m2).as_str());
            message.append(" km\u{b2}. Overpass API typically limits requests to ~1000 km\u{b2}");
            Err(OsmTilesError::Config(message))
        } else {
            Ok(())
        }
    }

    /// The bounding box that the answer of the geocoder gives for a city.
    pub fn geocoded_region(name: &str, answer: &GeocodeAnswer) -> (r: Result<
        BoundingBox,
        OsmTilesError,
    >)
        ensures
            match r {
                Ok(b) => geocoded_answer(name@, *answer) == Ok::<BoundingBox, ErrorView>(b),
                Err(e) => geocoded_answer(name@, *answer) == Err::<BoundingBox, ErrorView>(e@),
            },
    {
        let hits = match answer {
            GeocodeAnswer::Hits(hits) => hits,
            GeocodeAnswer::Invalid { reason } => {
                return Err(
                    OsmTilesError::Parse(
                        joined("Failed to parse geocoding response: ", reason.as_str()),
                    ),
                );
            },
        };
        if hits.len() == 0 {
            return Err(OsmTilesError::Geographic(joined("Could not find city: ", name)));
        }
        let entries = match &hits[0].boundingbox {
            None => {
                return Err(
                    OsmTilesError::Geographic(joined("No bounding box found for city: ", name)),
                );
            },
            Some(entries) => entries,
        };
        if entries.len() != 4 {
            return Err(
                OsmTilesError::Geographic(
                    String::from_str("Invalid bounding box format from geocoding service"),
                ),
            );
        }
        let south = match read_coordinate(entries, 0) {
            Ok(v) => v,
            Err(e) => {
                return Err(e);
            },
        };
        let north = match read_coordinate(entries, 1) {
            Ok(v) => v,
            Err(e) => {
                return Err(e);
            },
        };
        let west = match read_coordinate(entries, 2) {
            Ok(v) => v,
            Err(e) => {
                return Err(e);
            },
        };
        let east = match read_coordinate(entries, 3) {
            Ok(v) => v,
            Err(e) => {
                return Err(e);
            },
        };
        Ok(BoundingBox::new(south, west, north, east))
    }

    /// The extra key/value pairs of the metadata of fetched data.
    pub open spec fn fetch_extra(size: nat, area_m2: nat, b: BoundingBox) -> Map<
        Seq<char>,
        Seq<char>,
    > {
        Map::<Seq<char>, Seq<char>>::empty().insert("query_size"@, decimal(size)).insert(
            "area_km2"@,
            area_text(area_m2),
        ).insert("bbox"@, bbox_text(b)).insert("http_client"@, "trait_based"@)
    }

    /// The metadata of fetched data: where it came from, how long it took,
    /// how many elements it holds if that is known, its size, and the area
    /// and the bounding box that were asked for.
    pub fn fetch_metadata(
        &self,
        size: usize,
        area_m2: u64,
        bbox: &BoundingBox,
        processing_time_ms: u64,
        element_count: Option<u32>,
    ) -> (r: OsmMetadata)
        ensures
            r.source@ == self.base_url@,
            r.provider_type@ == "overpass"@,
            r.processing_time_ms == Some(processing_time_ms),
            r.element_count == element_count,
            r.extra@ == Self::fetch_extra(size as nat, area_m2 as nat, *bbox),
    {
        let mut metadata = OsmMetadata::new(
            self.base_url.as_str(),
            self.provider_type(),
        ).with_processing_time(processing_time_ms);
        match element_count {
            Some(count) => {
                metadata = metadata.with_element_count(count);
            },
            None => {},
        }
        metadata.with_extra("query_size", usize_to_string(size).as_str()).with_extra(
            "area_km2",
            area_to_string(area_m2).as_str(),
        ).with_extra("bbox", bbox_to_string(bbox).as_str()).with_extra(
            "http_client",
            "trait_based",
        )
    }
}

impl Default for OverpassProvider {
    fn default() -> (r: Self)
        ensures
            r.base_url@ == DEFAULT_OVERPASS_URL@,
            r.http_config.is_default(),
            r.custom_timeout is None,
    {
        OverpassProvider::new()
    }
}

} // verus!

//! A provider that answers from memory, for tests and development.

use vstd::prelude::*;
use vstd::string::*;
use crate::config::OsmConfig;
use crate::data::{OsmData, OsmDataFormat, OsmMetadata};
use crate::error::{ErrorView, NetworkError, NetworkErrorView, OsmTilesError};
use crate::region::{BoundingBox, Region};
use crate::text::{joined, str_eq};

verus! {

/// What a provider can do.
#[derive(Debug)]
pub struct ProviderCapabilities {
    /// Whether data is fetched live.
    pub supports_real_time: bool,
    /// Whether a network is needed.
    pub requires_network: bool,
    /// Whether cities are resolved by name.
    pub supports_geocoding: bool,
    /// The largest area that should be asked for, in square kilometres.
    pub max_area_km2: Option<u32>,
    /// The formats that data comes in.
    pub supported_formats: Vec<OsmDataFormat>,
    /// The number of requests per minute that are allowed.
    pub rate_limit_rpm: Option<u32>,
    /// Whether the provider works in a browser.
    pub wasm_compatible: bool,
    /// Remarks.
    pub notes: Option<String>,
}

impl Default for ProviderCapabilities {
    fn default() -> (r: Self)
        ensures
            !r.supports_real_time,
            !r.requires_network,
            !r.supports_geocoding,
            r.max_area_km2 is None,
            r.supported_formats@ == seq![OsmDataFormat::Json],
            r.rate_limit_rpm is None,
            r.wasm_compatible,
            r.notes is None,
    {
        let mut supported_formats: Vec<OsmDataFormat> = Vec::new();
        supported_formats.push(OsmDataFormat::Json);
        assert(supported_formats@ =~= seq![OsmDataFormat::Json]);
        ProviderCapabilities {
            supports_real_time: false,
            requires_network: false,
            supports_geocoding: false,
            max_area_km2: None,
            supported_formats,
            rate_limit_rpm: None,
            wasm_compatible: true,
            notes: None,
        }
    }
}

/// The lower-case form of a text, as std's `str::to_lowercase` gives it.
pub uninterp spec fn lowercased(text: Seq<char>) -> Seq<char>;

/// Calls std's `str::to_lowercase`, which maps the text to lower case by
/// the rules of Unicode. The result is named, not spelled out.
#[verifier::external_body]
pub(crate) fn lowercase(text: &str) -> (r: String)
    ensures
        r@ == lowercased(text@),
{
    text.to_lowercase()
}

/// A coordinate held within the range of `i32`.
pub open spec fn clamp_coordinate(value: int) -> int {
    if value < i32::MIN {
        i32::MIN as int
    } else if value > i32::MAX {
        i32::MAX as int
    } else {
        value
    }
}

/// The coordinate units that the mock provider takes for a radius in
/// metres: a degree for every 111 kilometres, rounded down.
pub open spec fn mock_radius_units(radius_m: int) -> int {
    radius_m * 10_000 / 111
}

/// The bounding box that the mock provider knows for a city, by its name
/// in lower case.
pub open spec fn mock_city_box(lowered: Seq<char>) -> Option<BoundingBox> {
    if lowered == "berlin"@ {
        Some(BoundingBox { south: 523_000_000, west: 130_000_000, north: 527_000_000, east: 138_000_000 })
    } else if lowered == "munich"@ || lowered == "m\u{fc}nchen"@ {
        Some(BoundingBox { south: 480_000_000, west: 113_000_000, north: 483_000_000, east: 118_000_000 })
    } else if lowered == "hamburg"@ {
        Some(BoundingBox { south: 534_000_000, west: 97_000_000, north: 538_000_000, east: 103_000_000 })
    } else if lowered == "test"@ || lowered == "testcity"@ || lowered == "mock"@ {
        Some(BoundingBox { south: 524_000_000, west: 133_000_000, north: 526_000_000, east: 135_000_000 })
    } else {
        None
    }
}

/// The text of the error for a city that the mock provider does not know.
pub open spec fn unknown_city_message(name: Seq<char>) -> Seq<char> {
    "Mock provider doesn't know city: '"@ + name
        + "'. Try: berlin, munich, hamburg, or test"@
}

/// The bounding box that the mock provider resolves a region to, given
/// the name of a city in lower case: a bounding box is itself, a centre
/// with a radius becomes the square round it, and a city is looked up.
pub open spec fn mock_region(region: Region, lowered: Seq<char>) -> Result<BoundingBox, ErrorView> {
    match region {
        Region::BoundingBox(b) => Ok(b),
        Region::CenterRadius { lat, lon, radius_m } => {
            let delta = mock_radius_units(radius_m as int);
            Ok(
                BoundingBox {
                    south: clamp_coordinate(lat - delta) as i32,
                    west: clamp_coordinate(lon - delta) as i32,
                    north: clamp_coordinate(lat + delta) as i32,
                    east: clamp_coordinate(lon + delta) as i32,
                },
            )
        },
        Region::City { name } => match mock_city_box(lowered) {
            Some(b) => Ok(b),
            None => Err(ErrorView::Geographic(unknown_city_message(name@))),
        },
    }
}

/// A coordinate held within the range of `i32`.
fn clamp(value: i64) -> (r: i32)
    ensures
        r == clamp_coordinate(value as int),
{
    if value < -2147483648 {
        -2147483648
    } else if value > 2147483647 {
        2147483647
    } else {
        value as i32
    }
}

/// A provider that answers from memory. It gives back the data it was
/// made with, knows a few cities, and can be told to fail.
#[derive(Debug)]
pub struct MockProvider {
    mock_data: String,
    simulate_failure: bool,
}

impl MockProvider {
    /// The data that the provider gives back.
    pub closed spec fn data(&self) -> Seq<char> {
        self.mock_data@
    }

    /// Whether the provider is told to fail.
    pub closed spec fn fails(&self) -> bool {
        self.simulate_failure
    }

    /// A provider with the default test data.
    pub fn new() -> (r: Self)
        ensures
            r.data() == Self::default_data(),
            !r.fails(),
    {
        MockProvider::with_data(Self::default_test_data().as_str())
    }

    /// A provider with the given data.
    pub fn with_data(data: &str) -> (r: Self)
        ensures
            r.data() == data@,
            !r.fails(),
    {
        MockProvider { mock_data: data.to_owned(), simulate_failure: false }
    }

    /// The provider told to fail.
    pub fn with_failure(self) -> (r: Self)
        ensures
            r.data() == self.data(),
            r.fails(),
    {
        MockProvider { mock_data: self.mock_data, simulate_failure: true }
    }

    /// The kind of this provider.
    pub fn provider_type(&self) -> (r: &'static str)
        ensures
            r@ == "mock"@,
    {
        "mock"
    }

    /// The default test data: a residential building, a street, a park and
    /// a cafe in Overpass JSON.
    pub open spec fn default_data() -> Seq<char> {
        Self::DEFAULT_TEST_DATA@
    }

    /// The default test data.
    pub const DEFAULT_TEST_DATA: &'static str = "{\n  \"version\": 0.6,\n  \"generator\": \"Mock Provider v1.0\",\n  \"elements\": [\n    {\n      \"type\": \"way\",\n      \"id\": 123456789,\n      \"nodes\": [1001, 1002, 1003, 1001],\n      \"tags\": {\n        \"building\": \"residential\",\n        \"addr:street\": \"Mock Street\",\n        \"addr:housenumber\": \"42\"\n      },\n      \"geometry\": [\n        {\"lat\": 52.5, \"lon\": 13.4},\n        {\"lat\": 52.501, \"lon\": 13.4},\n        {\"lat\": 52.501, \"lon\": 13.401},\n        {\"lat\": 52.5, \"lon\": 13.401},\n        {\"lat\": 52.5, \"lon\": 13.4}\n      ]\n    },\n    {\n      \"type\": \"way\",\n      \"id\": 987654321,\n      \"nodes\": [2001, 2002],\n      \"tags\": {\n        \"highway\": \"residential\",\n        \"name\": \"Mock Street\"\n      },\n      \"geometry\": [\n        {\"lat\": 52.499, \"lon\": 13.399},\n        {\"lat\": 52.502, \"lon\": 13.402}\n      ]\n    },\n    {\n      \"type\": \"way\",\n      \"id\": 555666777,\n      \"nodes\": [3001, 3002, 3003, 3004, 3001],\n      \"tags\": {\n        \"leisure\": \"park\",\n        \"name\": \"Mock Park\"\n      },\n      \"geometry\": [\n        {\"lat\": 52.503, \"lon\": 13.403},\n        {\"lat\": 52.504, \"lon\": 13.403},\n        {\"lat\": 52.504, \"lon\": 13.405},\n        {\"lat\": 52.503, \"lon\": 13.405},\n        {\"lat\": 52.503, \"lon\": 13.403}\n      ]\n    },\n    {\n      \"type\": \"node\",\n      \"id\": 4001,\n      \"lat\": 52.5015,\n      \"lon\": 13.4015,\n      \"tags\": {\n        \"amenity\": \"cafe\",\n        \"name\": \"Mock Cafe\"\n      }\n    }\n  ]\n}";

    /// The default test data.
    pub fn default_test_data() -> (r: String)
        ensures
            r@ == Self::default_data(),
    {
        String::from_str(Self::DEFAULT_TEST_DATA)
    }

    /// The bounding box that the provider knows for a city, by its name in
    /// lower case.
    pub fn city_box(lowered: &str) -> (r: Option<BoundingBox>)
        ensures
            r == mock_city_box(lowered@),
    {
        if str_eq(lowered, "berlin") {
            Some(BoundingBox::new(523_000_000, 130_000_000, 527_000_000, 138_000_000))
        } else if str_eq(lowered, "munich") || str_eq(lowered, "m\u{fc}nchen") {
            Some(BoundingBox::new(480_000_000, 113_000_000, 483_000_000, 118_000_000))
        } else if str_eq(lowered, "hamburg") {
            Some(BoundingBox::new(534_000_000, 97_000_000, 538_000_000, 103_000_000))
        } else if str_eq(lowered, "test") || str_eq(lowered, "testcity") || str_eq(
            lowered,
            "mock",
        ) {
            Some(BoundingBox::new(524_000_000, 133_000_000, 526_000_000, 135_000_000))
        } else {
            None
        }
    }

    /// The bounding box of a region, given the name of a city in lower
    /// case.
    pub fn resolve_with(region: &Region, lowered: &str) -> (r: Result<BoundingBox, OsmTilesError>)
        ensures
            match r {
                Ok(b) => mock_region(*region, lowered@) == Ok::<BoundingBox, ErrorView>(b),
                Err(e) => mock_region(*region, lowered@) == Err::<BoundingBox, ErrorView>(e@),
            },
    {
        match region {
            Region::BoundingBox(b) => Ok(*b),
            Region::CenterRadius { lat, lon, radius_m } => {
                let delta: i64 = ((*radius_m as u64) * 10_000 / 111) as i64;
                Ok(
                    BoundingBox::new(
                        clamp(*lat as i64 - delta),
                        clamp(*lon as i64 - delta),
                        clamp(*lat as i64 + delta),
                        clamp(*lon as i64 + delta),
                    ),
                )
            },
            Region::City { name } => match Self::city_box(lowered) {
                Some(b) => Ok(b),
                None => {
                    let mut message = joined("Mock provider doesn't know city: '", name.as_str());
                    message.append("'. Try: berlin, munich, hamburg, or test");
                    Err(OsmTilesError::Geographic(message))
                },
            },
        }
    }

    /// The bounding box of a region: a bounding box is itself, a centre
    /// with a radius becomes the square round it, and a city is looked up
    /// by its name in lower case.
    pub fn resolve_region(&self, region: &Region) -> (r: Result<BoundingBox, OsmTilesError>)
        ensures
            match r {
                Ok(b) => mock_region(*region, Self::lowered_name(*region)) == Ok::<
                    BoundingBox,
                    ErrorView,
                >(b),
                Err(e) => mock_region(*region, Self::lowered_name(*region)) == Err::<
                    BoundingBox,
                    ErrorView,
                >(e@),
            },
    {
        match region {
            Region::City { name } => {
                let lowered = lowercase(name.as_str());
                Self::resolve_with(region, lowered.as_str())
            },
            _ => Self::resolve_with(region, ""),
        }
    }

    /// The name of the city of a region in lower case; of no account for
    /// other regions.
    pub open spec fn lowered_name(region: Region) -> Seq<char> {
        match region {
            Region::City { name } => lowercased(name@),
            _ => ""@,
        }
    }

    /// Whether the provider can be used: it can, unless it is told to
    /// fail.
    pub fn test_availability(&self) -> (r: Result<(), OsmTilesError>)
        ensures
            match r {
                Ok(_) => !self.fails(),
                Err(e) => self.fails() && e@ == ErrorView::Geographic("Mock failure enabled"@),
            },
    {
        if self.simulate_failure {
            Err(OsmTilesError::Geographic(String::from_str("Mock failure enabled")))
        } else {
            Ok(())
        }
    }

    /// What a provider of this kind can do: it needs no network, resolves
    /// the cities it knows, has no limits, and gives JSON.
    pub open spec fn is_capabilities(c: ProviderCapabilities) -> bool {
        &&& !c.supports_real_time
        &&& !c.requires_network
        &&& c.supports_geocoding
        &&& c.max_area_km2 is None
        &&& c.supported_formats@ == seq![OsmDataFormat::Json]
        &&& c.rate_limit_rpm is None
        &&& c.wasm_compatible
        &&& c.notes matches Some(notes) && notes@
            == "Mock provider for testing. Works in all environments including WASM."@
    }

    /// What this provider can do.
    pub fn capabilities(&self) -> (r: ProviderCapabilities)
        ensures
            Self::is_capabilities(r),
    {
        let mut supported_formats: Vec<OsmDataFormat> = Vec::new();
        supported_formats.push(OsmDataFormat::Json);
        assert(supported_formats@ =~= seq![OsmDataFormat::Json]);
        ProviderCapabilities {
            supports_real_time: false,
            requires_network: false,
            supports_geocoding: true,
            max_area_km2: None,
            supported_formats,
            rate_limit_rpm: None,
            wasm_compatible: true,
            notes: Some(
                String::from_str(
                    "Mock provider for testing. Works in all environments including WASM.",
                ),
            ),
        }
    }

    /// The extra key/value pairs of the metadata of mock data.
    pub open spec fn mock_extra() -> Map<Seq<char>, Seq<char>> {
        Map::<Seq<char>, Seq<char>>::empty().insert("simulated"@, "true"@).insert(
            "wasm_compatible"@,
            "true"@,
        ).insert("test_data"@, "true"@)
    }

    /// The data for a configuration: the data that the provider was made
    /// with, for the bounding box of the region. A provider told to fail
    /// gives a connection error; a region that does not resolve gives its
    /// error.
    pub fn fetch_data(&self, config: &OsmConfig) -> (r: Result<OsmData, OsmTilesError>)
        ensures
            match r {
                Ok(data) => {
                    &&& !self.fails()
                    &&& mock_region(config.region, Self::lowered_name(config.region)) == Ok::<
                        BoundingBox,
                        ErrorView,
                    >(data.bounding_box)
                    &&& data.raw_data@ == self.data()
                    &&& data.format == OsmDataFormat::Json
                    &&& data.metadata.source@ == "mock-provider"@
                    &&& data.metadata.provider_type@ == "mock"@
                    &&& data.metadata.element_count == Some(4u32)
                    &&& data.metadata.processing_time_ms == Some(1u64)
                    &&& data.metadata.extra@ == Self::mock_extra()
                },
                Err(e) => if self.fails() {
                    e@ == ErrorView::Network(
                        NetworkErrorView::Connection { message: "Simulated network failure"@ },
                    )
                } else {
                    mock_region(config.region, Self::lowered_name(config.region)) == Err::<
                        BoundingBox,
                        ErrorView,
                    >(e@)
                },
            },
    {
        if self.simulate_failure {
            return Err(
                OsmTilesError::Network(
                    NetworkError::Connection {
                        message: String::from_str("Simulated network failure"),
                    },
                ),
            );
        }
        let bounding_box = match self.resolve_region(&config.region) {
            Ok(b) => b,
            Err(e) => {
                return Err(e);
            },
        };
        let metadata = OsmMetadata::new("mock-provider", self.provider_type()).with_element_count(
            4,
        ).with_processing_time(1).with_extra("simulated", "true").with_extra(
            "wasm_compatible",
            "true",
        ).with_extra("test_data", "true");
        Ok(
            OsmData {
                raw_data: self.mock_data.clone(),
                format: OsmDataFormat::Json,
                bounding_box,
                metadata,
            },
        )
    }
}

impl Default for MockProvider {
    fn default() -> (r: Self)
        ensures
            r.data() == Self::default_data(),
            !r.fails(),
    {
        MockProvider::new()
    }
}

} // verus!

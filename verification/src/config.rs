//! The configuration of a download and a generation.

use vstd::prelude::*;
use vstd::string::*;
use crate::feature_set::FeatureSet;
use crate::features::{optional_text, query_views, OsmFeature, OsmTagQuery, QueryView};
use crate::region::{BoundingBox, Region};

verus! {

/// The grid resolution of a configuration that names none, in cells per
/// degree.
pub const DEFAULT_GRID_RESOLUTION: u32 = 100;

/// The nominal tile size of a configuration that names none, in
/// millimetres.
pub const DEFAULT_TILE_SIZE_MM: u32 = 10_000;

/// The timeout of a configuration that names none, in seconds.
pub const DEFAULT_TIMEOUT_SECONDS: u64 = 30;

/// Which features a grid is to show, switch by switch.
#[derive(Debug)]
pub struct FeatureFilter {
    /// Roads and paths.
    pub roads: bool,
    /// Buildings and structures.
    pub buildings: bool,
    /// Rivers, lakes and other water.
    pub water: bool,
    /// Parks, forests and other green space.
    pub green_spaces: bool,
    /// Railways.
    pub railways: bool,
    /// Further tags to include.
    pub custom_tags: Vec<String>,
}

impl Default for FeatureFilter {
    fn default() -> (r: Self)
        ensures
            r.roads && r.buildings && r.water && r.green_spaces && !r.railways,
            r.custom_tags@.len() == 0,
    {
        FeatureFilter {
            roads: true,
            buildings: true,
            water: true,
            green_spaces: true,
            railways: false,
            custom_tags: Vec::new(),
        }
    }
}

/// Whether a region is the city of the given name.
pub open spec fn is_city(region: Region, name: Seq<char>) -> bool {
    region matches Region::City { name: n } && n@ == name
}

/// What to download and how to turn it into a grid.
#[derive(Debug)]
pub struct OsmConfig {
    /// The region to download.
    pub region: Region,
    /// The grid resolution in cells per degree.
    pub grid_resolution: u32,
    /// The nominal size of a tile in millimetres.
    pub tile_size_mm: u32,
    /// The longest time a download may take, in seconds.
    pub timeout_seconds: u64,
    /// The features to include.
    pub features: FeatureSet,
}

impl Default for OsmConfig {
    fn default() -> (r: Self)
        ensures
            is_city(r.region, "Berlin"@),
            r.grid_resolution == DEFAULT_GRID_RESOLUTION,
            r.tile_size_mm == DEFAULT_TILE_SIZE_MM,
            r.timeout_seconds == DEFAULT_TIMEOUT_SECONDS,
            r.features@ == FeatureSet::urban_view(),
    {
        OsmConfig {
            region: Region::city("Berlin"),
            grid_resolution: DEFAULT_GRID_RESOLUTION,
            tile_size_mm: DEFAULT_TILE_SIZE_MM,
            timeout_seconds: DEFAULT_TIMEOUT_SECONDS,
            features: FeatureSet::default(),
        }
    }
}

impl Clone for OsmConfig {
    fn clone(&self) -> (r: Self)
        ensures
            r.region == self.region,
            r.grid_resolution == self.grid_resolution,
            r.tile_size_mm == self.tile_size_mm,
            r.timeout_seconds == self.timeout_seconds,
            r.features@ == self.features@,
    {
        OsmConfig {
            region: self.region.clone(),
            grid_resolution: self.grid_resolution,
            tile_size_mm: self.tile_size_mm,
            timeout_seconds: self.timeout_seconds,
            features: self.features.clone(),
        }
    }
}

impl OsmConfig {
    /// The default configuration for the city of the given name.
    pub fn for_city(city_name: &str) -> (r: Self)
        ensures
            is_city(r.region, city_name@),
            r.grid_resolution == DEFAULT_GRID_RESOLUTION,
            r.tile_size_mm == DEFAULT_TILE_SIZE_MM,
            r.timeout_seconds == DEFAULT_TIMEOUT_SECONDS,
            r.features@ == FeatureSet::urban_view(),
    {
        OsmConfig {
            region: Region::city(city_name),
            grid_resolution: DEFAULT_GRID_RESOLUTION,
            tile_size_mm: DEFAULT_TILE_SIZE_MM,
            timeout_seconds: DEFAULT_TIMEOUT_SECONDS,
            features: FeatureSet::default(),
        }
    }

    /// The configuration with another grid resolution, in cells per
    /// degree.
    pub fn with_grid_resolution(self, resolution: u32) -> (r: Self)
        ensures
            r.grid_resolution == resolution,
            r.region == self.region,
            r.tile_size_mm == self.tile_size_mm,
            r.timeout_seconds == self.timeout_seconds,
            r.features == self.features,
    {
        let mut config = self;
        config.grid_resolution = resolution;
        config
    }

    /// The configuration with another nominal tile size, in millimetres.
    pub fn with_tile_size(self, size_mm: u32) -> (r: Self)
        ensures
            r.tile_size_mm == size_mm,
            r.region == self.region,
            r.grid_resolution == self.grid_resolution,
            r.timeout_seconds == self.timeout_seconds,
            r.features == self.features,
    {
        let mut config = self;
        config.tile_size_mm = size_mm;
        config
    }

    /// The configuration with another timeout, in seconds.
    pub fn with_timeout(self, seconds: u64) -> (r: Self)
        ensures
            r.timeout_seconds == seconds,
            r.region == self.region,
            r.grid_resolution == self.grid_resolution,
            r.tile_size_mm == self.tile_size_mm,
            r.features == self.features,
    {
        let mut config = self;
        config.timeout_seconds = seconds;
        config
    }

    /// The configuration with other features.
    pub fn with_features(self, features: FeatureSet) -> (r: Self)
        ensures
            r.features == features,
            r.region == self.region,
            r.grid_resolution == self.grid_resolution,
            r.tile_size_mm == self.tile_size_mm,
            r.timeout_seconds == self.timeout_seconds,
    {
        let mut config = self;
        config.features = features;
        config
    }

    /// A builder that starts without any choice made.
    pub fn builder() -> (r: OsmConfigBuilder)
        ensures
            r.is_blank(),
    {
        OsmConfigBuilder::new()
    }
}

/// A configuration in the making: the choices made so far.
#[derive(Debug)]
pub struct OsmConfigBuilder {
    /// The region, once chosen.
    pub region: Option<Region>,
    /// The grid resolution in cells per degree, once chosen.
    pub grid_resolution: Option<u32>,
    /// The nominal tile size in millimetres, once chosen.
    pub tile_size_mm: Option<u32>,
    /// The timeout in seconds, once chosen.
    pub timeout_seconds: Option<u64>,
    /// The features chosen so far.
    pub features: FeatureSet,
}

impl Clone for OsmConfigBuilder {
    fn clone(&self) -> (r: Self)
        ensures
            r.region == self.region,
            r.grid_resolution == self.grid_resolution,
            r.tile_size_mm == self.tile_size_mm,
            r.timeout_seconds == self.timeout_seconds,
            r.features@ == self.features@,
    {
        OsmConfigBuilder {
            region: match &self.region {
                Some(region) => Some(region.clone()),
                None => None,
            },
            grid_resolution: self.grid_resolution,
            tile_size_mm: self.tile_size_mm,
            timeout_seconds: self.timeout_seconds,
            features: self.features.clone(),
        }
    }
}

impl OsmConfigBuilder {
    /// Whether no choice has been made.
    pub open spec fn is_blank(&self) -> bool {
        &&& self.region is None
        &&& self.grid_resolution is None
        &&& self.tile_size_mm is None
        &&& self.timeout_seconds is None
        &&& self.features@.features == Set::<OsmFeature>::empty()
        &&& self.features@.custom_queries == Seq::<QueryView>::empty()
    }

    /// Whether two builders agree in everything but the region.
    pub open spec fn same_but_region(&self, other: &Self) -> bool {
        &&& self.grid_resolution == other.grid_resolution
        &&& self.tile_size_mm == other.tile_size_mm
        &&& self.timeout_seconds == other.timeout_seconds
        &&& self.features == other.features
    }

    /// Whether two builders agree in everything but the features.
    pub open spec fn same_but_features(&self, other: &Self) -> bool {
        &&& self.region == other.region
        &&& self.grid_resolution == other.grid_resolution
        &&& self.tile_size_mm == other.tile_size_mm
        &&& self.timeout_seconds == other.timeout_seconds
    }

    /// A builder without any choice made.
    pub fn new() -> (r: Self)
        ensures
            r.is_blank(),
    {
        OsmConfigBuilder {
            region: None,
            grid_resolution: None,
            tile_size_mm: None,
            timeout_seconds: None,
            features: FeatureSet::new(),
        }
    }

    /// Chooses the region.
    pub fn region(self, region: Region) -> (r: Self)
        ensures
            r.region == Some(region),
            r.same_but_region(&self),
    {
        let mut builder = self;
        builder.region = Some(region);
        builder
    }

    /// Chooses the city of the given name as the region.
    pub fn city(self, name: &str) -> (r: Self)
        ensures
            r.region matches Some(region) && is_city(region, name@),
            r.same_but_region(&self),
    {
        let mut builder = self;
        builder.region = Some(Region::city(name));
        builder
    }

    /// Chooses a bounding box as the region.
    pub fn bbox(self, south: i32, west: i32, north: i32, east: i32) -> (r: Self)
        ensures
            r.region == Some(Region::BoundingBox(BoundingBox { south, west, north, east })),
            r.same_but_region(&self),
    {
        let mut builder = self;
        builder.region = Some(Region::bbox(south, west, north, east));
        builder
    }

    /// Chooses the surroundings of a point as the region.
    pub fn center_radius(self, lat: i32, lon: i32, radius_m: u32) -> (r: Self)
        ensures
            r.region == Some(Region::CenterRadius { lat, lon, radius_m }),
            r.same_but_region(&self),
    {
        let mut builder = self;
        builder.region = Some(Region::center_radius(lat, lon, radius_m));
        builder
    }

    /// Chooses the grid resolution, in cells per degree.
    pub fn grid_resolution(self, resolution: u32) -> (r: Self)
        ensures
            r.grid_resolution == Some(resolution),
            r.region == self.region,
            r.tile_size_mm == self.tile_size_mm,
            r.timeout_seconds == self.timeout_seconds,
            r.features == self.features,
    {
        let mut builder = self;
        builder.grid_resolution = Some(resolution);
        builder
    }

    /// Chooses the nominal tile size, in millimetres.
    pub fn tile_size(self, size_mm: u32) -> (r: Self)
        ensures
            r.tile_size_mm == Some(size_mm),
            r.region == self.region,
            r.grid_resolution == self.grid_resolution,
            r.timeout_seconds == self.timeout_seconds,
            r.features == self.features,
    {
        let mut builder = self;
        builder.tile_size_mm = Some(size_mm);
        builder
    }

    /// Chooses the timeout, in seconds.
    pub fn timeout(self, seconds: u64) -> (r: Self)
        ensures
            r.timeout_seconds == Some(seconds),
            r.region == self.region,
            r.grid_resolution == self.grid_resolution,
            r.tile_size_mm == self.tile_size_mm,
            r.features == self.features,
    {
        let mut builder = self;
        builder.timeout_seconds = Some(seconds);
        builder
    }

    /// Replaces the features chosen so far.
    pub fn features(self, features: FeatureSet) -> (r: Self)
        ensures
            r.features == features,
            r.same_but_features(&self),
    {
        let mut builder = self;
        builder.features = features;
        builder
    }

    /// Adds features to those chosen so far.
    pub fn with_features(self, features: Vec<OsmFeature>) -> (r: Self)
        ensures
            r.features@.features == self.features@.features.union(features@.to_set()),
            r.features@.custom_queries == self.features@.custom_queries,
            r.same_but_features(&self),
    {
        OsmConfigBuilder {
            region: self.region,
            grid_resolution: self.grid_resolution,
            tile_size_mm: self.tile_size_mm,
            timeout_seconds: self.timeout_seconds,
            features: self.features.with_features(features),
        }
    }

    /// Adds a feature to those chosen so far.
    pub fn with_feature(self, feature: OsmFeature) -> (r: Self)
        ensures
            r.features@.features == self.features@.features.insert(feature),
            r.features@.custom_queries == self.features@.custom_queries,
            r.same_but_features(&self),
    {
        OsmConfigBuilder {
            region: self.region,
            grid_resolution: self.grid_resolution,
            tile_size_mm: self.tile_size_mm,
            timeout_seconds: self.timeout_seconds,
            features: self.features.with_feature(feature),
        }
    }

    /// Takes a feature out of those chosen so far.
    pub fn without_feature(self, feature: OsmFeature) -> (r: Self)
        ensures
            r.features@.features == self.features@.features.remove(feature),
            r.features@.custom_queries == self.features@.custom_queries,
            r.same_but_features(&self),
    {
        OsmConfigBuilder {
            region: self.region,
            grid_resolution: self.grid_resolution,
            tile_size_mm: self.tile_size_mm,
            timeout_seconds: self.timeout_seconds,
            features: self.features.without_feature(&feature),
        }
    }

    /// Adds custom queries after those chosen so far.
    pub fn with_custom_queries(self, queries: Vec<OsmTagQuery>) -> (r: Self)
        ensures
            r.features@.features == self.features@.features,
            r.features@.custom_queries == self.features@.custom_queries + query_views(queries@),
            r.same_but_features(&self),
    {
        OsmConfigBuilder {
            region: self.region,
            grid_resolution: self.grid_resolution,
            tile_size_mm: self.tile_size_mm,
            timeout_seconds: self.timeout_seconds,
            features: self.features.with_custom_queries(queries),
        }
    }

    /// Adds a custom query after those chosen so far.
    pub fn with_custom_query(self, key: &str, value: Option<&str>) -> (r: Self)
        ensures
            r.features@.features == self.features@.features,
            r.features@.custom_queries == self.features@.custom_queries.push(
                QueryView { key: key@, value: optional_text(value) },
            ),
            r.same_but_features(&self),
    {
        let query = OsmTagQuery::new(key, value);
        OsmConfigBuilder {
            region: self.region,
            grid_resolution: self.grid_resolution,
            tile_size_mm: self.tile_size_mm,
            timeout_seconds: self.timeout_seconds,
            features: self.features.with_custom_query(query),
        }
    }

    /// Replaces the features chosen so far by those of a town.
    pub fn urban_features(self) -> (r: Self)
        ensures
            r.features@ == FeatureSet::urban_view(),
            r.same_but_features(&self),
    {
        let mut builder = self;
        builder.features = FeatureSet::urban();
        builder
    }

    /// Replaces the features chosen so far by those of transport.
    pub fn transportation_features(self) -> (r: Self)
        ensures
            r.features@ == FeatureSet::transportation_view(),
            r.same_but_features(&self),
    {
        let mut builder = self;
        builder.features = FeatureSet::transportation();
        builder
    }

    /// Replaces the features chosen so far by those of nature.
    pub fn natural_features(self) -> (r: Self)
        ensures
            r.features@ == FeatureSet::natural_view(),
            r.same_but_features(&self),
    {
        let mut builder = self;
        builder.features = FeatureSet::natural();
        builder
    }

    /// Replaces the features chosen so far by the most common ones.
    pub fn comprehensive_features(self) -> (r: Self)
        ensures
            r.features@ == FeatureSet::comprehensive_view(),
            r.same_but_features(&self),
    {
        let mut builder = self;
        builder.features = FeatureSet::comprehensive();
        builder
    }

    /// The configuration of the choices made. What was not chosen takes
    /// its default: the city of Berlin, 100 cells per degree, tiles of ten
    /// metres, and 30 seconds.
    pub fn build(self) -> (r: OsmConfig)
        ensures
            match self.region {
                Some(region) => r.region == region,
                None => is_city(r.region, "Berlin"@),
            },
            r.grid_resolution == match self.grid_resolution {
                Some(n) => n,
                None => DEFAULT_GRID_RESOLUTION,
            },
            r.tile_size_mm == match self.tile_size_mm {
                Some(n) => n,
                None => DEFAULT_TILE_SIZE_MM,
            },
            r.timeout_seconds == match self.timeout_seconds {
                Some(n) => n,
                None => DEFAULT_TIMEOUT_SECONDS,
            },
            r.features == self.features,
    {
        OsmConfig {
            region: match self.region {
                Some(region) => region,
                None => Region::city("Berlin"),
            },
            grid_resolution: match self.grid_resolution {
                Some(n) => n,
                None => DEFAULT_GRID_RESOLUTION,
            },
            tile_size_mm: match self.tile_size_mm {
                Some(n) => n,
                None => DEFAULT_TILE_SIZE_MM,
            },
            timeout_seconds: match self.timeout_seconds {
                Some(n) => n,
                None => DEFAULT_TIMEOUT_SECONDS,
            },
            features: self.features,
        }
    }

    /// The choices for a game: the features of a town with amenities and
    /// tourism, 200 cells per degree, tiles of five metres.
    pub fn for_gaming() -> (r: Self)
        ensures
            r.region is None,
            r.timeout_seconds is None,
            r.grid_resolution == Some(200u32),
            r.tile_size_mm == Some(5_000u32),
            r.features@.features == FeatureSet::urban_view().features.insert(
                OsmFeature::Amenities,
            ).insert(OsmFeature::Tourism),
            r.features@.custom_queries == Seq::<QueryView>::empty(),
    {
        OsmConfigBuilder::new().urban_features().with_feature(OsmFeature::Amenities).with_feature(
            OsmFeature::Tourism,
        ).grid_resolution(200).tile_size(5_000)
    }

    /// The choices for navigation: the features of transport with
    /// buildings and amenities, 150 cells per degree, tiles of eight
    /// metres.
    pub fn for_navigation() -> (r: Self)
        ensures
            r.region is None,
            r.timeout_seconds is None,
            r.grid_resolution == Some(150u32),
            r.tile_size_mm == Some(8_000u32),
            r.features@.features == FeatureSet::transportation_view().features.insert(
                OsmFeature::Buildings,
            ).insert(OsmFeature::Amenities),
            r.features@.custom_queries == Seq::<QueryView>::empty(),
    {
        OsmConfigBuilder::new().transportation_features().with_feature(
            OsmFeature::Buildings,
        ).with_feature(OsmFeature::Amenities).grid_resolution(150).tile_size(8_000)
    }

    /// The choices for town planning: the most common features with
    /// boundaries and land use, 300 cells per degree, tiles of three
    /// metres.
    pub fn for_urban_planning() -> (r: Self)
        ensures
            r.region is None,
            r.timeout_seconds is None,
            r.grid_resolution == Some(300u32),
            r.tile_size_mm == Some(3_000u32),
            r.features@.features == FeatureSet::comprehensive_view().features.insert(
                OsmFeature::Boundaries,
            ).insert(OsmFeature::Landuse),
            r.features@.custom_queries == Seq::<QueryView>::empty(),
    {
        OsmConfigBuilder::new().comprehensive_features().with_feature(
            OsmFeature::Boundaries,
        ).with_feature(OsmFeature::Landuse).grid_resolution(300).tile_size(3_000)
    }

    /// The choices for the study of nature: the features of nature with
    /// land use, 100 cells per degree, tiles of fifteen metres.
    pub fn for_environment() -> (r: Self)
        ensures
            r.region is None,
            r.timeout_seconds is None,
            r.grid_resolution == Some(100u32),
            r.tile_size_mm == Some(15_000u32),
            r.features@.features == FeatureSet::natural_view().features.insert(
                OsmFeature::Landuse,
            ),
            r.features@.custom_queries == Seq::<QueryView>::empty(),
    {
        OsmConfigBuilder::new().natural_features().with_feature(
            OsmFeature::Landuse,
        ).grid_resolution(100).tile_size(15_000)
    }
}

impl Default for OsmConfigBuilder {
    fn default() -> (r: Self)
        ensures
            r.is_blank(),
    {
        OsmConfigBuilder::new()
    }
}

} // verus!

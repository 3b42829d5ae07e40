//! Rasterises OpenStreetMap elements into a grid of typed tiles.
//!
//! Geographic coordinates are fixed-point integers counting units of
//! 1e-7 degree, the precision OpenStreetMap itself stores; lengths are
//! whole millimetres or metres, areas whole square metres. Every item of
//! the library is verified with Verus.

pub mod arith;
pub mod clock;
pub mod config;
pub mod data;
pub mod element;
pub mod error;
pub mod feature_set;
pub mod features;
pub mod fetch;
pub mod file;
pub mod fixed;
pub mod generator;
pub mod grid;
pub mod http;
pub mod json;
pub mod laws;
pub mod line;
pub mod mock;
pub mod order;
pub mod overpass;
pub mod paint;
pub mod parse;
pub mod polygon;
pub mod provider;
pub mod query;
pub mod region;
pub mod stats;
pub mod tags;
pub mod text;
pub mod tile;

pub use config::{FeatureFilter, OsmConfig, OsmConfigBuilder};
pub use data::{OsmData, OsmDataFormat, OsmMetadata};
pub use element::{OsmElement, OsmElementType};
pub use error::{NetworkError, OsmTilesError};
pub use feature_set::FeatureSet;
pub use features::{OsmFeature, OsmTagQuery};
pub use fetch::{FetchStep, GeocodeReply, QueryReply};
pub use file::FileProvider;
pub use generator::{DefaultGridGenerator, GeneratorCapabilities, GridInput};
pub use grid::{GridMetadata, TileGrid};
pub use http::{EhttpClient, HttpConfig, HttpError, HttpResponse, RequestFailure};
pub use mock::{MockProvider, ProviderCapabilities};
pub use overpass::{GeocodeAnswer, GeocodeHit, OverpassProvider};
pub use parse::{Decoded, OsmParser, RawDocument, RawElement, RawPoint};
pub use provider::{Provider, ProviderFactory};
pub use region::{BoundingBox, Region};
pub use stats::{GridStatistics, TileTypeCounts};
pub use tags::TagMap;
pub use tile::{Tile, TileMetadata, TileType};

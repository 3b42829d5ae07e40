//! Map data as a provider hands it over.

use vstd::prelude::*;
use crate::clock::timestamp_now;
use crate::region::BoundingBox;
use crate::tags::TagMap;

verus! {

/// The format of raw map data.
#[derive(Debug, Clone, Copy, PartialEq, Eq, Structural)]
pub enum OsmDataFormat {
    /// OSM XML.
    Xml,
    /// Overpass JSON.
    Json,
}

/// What is recorded about a request for map data.
#[derive(Debug)]
pub struct OsmMetadata {
    /// When the data was fetched, as an RFC 3339 timestamp.
    pub timestamp: String,
    /// Where the data came from.
    pub source: String,
    /// The kind of provider that fetched it.
    pub provider_type: String,
    /// The number of elements, if known.
    pub element_count: Option<u32>,
    /// How long the request took in milliseconds, if known.
    pub processing_time_ms: Option<u64>,
    /// Further key/value pairs.
    pub extra: TagMap,
}

impl Clone for OsmMetadata {
    fn clone(&self) -> (r: Self)
        ensures
            r.timestamp@ == self.timestamp@,
            r.source@ == self.source@,
            r.provider_type@ == self.provider_type@,
            r.element_count == self.element_count,
            r.processing_time_ms == self.processing_time_ms,
            r.extra@ == self.extra@,
    {
        OsmMetadata {
            timestamp: self.timestamp.clone(),
            source: self.source.clone(),
            provider_type: self.provider_type.clone(),
            element_count: self.element_count,
            processing_time_ms: self.processing_time_ms,
            extra: self.extra.clone(),
        }
    }
}

impl OsmMetadata {
    /// Metadata for data from `source`, fetched now by a provider of the
    /// given kind, with nothing else known.
    pub fn new(source: &str, provider_type: &str) -> (r: Self)
        ensures
            r.source@ == source@,
            r.provider_type@ == provider_type@,
            r.element_count is None,
            r.processing_time_ms is None,
            r.extra@ == Map::<Seq<char>, Seq<char>>::empty(),
    {
        OsmMetadata {
            timestamp: timestamp_now(),
            source: source.to_owned(),
            provider_type: provider_type.to_owned(),
            element_count: None,
            processing_time_ms: None,
            extra: TagMap::new(),
        }
    }

    /// The metadata with the number of elements.
    pub fn with_element_count(self, count: u32) -> (r: Self)
        ensures
            r.element_count == Some(count),
            r.timestamp == self.timestamp,
            r.source == self.source,
            r.provider_type == self.provider_type,
            r.processing_time_ms == self.processing_time_ms,
            r.extra == self.extra,
    {
        let mut metadata = self;
        metadata.element_count = Some(count);
        metadata
    }

    /// The metadata with the time that the request took.
    pub fn with_processing_time(self, ms: u64) -> (r: Self)
        ensures
            r.processing_time_ms == Some(ms),
            r.timestamp == self.timestamp,
            r.source == self.source,
            r.provider_type == self.provider_type,
            r.element_count == self.element_count,
            r.extra == self.extra,
    {
        let mut metadata = self;
        metadata.processing_time_ms = Some(ms);
        metadata
    }

    /// The metadata with one more key/value pair, which replaces an
    /// earlier one of the same key.
    pub fn with_extra(self, key: &str, value: &str) -> (r: Self)
        ensures
            r.extra@ == self.extra@.insert(key@, value@),
            r.timestamp == self.timestamp,
            r.source == self.source,
            r.provider_type == self.provider_type,
            r.element_count == self.element_count,
            r.processing_time_ms == self.processing_time_ms,
    {
        let mut metadata = self;
        metadata.extra.insert(key.to_owned(), value.to_owned());
        metadata
    }
}

/// Raw map data with what is known about it.
#[derive(Debug)]
pub struct OsmData {
    /// The text of the data.
    pub raw_data: String,
    /// The format of the text.
    pub format: OsmDataFormat,
    /// The bounding box that was fetched.
    pub bounding_box: BoundingBox,
    /// What is recorded about the request.
    pub metadata: OsmMetadata,
}

impl Clone for OsmData {
    fn clone(&self) -> (r: Self)
        ensures
            r.raw_data@ == self.raw_data@,
            r.format == self.format,
            r.bounding_box == self.bounding_box,
            r.metadata.source@ == self.metadata.source@,
            r.metadata.provider_type@ == self.metadata.provider_type@,
            r.metadata.element_count == self.metadata.element_count,
            r.metadata.processing_time_ms == self.metadata.processing_time_ms,
            r.metadata.extra@ == self.metadata.extra@,
    {
        OsmData {
            raw_data: self.raw_data.clone(),
            format: self.format,
            bounding_box: self.bounding_box,
            metadata: self.metadata.clone(),
        }
    }
}

} // verus!

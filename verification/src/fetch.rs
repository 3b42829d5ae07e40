//! A fetch from the Overpass API, step by step. The provider decides
//! each step from what came back for the one before; sending requests and
//! measuring the globe is left to whoever runs the steps.

use vstd::prelude::*;
use vstd::string::*;
use vstd::utf8::*;
use crate::config::OsmConfig;
use crate::data::{OsmData, OsmDataFormat};
use crate::error::{ErrorView, NetworkErrorView, OsmTilesError};
use crate::features::QueryView;
use crate::http::{HttpError, HttpErrorView};
use crate::json::{count_of_length, elements_length};
use crate::overpass::{
    area_message, geocoded_answer, is_query_list, nominatim_address, overpass_query,
    GeocodeAnswer, OverpassProvider, AREA_LIMIT_M2,
};
use crate::region::{BoundingBox, Region};

verus! {

/// What is to be done next in a fetch.
#[derive(Debug)]
pub enum FetchStep {
    /// Ask the geocoder at this address for the city of this name, and
    /// come back with its reply.
    Geocode { name: String, url: String },
    /// Walk `radius_m` metres from the centre to the north, the south, the
    /// east and the west, and go on to measure the box round the four
    /// places.
    Surround { lat: i32, lon: i32, radius_m: u32 },
    /// Measure the area of this box, and come back with it in square
    /// metres.
    Measure { bbox: BoundingBox },
    /// Post this query as the form field `data` to this address, and come
    /// back with the reply.
    Query { bbox: BoundingBox, area_m2: u64, url: String, query: String },
    /// The fetch is done: this is the data.
    Finish(OsmData),
    /// The fetch has failed with this error.
    Fail(OsmTilesError),
}

/// What came back for a request to the geocoder.
#[derive(Debug)]
pub enum GeocodeReply {
    /// The request failed.
    Failed(HttpError),
    /// An answer with this status, and what decoding its body gave.
    Answered { status: u16, answer: GeocodeAnswer },
}

/// What came back for a query to the Overpass API.
#[derive(Debug)]
pub enum QueryReply {
    /// The request failed.
    Failed(HttpError),
    /// An answer with this status and this body.
    Answered { status: u16, body: String },
}

/// The network error of this library for an error of the HTTP client.
pub open spec fn network_failure(error: HttpErrorView) -> ErrorView {
    ErrorView::Network(
        match error {
            HttpErrorView::RequestFailed { message } => NetworkErrorView::Connection { message },
            HttpErrorView::HttpStatus { status } => NetworkErrorView::HttpError { status },
            HttpErrorView::Timeout { seconds } => NetworkErrorView::Timeout { seconds },
            HttpErrorView::Network { message } => NetworkErrorView::Connection { message },
        },
    )
}

/// The error of a status that is not 200.
pub open spec fn status_failure(status: u16) -> ErrorView {
    ErrorView::Network(NetworkErrorView::HttpError { status })
}

/// What a reply of the geocoder gives for a city: its bounding box, or
/// the error of a failed request, of a status that is not 200, or of an
/// answer that gives no bounding box.
pub open spec fn geocode_outcome(name: Seq<char>, reply: GeocodeReply) -> Result<
    BoundingBox,
    ErrorView,
> {
    match reply {
        GeocodeReply::Failed(error) => Err(network_failure(error@)),
        GeocodeReply::Answered { status, answer } => if status != 200 {
            Err(status_failure(status))
        } else {
            geocoded_answer(name, answer)
        },
    }
}

/// Whether a reply to a query says that the API can be used: the error of
/// a failed request or of a status that is not 200 if it does not.
pub open spec fn availability_outcome(reply: QueryReply) -> Result<(), ErrorView> {
    match reply {
        QueryReply::Failed(error) => Err(network_failure(error@)),
        QueryReply::Answered { status, body } => if status != 200 {
            Err(status_failure(status))
        } else {
            Ok(())
        },
    }
}

impl OverpassProvider {
    /// The error of this library for a request that failed.
    pub fn request_failed(error: &HttpError) -> (r: OsmTilesError)
        ensures
            r@ == network_failure(error@),
    {
        OsmTilesError::Network(Self::convert_http_error(error.clone()))
    }

    /// The first step of a fetch for a region: a bounding box is measured
    /// at once; a centre with a radius is surrounded first; a city is
    /// looked up first.
    pub fn begin(&self, region: &Region) -> (r: FetchStep)
        ensures
            match *region {
                Region::BoundingBox(b) => r == (FetchStep::Measure { bbox: b }),
                Region::CenterRadius { lat, lon, radius_m } => r == (FetchStep::Surround {
                    lat,
                    lon,
                    radius_m,
                }),
                Region::City { name } => r matches FetchStep::Geocode { name: n, url } && n@
                    == name@ && url@ == nominatim_address(name@),
            },
    {
        match region {
            Region::BoundingBox(b) => FetchStep::Measure { bbox: *b },
            Region::CenterRadius { lat, lon, radius_m } => FetchStep::Surround {
                lat: *lat,
                lon: *lon,
                radius_m: *radius_m,
            },
            Region::City { name } => FetchStep::Geocode {
                name: name.clone(),
                url: Self::nominatim_url(name.as_str()),
            },
        }
    }

    /// The bounding box that a reply of the geocoder gives for a city.
    pub fn geocoded(name: &str, reply: &GeocodeReply) -> (r: Result<BoundingBox, OsmTilesError>)
        ensures
            match r {
                Ok(b) => geocode_outcome(name@, *reply) == Ok::<BoundingBox, ErrorView>(b),
                Err(e) => geocode_outcome(name@, *reply) == Err::<BoundingBox, ErrorView>(e@),
            },
    {
        match reply {
            GeocodeReply::Failed(error) => Err(Self::request_failed(error)),
            GeocodeReply::Answered { status, answer } => {
                match Self::check_status(*status) {
                    Err(e) => Err(e),
                    Ok(_) => Self::geocoded_region(name, answer),
                }
            },
        }
    }

    /// The step after the geocoder has replied: to measure the box it
    /// gave, or to fail.
    pub fn after_geocode(&self, name: &str, reply: &GeocodeReply) -> (r: FetchStep)
        ensures
            match geocode_outcome(name@, *reply) {
                Ok(b) => r == (FetchStep::Measure { bbox: b }),
                Err(e) => r matches FetchStep::Fail(error) && error@ == e,
            },
    {
        match Self::geocoded(name, reply) {
            Ok(bbox) => FetchStep::Measure { bbox },
            Err(e) => FetchStep::Fail(e),
        }
    }

    /// The step after the box has been measured: to query for it, or to
    /// fail because it is too large.
    pub fn after_measure(&self, config: &OsmConfig, bbox: BoundingBox, area_m2: u64) -> (r:
        FetchStep)
        ensures
            if area_m2 > AREA_LIMIT_M2 {
                r matches FetchStep::Fail(error) && error@ == ErrorView::Config(
                    area_message(area_m2 as nat),
                )
            } else {
                &&& r matches FetchStep::Query { bbox: b, area_m2: a, url, query }
                &&& b == bbox
                &&& a == area_m2
                &&& url@ == self.base_url@
                &&& exists|queries: Seq<QueryView>| #[trigger]
                    is_query_list(config.features@, queries) && query@ == overpass_query(
                        match self.custom_timeout {
                            Some(t) => t,
                            None => config.timeout_seconds,
                        },
                        queries,
                        bbox,
                    )
            },
    {
        match Self::check_area(area_m2) {
            Err(e) => FetchStep::Fail(e),
            Ok(_) => FetchStep::Query {
                bbox,
                area_m2,
                url: self.base_url.clone(),
                query: self.build_overpass_query(&bbox, config),
            },
        }
    }

    /// The step after the API has replied to the query: to finish with the
    /// data, or to fail. The data is the body of the answer, with the box
    /// that was asked for, the time that the fetch took, and the number of
    /// elements if the body tells it.
    pub fn after_query(
        &self,
        bbox: BoundingBox,
        area_m2: u64,
        reply: QueryReply,
        elapsed_ms: u64,
    ) -> (r: FetchStep)
        ensures
            match reply {
                QueryReply::Failed(error) => r matches FetchStep::Fail(e) && e@ == network_failure(
                    error@,
                ),
                QueryReply::Answered { status, body } => if status != 200 {
                    r matches FetchStep::Fail(e) && e@ == status_failure(status)
                } else {
                    &&& r matches FetchStep::Finish(data)
                    &&& data.raw_data == body
                    &&& data.format == OsmDataFormat::Json
                    &&& data.bounding_box == bbox
                    &&& data.metadata.source@ == self.base_url@
                    &&& data.metadata.provider_type@ == "overpass"@
                    &&& data.metadata.processing_time_ms == Some(elapsed_ms)
                    &&& data.metadata.element_count == count_of_length(elements_length(body@))
                    &&& data.metadata.extra@ == Self::fetch_extra(
                        encode_utf8(body@).len(),
                        area_m2 as nat,
                        bbox,
                    )
                },
            },
    {
        match reply {
            QueryReply::Failed(error) => FetchStep::Fail(Self::request_failed(&error)),
            QueryReply::Answered { status, body } => {
                match Self::check_status(status) {
                    Err(e) => FetchStep::Fail(e),
                    Ok(_) => {
                        let element_count = Self::parse_element_count(body.as_str());
                        let size = body.as_str().as_bytes().len();
                        let metadata = self.fetch_metadata(
                            size,
                            area_m2,
                            &bbox,
                            elapsed_ms,
                            element_count,
                        );
                        FetchStep::Finish(
                            OsmData {
                                raw_data: body,
                                format: OsmDataFormat::Json,
                                bounding_box: bbox,
                                metadata,
                            },
                        )
                    },
                }
            },
        }
    }

    /// Whether a reply to the availability query says that the API can be
    /// used.
    pub fn availability(reply: &QueryReply) -> (r: Result<(), OsmTilesError>)
        ensures
            match r {
                Ok(_) => availability_outcome(*reply) is Ok,
                Err(e) => availability_outcome(*reply) == Err::<(), ErrorView>(e@),
            },
    {
        match reply {
            QueryReply::Failed(error) => Err(Self::request_failed(error)),
            QueryReply::Answered { status, body } => Self::check_status(*status),
        }
    }
}

} // verus!

//! The errors of the library.

use vstd::prelude::*;
use vstd::std_specs::convert::FromSpecImpl;
use vstd::string::*;
use crate::text::{joined, decimal, u64_to_string};

verus! {

/// What can go wrong on the network.
#[derive(Debug)]
pub enum NetworkError {
    /// The server answered with a failure status.
    HttpError { status: u16 },
    /// The request took too long.
    Timeout { seconds: u64 },
    /// The connection failed.
    Connection { message: String },
    /// The address is not a valid URL.
    InvalidUrl { url: String },
}

/// The mathematical model of a [`NetworkError`].
pub enum NetworkErrorView {
    HttpError { status: u16 },
    Timeout { seconds: u64 },
    Connection { message: Seq<char> },
    InvalidUrl { url: Seq<char> },
}

impl NetworkErrorView {
    /// The text that describes the error.
    pub open spec fn message(self) -> Seq<char> {
        match self {
            NetworkErrorView::HttpError { status } => "HTTP request failed: "@ + decimal(
                status as nat,
            ),
            NetworkErrorView::Timeout { seconds } => "Request timed out after "@ + decimal(
                seconds as nat,
            ) + " seconds"@,
            NetworkErrorView::Connection { message } => "Connection error: "@ + message,
            NetworkErrorView::InvalidUrl { url } => "Invalid URL: "@ + url,
        }
    }
}

impl View for NetworkError {
    type V = NetworkErrorView;

    open spec fn view(&self) -> NetworkErrorView {
        match self {
            NetworkError::HttpError { status } => NetworkErrorView::HttpError { status: *status },
            NetworkError::Timeout { seconds } => NetworkErrorView::Timeout { seconds: *seconds },
            NetworkError::Connection { message } => NetworkErrorView::Connection {
                message: message@,
            },
            NetworkError::InvalidUrl { url } => NetworkErrorView::InvalidUrl { url: url@ },
        }
    }
}

impl NetworkError {
    /// The text that describes the error.
    pub fn message(&self) -> (r: String)
        ensures
            r@ == self@.message(),
    {
        match self {
            NetworkError::HttpError { status } => joined(
                "HTTP request failed: ",
                u64_to_string(*status as u64).as_str(),
            ),
            NetworkError::Timeout { seconds } => {
                let mut s = joined("Request timed out after ", u64_to_string(*seconds).as_str());
                s.append(" seconds");
                s
            },
            NetworkError::Connection { message } => joined("Connection error: ", message.as_str()),
            NetworkError::InvalidUrl { url } => joined("Invalid URL: ", url.as_str()),
        }
    }
}

/// What can go wrong while map data is fetched and turned into a grid.
#[derive(Debug)]
pub enum OsmTilesError {
    /// The download failed.
    Network(NetworkError),
    /// The data is malformed.
    Parse(String),
    /// The configuration is invalid.
    Config(String),
    /// A coordinate or a region could not be resolved.
    Geographic(String),
    /// The grid could not be generated.
    GridGeneration(String),
}

/// The mathematical model of an [`OsmTilesError`].
pub enum ErrorView {
    Network(NetworkErrorView),
    Parse(Seq<char>),
    Config(Seq<char>),
    Geographic(Seq<char>),
    GridGeneration(Seq<char>),
}

impl ErrorView {
    /// The text that describes the error.
    pub open spec fn message(self) -> Seq<char> {
        match self {
            ErrorView::Network(e) => "Network error: "@ + e.message(),
            ErrorView::Parse(m) => "Parse error: "@ + m,
            ErrorView::Config(m) => "Configuration error: "@ + m,
            ErrorView::Geographic(m) => "Geographic error: "@ + m,
            ErrorView::GridGeneration(m) => "Grid generation error: "@ + m,
        }
    }
}

impl View for OsmTilesError {
    type V = ErrorView;

    open spec fn view(&self) -> ErrorView {
        match self {
            OsmTilesError::Network(e) => ErrorView::Network(e@),
            OsmTilesError::Parse(m) => ErrorView::Parse(m@),
            OsmTilesError::Config(m) => ErrorView::Config(m@),
            OsmTilesError::Geographic(m) => ErrorView::Geographic(m@),
            OsmTilesError::GridGeneration(m) => ErrorView::GridGeneration(m@),
        }
    }
}

impl OsmTilesError {
    /// The text that describes the error.
    pub fn message(&self) -> (r: String)
        ensures
            r@ == self@.message(),
    {
        match self {
            OsmTilesError::Network(e) => joined("Network error: ", e.message().as_str()),
            OsmTilesError::Parse(m) => joined("Parse error: ", m.as_str()),
            OsmTilesError::Config(m) => joined("Configuration error: ", m.as_str()),
            OsmTilesError::Geographic(m) => joined("Geographic error: ", m.as_str()),
            OsmTilesError::GridGeneration(m) => joined("Grid generation error: ", m.as_str()),
        }
    }

    /// The parse error with the given text.
    pub fn parse(text: &str) -> (r: Self)
        ensures
            r@ == ErrorView::Parse(text@),
    {
        OsmTilesError::Parse(text.to_owned())
    }

    /// The parse error for text that is not JSON, with the decoder's own
    /// words appended.
    pub fn invalid_json(detail: &str) -> (r: Self)
        ensures
            r@ == ErrorView::Parse("Invalid JSON: "@ + detail@),
    {
        OsmTilesError::Parse(joined("Invalid JSON: ", detail))
    }
}

impl From<NetworkError> for OsmTilesError {
    fn from(error: NetworkError) -> (r: Self) {
        OsmTilesError::Network(error)
    }
}

impl FromSpecImpl<NetworkError> for OsmTilesError {
    open spec fn obeys_from_spec() -> bool {
        true
    }

    open spec fn from_spec(error: NetworkError) -> Self {
        OsmTilesError::Network(error)
    }
}

} // verus!

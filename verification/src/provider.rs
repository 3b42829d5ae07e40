//! The providers by name.

use vstd::prelude::*;
use vstd::string::*;
use crate::error::{ErrorView, OsmTilesError};
use crate::mock::{MockProvider, ProviderCapabilities};
use crate::overpass::{OverpassProvider, DEFAULT_OVERPASS_URL};
use crate::text::{joined, str_eq};

verus! {

/// A provider of map data, of one of the kinds that have a name.
#[derive(Debug)]
pub enum Provider {
    Overpass(OverpassProvider),
    Mock(MockProvider),
}

impl Provider {
    /// The kind of the provider.
    pub fn provider_type(&self) -> (r: &'static str)
        ensures
            r@ == match self {
                Provider::Overpass(_) => "overpass"@,
                Provider::Mock(_) => "mock"@,
            },
    {
        match self {
            Provider::Overpass(p) => p.provider_type(),
            Provider::Mock(p) => p.provider_type(),
        }
    }

    /// What the provider can do.
    pub fn capabilities(&self) -> (r: ProviderCapabilities)
        ensures
            match self {
                Provider::Overpass(_) => OverpassProvider::is_capabilities(r),
                Provider::Mock(_) => MockProvider::is_capabilities(r),
            },
    {
        match self {
            Provider::Overpass(p) => p.capabilities(),
            Provider::Mock(p) => p.capabilities(),
        }
    }
}

/// The text of the error for a provider name that is not known.
pub open spec fn unknown_provider_message(name: Seq<char>) -> Seq<char> {
    "Unknown provider: '"@ + name + "'. Available providers: [\"overpass\", \"mock\"]"@
}

/// Makes providers.
#[derive(Debug, Clone, Copy)]
pub struct ProviderFactory;

impl ProviderFactory {
    /// A provider for the public Overpass API.
    pub fn overpass() -> (r: OverpassProvider)
        ensures
            r.base_url@ == DEFAULT_OVERPASS_URL@,
            r.http_config.is_default(),
            r.custom_timeout is None,
    {
        OverpassProvider::new()
    }

    /// A provider for the Overpass API at another address.
    pub fn overpass_with_url(url: &str) -> (r: OverpassProvider)
        ensures
            r.base_url@ == url@,
            r.http_config.is_default(),
            r.custom_timeout is None,
    {
        OverpassProvider::with_base_url(url)
    }

    /// A mock provider with the default test data.
    pub fn mock() -> (r: MockProvider)
        ensures
            r.data() == MockProvider::default_data(),
            !r.fails(),
    {
        MockProvider::new()
    }

    /// A mock provider with the given data.
    pub fn mock_with_data(data: &str) -> (r: MockProvider)
        ensures
            r.data() == data@,
            !r.fails(),
    {
        MockProvider::with_data(data)
    }

    /// The names of the providers that can be made by name.
    pub fn available_providers() -> (r: Vec<&'static str>)
        ensures
            r@.len() == 2,
            r@[0]@ == "overpass"@,
            r@[1]@ == "mock"@,
    {
        let mut names: Vec<&'static str> = Vec::new();
        names.push("overpass");
        names.push("mock");
        names
    }

    /// The provider of the given name with its default settings, or the
    /// configuration error for a name that is not known.
    pub fn create_provider(name: &str) -> (r: Result<Provider, OsmTilesError>)
        ensures
            match r {
                Ok(Provider::Overpass(p)) => name@ == "overpass"@ && p.base_url@
                    == DEFAULT_OVERPASS_URL@ && p.http_config.is_default() && p.custom_timeout
                    is None,
                Ok(Provider::Mock(p)) => name@ != "overpass"@ && name@ == "mock"@ && p.data()
                    == MockProvider::default_data() && !p.fails(),
                Err(e) => name@ != "overpass"@ && name@ != "mock"@ && e@ == ErrorView::Config(
                    unknown_provider_message(name@),
                ),
            },
    {
        if str_eq(name, "overpass") {
            Ok(Provider::Overpass(Self::overpass()))
        } else if str_eq(name, "mock") {
            Ok(Provider::Mock(Self::mock()))
        } else {
            let mut message = joined("Unknown provider: '", name);
            message.append("'. Available providers: [\"overpass\", \"mock\"]");
            Err(OsmTilesError::Config(message))
        }
    }
}

} // verus!

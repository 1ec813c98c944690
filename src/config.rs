use vstd::prelude::*;

use crate::client::{MLFLowRestClient, DEFAULT_HOST};
use crate::err::{fails_with, MLFlowError, MLFlowErrorView};
use crate::{opt_view, MLFlowResult};

verus! {

pub const EMPTY_URI_MESSAGE: &'static str = "empty tracking server uri";

pub const MISSING_URI_MESSAGE: &'static str = "tracking server uri was not set";

/// A validated tracking server URI paired with a client for it.
pub struct Config {
    tracking_server_uri: String,
    client: MLFLowRestClient,
}

impl Config {
    /// The URI is never empty, and the client talks to exactly that URI.
    #[verifier::type_invariant]
    spec fn inv(&self) -> bool {
        &&& self.tracking_server_uri@.len() > 0
        &&& self.client@ == self.tracking_server_uri@
    }
}

impl View for Config {
    type V = Seq<char>;

    /// The tracking server URI.
    closed spec fn view(&self) -> Seq<char> {
        self.tracking_server_uri@
    }
}

/// Collects the tracking server URI before it is validated.
#[derive(Clone, Debug)]
pub struct ConfigBuilder {
    pub tracking_server_uri: Option<String>,
}

impl Config {
    /// A builder preset to the default local endpoint.
    pub fn default() -> (r: ConfigBuilder)
        ensures
            opt_view(r.tracking_server_uri) == Some(DEFAULT_HOST@),
    {
        ConfigBuilder::default()
    }

    /// The client bound to the configured URI.
    pub fn get_client(&self) -> (r: &MLFLowRestClient)
        ensures
            r@ == self@,
    {
        proof {
            use_type_invariant(self);
        }
        &self.client
    }

    /// The configured URI, never empty.
    pub fn get_tracking_server_uri(&self) -> (r: &str)
        ensures
            r@ == self@,
            r@.len() > 0,
    {
        proof {
            use_type_invariant(self);
        }
        self.tracking_server_uri.as_str()
    }
}

/// Whether a builder holding `uri` validates.
pub open spec fn uri_is_valid(uri: Option<Seq<char>>) -> bool {
    uri matches Some(u) && u.len() > 0
}

/// How validating a builder holding `uri` ends.
pub open spec fn try_build_outcome(uri: Option<Seq<char>>, r: MLFlowResult<Config>) -> bool {
    match uri {
        None => fails_with(r, MLFlowErrorView::ConfigError(MISSING_URI_MESSAGE@)),
        Some(u) => if u.len() == 0 {
            fails_with(r, MLFlowErrorView::ConfigError(EMPTY_URI_MESSAGE@))
        } else {
            r matches Ok(c) && c@ == u
        },
    }
}

impl ConfigBuilder {
    /// A builder preset to the default local endpoint.
    pub fn default() -> (r: ConfigBuilder)
        ensures
            opt_view(r.tracking_server_uri) == Some(DEFAULT_HOST@),
    {
        ConfigBuilder { tracking_server_uri: Some(String::from_str(DEFAULT_HOST)) }
    }

    /// Sets the URI explicitly.
    pub fn with_tracking_server_uri(self, tracking_server_uri: &str) -> (r: ConfigBuilder)
        ensures
            opt_view(r.tracking_server_uri) == Some(tracking_server_uri@),
    {
        ConfigBuilder { tracking_server_uri: Some(String::from_str(tracking_server_uri)) }
    }

    /// Validates the URI: an empty one and a missing one are config errors.
    pub fn try_build(self) -> (r: MLFlowResult<Config>)
        ensures
            try_build_outcome(opt_view(self.tracking_server_uri), r),
    {
        match self.tracking_server_uri {
            Some(uri) => {
                if uri.as_str().unicode_len() == 0 {
                    Err(MLFlowError::ConfigError(String::from_str(EMPTY_URI_MESSAGE)))
                } else {
                    let client = MLFLowRestClient::new(uri.as_str());
                    Ok(Config { tracking_server_uri: uri, client })
                }
            },
            None => Err(MLFlowError::ConfigError(String::from_str(MISSING_URI_MESSAGE))),
        }
    }

    /// Validates a URI that is known to be valid.
    pub fn build(self) -> (r: Config)
        requires
            uri_is_valid(opt_view(self.tracking_server_uri)),
        ensures
            opt_view(self.tracking_server_uri) == Some(r@),
    {
        match self.try_build() {
            Ok(c) => c,
            Err(_) => vstd::pervasive::unreached(),
        }
    }
}

} // verus!

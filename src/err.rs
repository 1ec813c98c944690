use vstd::prelude::*;

verus! {

/// The closed set of failures that the library reports.
#[derive(Debug, Clone)]
pub enum MLFlowError {
    /// Structurally invalid builder input, raised before any network activity.
    ExperimentBuilderError(String),
    /// The tracking server answered a retrieval with HTTP 404.
    ExperimentNotFound(String),
    /// Reserved for client-side faults; no operation raises it yet.
    ClientError(String),
    /// Reserved for duplicate resources; no operation raises it yet.
    ResourceAlreadyExists(String),
    /// Transport failures, undecodable bodies and unexpected statuses.
    UnknownError(String),
    /// A missing or empty tracking server URI.
    ConfigError(String),
}

/// The mathematical value of an error: its kind and its message.
pub enum MLFlowErrorView {
    ExperimentBuilderError(Seq<char>),
    ExperimentNotFound(Seq<char>),
    ClientError(Seq<char>),
    ResourceAlreadyExists(Seq<char>),
    UnknownError(Seq<char>),
    ConfigError(Seq<char>),
}

impl View for MLFlowError {
    type V = MLFlowErrorView;

    open spec fn view(&self) -> MLFlowErrorView {
        match self {
            MLFlowError::ExperimentBuilderError(m) => MLFlowErrorView::ExperimentBuilderError(m@),
            MLFlowError::ExperimentNotFound(m) => MLFlowErrorView::ExperimentNotFound(m@),
            MLFlowError::ClientError(m) => MLFlowErrorView::ClientError(m@),
            MLFlowError::ResourceAlreadyExists(m) => MLFlowErrorView::ResourceAlreadyExists(m@),
            MLFlowError::UnknownError(m) => MLFlowErrorView::UnknownError(m@),
            MLFlowError::ConfigError(m) => MLFlowErrorView::ConfigError(m@),
        }
    }
}

pub const BUILDER_PREFIX: &'static str = "ExperimentBuilderError: ";

pub const CLIENT_PREFIX: &'static str = "ClientError: ";

pub const EXISTS_PREFIX: &'static str = "ResourceAlreadyExists: ";

pub const UNKNOWN_PREFIX: &'static str = "UnknownError: ";

/// The human-readable rendering of an error: a kind prefix followed by the
/// message, except for not-found and config errors, which show the message alone.
pub open spec fn display(e: MLFlowErrorView) -> Seq<char> {
    match e {
        MLFlowErrorView::ExperimentBuilderError(m) => BUILDER_PREFIX@ + m,
        MLFlowErrorView::ExperimentNotFound(m) => m,
        MLFlowErrorView::ClientError(m) => CLIENT_PREFIX@ + m,
        MLFlowErrorView::ResourceAlreadyExists(m) => EXISTS_PREFIX@ + m,
        MLFlowErrorView::UnknownError(m) => UNKNOWN_PREFIX@ + m,
        MLFlowErrorView::ConfigError(m) => m,
    }
}

/// `r` failed with an error whose value is `e`.
pub open spec fn fails_with<T>(r: Result<T, MLFlowError>, e: MLFlowErrorView) -> bool {
    r matches Err(x) && x@ == e
}

impl MLFlowError {
    /// Renders the error as text.
    pub fn to_string(&self) -> (r: String)
        ensures
            r@ == display(self@),
    {
        match self {
            MLFlowError::ExperimentBuilderError(m) => String::from_str(BUILDER_PREFIX).concat(
                m.as_str(),
            ),
            MLFlowError::ExperimentNotFound(m) => m.clone(),
            MLFlowError::ClientError(m) => String::from_str(CLIENT_PREFIX).concat(m.as_str()),
            MLFlowError::ResourceAlreadyExists(m) => String::from_str(EXISTS_PREFIX).concat(
                m.as_str(),
            ),
            MLFlowError::UnknownError(m) => String::from_str(UNKNOWN_PREFIX).concat(m.as_str()),
            MLFlowError::ConfigError(m) => m.clone(),
        }
    }
}

} // verus!

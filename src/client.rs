use vstd::prelude::*;

use crate::err::{fails_with, MLFlowError, MLFlowErrorView};
use crate::{Experiment, MLFlowResult};

verus! {

/// The endpoint used when no tracking server was configured.
pub const DEFAULT_HOST: &'static str = "http://localhost:5000";

pub const CREATE_PATH: &'static str = "/api/2.0/mlflow/experiments/create";

pub const GET_PATH: &'static str = "/api/2.0/mlflow/experiments/get";

pub const GET_BY_NAME_PATH: &'static str = "/api/2.0/mlflow/experiments/get-by-name";

pub const ID_PARAM: &'static str = "experiment_id";

pub const NAME_PARAM: &'static str = "experiment_name";

pub const NOT_FOUND_STATUS: u16 = 404;

pub const NOT_FOUND_MESSAGE: &'static str = "experiment was not found";

pub const FIND_FAILED_MESSAGE: &'static str = "error finding experiment";

pub const CREATE_FAILED_MESSAGE: &'static str = "Could not create experiment";

/// The body of a successful creation: the identifier the server assigned.
#[derive(Clone, Debug)]
pub struct CreateExperimentResponse {
    pub experiment_id: String,
}

/// The body of a successful retrieval.
#[derive(Clone, Debug)]
pub struct GetExperimentResponse {
    pub experiment: Experiment,
}

/// A handle on a tracking server, identified by its base URL.
#[derive(Debug)]
pub struct MLFLowRestClient {
    host: String,
}

impl Clone for MLFLowRestClient {
    fn clone(&self) -> (r: Self)
        ensures
            r == *self,
    {
        MLFLowRestClient { host: self.host.clone() }
    }
}

impl View for MLFLowRestClient {
    type V = Seq<char>;

    /// The base URL that every endpoint path is appended to.
    closed spec fn view(&self) -> Seq<char> {
        self.host@
    }
}

impl Default for MLFLowRestClient {
    /// A handle with an empty base URL.
    fn default() -> (r: Self)
        ensures
            r@ == Seq::<char>::empty(),
    {
        MLFLowRestClient { host: String::new() }
    }
}

/// A GET request with a single query parameter.
#[derive(Clone, Debug)]
pub struct GetRequest {
    pub url: String,
    pub param: String,
    pub value: String,
}

/// What the transport observed for one exchange: the HTTP status, and the
/// body decoded as `T` (or the decoder's message). The body is consulted
/// only for a successful status.
#[derive(Debug)]
pub struct HttpReply<T> {
    pub status: u16,
    pub body: Result<T, String>,
}

/// The statuses of the 2xx class, as `http::StatusCode::is_success` has them.
pub open spec fn is_success(status: u16) -> bool {
    200 <= status < 300
}

fn status_is_success(status: u16) -> (r: bool)
    ensures
        r == is_success(status),
{
    200 <= status && status < 300
}

/// The classification of a retrieval exchange, `exchange` being either the
/// transport's reply or the text of a transport failure.
pub open spec fn get_outcome(
    exchange: Result<HttpReply<GetExperimentResponse>, String>,
    r: MLFlowResult<GetExperimentResponse>,
) -> bool {
    match exchange {
        Err(t) => fails_with(r, MLFlowErrorView::UnknownError(t@)),
        Ok(reply) => if is_success(reply.status) {
            match reply.body {
                Ok(v) => r == Ok::<GetExperimentResponse, MLFlowError>(v),
                Err(d) => fails_with(r, MLFlowErrorView::UnknownError(d@)),
            }
        } else if reply.status == NOT_FOUND_STATUS {
            fails_with(r, MLFlowErrorView::ExperimentNotFound(NOT_FOUND_MESSAGE@))
        } else {
            fails_with(r, MLFlowErrorView::UnknownError(FIND_FAILED_MESSAGE@))
        },
    }
}

/// The classification of a creation exchange: every failure is an unknown error.
pub open spec fn create_outcome(
    exchange: Result<HttpReply<CreateExperimentResponse>, String>,
    r: MLFlowResult<CreateExperimentResponse>,
) -> bool {
    match exchange {
        Err(t) => fails_with(r, MLFlowErrorView::UnknownError(t@)),
        Ok(reply) => if is_success(reply.status) {
            match reply.body {
                Ok(v) => r == Ok::<CreateExperimentResponse, MLFlowError>(v),
                Err(d) => fails_with(r, MLFlowErrorView::UnknownError(d@)),
            }
        } else {
            fails_with(r, MLFlowErrorView::UnknownError(CREATE_FAILED_MESSAGE@))
        },
    }
}

/// Classifies the outcome of a retrieval (by identifier or by name).
pub fn process_get(exchange: Result<HttpReply<GetExperimentResponse>, String>) -> (r: MLFlowResult<
    GetExperimentResponse,
>)
    ensures
        get_outcome(exchange, r),
{
    match exchange {
        Ok(reply) => {
            if status_is_success(reply.status) {
                match reply.body {
                    Ok(v) => Ok(v),
                    Err(d) => Err(MLFlowError::UnknownError(d)),
                }
            } else if reply.status == NOT_FOUND_STATUS {
                Err(MLFlowError::ExperimentNotFound(String::from_str(NOT_FOUND_MESSAGE)))
            } else {
                Err(MLFlowError::UnknownError(String::from_str(FIND_FAILED_MESSAGE)))
            }
        },
        Err(t) => Err(MLFlowError::UnknownError(t)),
    }
}

/// Classifies the outcome of a creation.
pub fn process_create(exchange: Result<HttpReply<CreateExperimentResponse>, String>) -> (r:
    MLFlowResult<CreateExperimentResponse>)
    ensures
        create_outcome(exchange, r),
{
    match exchange {
        Ok(reply) => {
            if status_is_success(reply.status) {
                match reply.body {
                    Ok(v) => Ok(v),
                    Err(d) => Err(MLFlowError::UnknownError(d)),
                }
            } else {
                Err(MLFlowError::UnknownError(String::from_str(CREATE_FAILED_MESSAGE)))
            }
        },
        Err(t) => Err(MLFlowError::UnknownError(t)),
    }
}

impl MLFLowRestClient {
    /// A handle on the tracking server at `host`.
    pub fn new(host: &str) -> (r: Self)
        ensures
            r@ == host@,
    {
        MLFLowRestClient { host: String::from_str(host) }
    }

    /// The base URL of the tracking server.
    pub fn host(&self) -> (r: &str)
        ensures
            r@ == self@,
    {
        self.host.as_str()
    }

    fn endpoint(&self, path: &str) -> (r: String)
        ensures
            r@ == self@ + path@,
    {
        self.host.clone().concat(path)
    }

    /// The URL that a creation is posted to.
    pub fn create_experiment_url(&self) -> (r: String)
        ensures
            r@ == self@ + CREATE_PATH@,
    {
        self.endpoint(CREATE_PATH)
    }

    /// The request that retrieves the experiment with identifier `id`.
    pub fn get_experiment_by_id_request(&self, id: &str) -> (r: GetRequest)
        ensures
            r.url@ == self@ + GET_PATH@,
            r.param@ == ID_PARAM@,
            r.value@ == id@,
    {
        GetRequest {
            url: self.endpoint(GET_PATH),
            param: String::from_str(ID_PARAM),
            value: String::from_str(id),
        }
    }

    /// The request that retrieves the experiment named `name`.
    pub fn get_experiment_by_name_request(&self, name: &str) -> (r: GetRequest)
        ensures
            r.url@ == self@ + GET_BY_NAME_PATH@,
            r.param@ == NAME_PARAM@,
            r.value@ == name@,
    {
        GetRequest {
            url: self.endpoint(GET_BY_NAME_PATH),
            param: String::from_str(NAME_PARAM),
            value: String::from_str(name),
        }
    }
}

} // verus!

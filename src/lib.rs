//! A client library for the experiment endpoints of an MLflow tracking server.
//!
//! The library decides everything that does not need the network: which
//! request an operation sends, and how the tracking server's answer becomes an
//! [`Experiment`] or an [`MLFlowError`]. Sending the request and decoding the
//! JSON body are left to the caller, who hands the outcome back.
use vstd::prelude::*;

pub mod client;
pub mod config;
pub mod err;
pub mod lemmas;

pub use client::{
    process_create, process_get, CreateExperimentResponse, GetExperimentResponse, GetRequest,
    HttpReply, MLFLowRestClient,
};
pub use config::{Config, ConfigBuilder};
pub use err::{MLFlowError, MLFlowErrorView};

use client::DEFAULT_HOST;
use err::{display, fails_with};

verus! {

/// The result of every fallible operation of the library.
pub type MLFlowResult<T> = Result<T, MLFlowError>;

pub const EMPTY_NAME_MESSAGE: &'static str = "name cannot be empty";

/// A key/value annotation of an experiment. Keys need not be unique.
#[derive(Debug)]
pub struct ExperimentTag {
    pub key: String,
    pub value: String,
}

impl View for ExperimentTag {
    type V = (Seq<char>, Seq<char>);

    open spec fn view(&self) -> (Seq<char>, Seq<char>) {
        (self.key@, self.value@)
    }
}

impl Clone for ExperimentTag {
    fn clone(&self) -> (r: Self)
        ensures
            r == *self,
    {
        ExperimentTag { key: self.key.clone(), value: self.value.clone() }
    }
}

impl<'a> From<(&'a str, &'a str)> for ExperimentTag {
    /// The tag with the pair's first element as key and its second as value.
    fn from(kv: (&'a str, &'a str)) -> (r: Self)
        ensures
            r@ == (kv.0@, kv.1@),
    {
        ExperimentTag { key: String::from_str(kv.0), value: String::from_str(kv.1) }
    }
}

/// A tag owns its strings, which no spec function can build from borrowed
/// ones; `from` states its result by its own `ensures` instead.
impl<'a> vstd::std_specs::convert::FromSpecImpl<(&'a str, &'a str)> for ExperimentTag {
    open spec fn obeys_from_spec() -> bool {
        false
    }

    open spec fn from_spec(v: (&'a str, &'a str)) -> Self {
        arbitrary()
    }
}

/// The values of a sequence of tags.
pub open spec fn tags_view(tags: Seq<ExperimentTag>) -> Seq<(Seq<char>, Seq<char>)> {
    tags.map_values(|t: ExperimentTag| t@)
}

/// The tags that a sequence of key/value pairs converts to.
pub open spec fn pairs_view(pairs: Seq<(&str, &str)>) -> Seq<(Seq<char>, Seq<char>)> {
    pairs.map_values(|p: (&str, &str)| (p.0@, p.1@))
}

/// The value of an optional string.
pub open spec fn opt_view(o: Option<String>) -> Option<Seq<char>> {
    match o {
        Some(s) => Some(s@),
        None => None,
    }
}

/// Anything that may carry a server-assigned experiment identifier.
pub trait ExperimentIdentifier {
    fn experiment_id(&self) -> Option<String>;
}

/// A named tracking container. The identifier is absent until the server
/// assigns one; the client handle is never part of the wire representation.
#[derive(Clone, Debug)]
pub struct Experiment {
    experiment_id: Option<String>,
    pub name: String,
    pub artifact_location: Option<String>,
    pub tags: Vec<ExperimentTag>,
    client: MLFLowRestClient,
}

pub struct ExperimentView {
    pub experiment_id: Option<Seq<char>>,
    pub name: Seq<char>,
    pub artifact_location: Option<Seq<char>>,
    pub tags: Seq<(Seq<char>, Seq<char>)>,
    pub host: Seq<char>,
}

impl View for Experiment {
    type V = ExperimentView;

    closed spec fn view(&self) -> ExperimentView {
        ExperimentView {
            experiment_id: opt_view(self.experiment_id),
            name: self.name@,
            artifact_location: opt_view(self.artifact_location),
            tags: tags_view(self.tags@),
            host: self.client@,
        }
    }
}

impl ExperimentIdentifier for Experiment {
    fn experiment_id(&self) -> (r: Option<String>)
        ensures
            opt_view(r) == self@.experiment_id,
    {
        match &self.experiment_id {
            Some(id) => Some(id.clone()),
            None => None,
        }
    }
}

fn copy_tags(tags: &Vec<ExperimentTag>) -> (r: Vec<ExperimentTag>)
    ensures
        r@ == tags@,
{
    let mut r: Vec<ExperimentTag> = Vec::new();
    let mut i: usize = 0;
    while i < tags.len()
        invariant
            i <= tags@.len(),
            r@ == tags@.subrange(0, i as int),
        decreases tags@.len() - i,
    {
        r.push(tags[i].clone());
        i = i + 1;
    }
    assert(r@ =~= tags@);
    r
}

fn copy_opt(o: &Option<String>) -> (r: Option<String>)
    ensures
        r == *o,
{
    match o {
        Some(s) => Some(s.clone()),
        None => None,
    }
}

impl Experiment {
    /// An experiment as received from the tracking server, bound to no server.
    pub fn from_parts(
        experiment_id: Option<String>,
        name: String,
        artifact_location: Option<String>,
        tags: Vec<ExperimentTag>,
    ) -> (r: Experiment)
        ensures
            r@ == (ExperimentView {
                experiment_id: opt_view(experiment_id),
                name: name@,
                artifact_location: opt_view(artifact_location),
                tags: tags_view(tags@),
                host: Seq::<char>::empty(),
            }),
    {
        Experiment { experiment_id, name, artifact_location, tags, client: MLFLowRestClient::default() }
    }
}

/// Collects what a new experiment is created from.
#[derive(Debug)]
pub struct ExperimentBuilder {
    name: String,
    artifact_location: Option<String>,
    tags: Vec<ExperimentTag>,
    client: MLFLowRestClient,
}

pub struct ExperimentBuilderView {
    pub name: Seq<char>,
    pub artifact_location: Option<Seq<char>>,
    pub tags: Seq<(Seq<char>, Seq<char>)>,
    pub host: Seq<char>,
}

impl ExperimentBuilder {
    /// The name is never empty.
    #[verifier::type_invariant]
    spec fn inv(&self) -> bool {
        self.name@.len() > 0
    }
}

impl Clone for ExperimentBuilder {
    fn clone(&self) -> (r: Self)
        ensures
            r@ == self@,
    {
        proof {
            use_type_invariant(self);
        }
        ExperimentBuilder {
            name: self.name.clone(),
            artifact_location: copy_opt(&self.artifact_location),
            tags: copy_tags(&self.tags),
            client: self.client.clone(),
        }
    }
}

impl View for ExperimentBuilder {
    type V = ExperimentBuilderView;

    closed spec fn view(&self) -> ExperimentBuilderView {
        ExperimentBuilderView {
            name: self.name@,
            artifact_location: opt_view(self.artifact_location),
            tags: tags_view(self.tags@),
            host: self.client@,
        }
    }
}

/// The experiment that a builder configured as `b` sends for creation.
pub open spec fn draft(b: ExperimentBuilderView) -> ExperimentView {
    ExperimentView {
        experiment_id: None,
        name: b.name,
        artifact_location: b.artifact_location,
        tags: b.tags,
        host: b.host,
    }
}

/// That experiment once the server assigned it the identifier `id`.
pub open spec fn created(b: ExperimentBuilderView, id: Seq<char>) -> ExperimentView {
    ExperimentView { experiment_id: Some(id), ..draft(b) }
}

/// How `build` turns the answer to a creation into `r`, for a builder
/// configured as `b`.
pub open spec fn build_outcome(
    b: ExperimentBuilderView,
    created_response: MLFlowResult<CreateExperimentResponse>,
    r: MLFlowResult<Experiment>,
) -> bool {
    match created_response {
        Ok(resp) => r matches Ok(e) && e@ == created(b, resp.experiment_id@),
        Err(x) => r == Err::<Experiment, MLFlowError>(x),
    }
}

impl ExperimentBuilder {
    /// A builder for an experiment named `name`, bound to the default server.
    /// An empty name is refused.
    pub fn new(name: &str) -> (r: MLFlowResult<ExperimentBuilder>)
        ensures
            name@.len() == 0 ==> fails_with(
                r,
                MLFlowErrorView::ExperimentBuilderError(EMPTY_NAME_MESSAGE@),
            ),
            name@.len() > 0 ==> (r matches Ok(b) && b@ == (ExperimentBuilderView {
                name: name@,
                artifact_location: None,
                tags: Seq::empty(),
                host: DEFAULT_HOST@,
            })),
    {
        if name.unicode_len() == 0 {
            return Err(MLFlowError::ExperimentBuilderError(String::from_str(EMPTY_NAME_MESSAGE)));
        }
        let tags: Vec<ExperimentTag> = Vec::new();
        proof {
            assert(tags_view(tags@) =~= Seq::empty());
        }
        Ok(
            ExperimentBuilder {
                name: String::from_str(name),
                artifact_location: None,
                tags,
                client: MLFLowRestClient::new(DEFAULT_HOST),
            },
        )
    }

    /// Appends one tag.
    pub fn with_tag(self, tag: (&str, &str)) -> (r: Self)
        ensures
            r@ == (ExperimentBuilderView { tags: self@.tags.push((tag.0@, tag.1@)), ..self@ }),
    {
        proof {
            use_type_invariant(&self);
        }
        let mut tags = self.tags;
        let ghost before = tags@;
        tags.push(ExperimentTag::from(tag));
        proof {
            assert(tags_view(tags@) =~= tags_view(before).push((tag.0@, tag.1@)));
        }
        ExperimentBuilder { tags, ..self }
    }

    /// Replaces the whole tag list.
    pub fn with_tags(self, tags: Vec<(&str, &str)>) -> (r: Self)
        ensures
            r@ == (ExperimentBuilderView { tags: pairs_view(tags@), ..self@ }),
    {
        proof {
            use_type_invariant(&self);
        }
        let mut converted: Vec<ExperimentTag> = Vec::new();
        let mut i: usize = 0;
        while i < tags.len()
            invariant
                i <= tags@.len(),
                tags_view(converted@) =~= pairs_view(tags@.subrange(0, i as int)),
            decreases tags@.len() - i,
        {
            let ghost before = converted@;
            converted.push(ExperimentTag::from(tags[i]));
            proof {
                assert(tags@.subrange(0, i + 1) =~= tags@.subrange(0, i as int).push(tags@[i as int]));
                assert(tags_view(converted@) =~= tags_view(before).push((tags@[i as int].0@, tags@[i as int].1@)));
            }
            i = i + 1;
        }
        proof {
            assert(tags@.subrange(0, tags@.len() as int) =~= tags@);
        }
        ExperimentBuilder { tags: converted, ..self }
    }

    /// Binds the builder to another tracking server.
    pub fn with_rest_client(self, client: MLFLowRestClient) -> (r: Self)
        ensures
            r@ == (ExperimentBuilderView { host: client@, ..self@ }),
    {
        proof {
            use_type_invariant(&self);
        }
        ExperimentBuilder { client, ..self }
    }

    /// The configured name.
    pub fn name(&self) -> (r: &str)
        ensures
            r@ == self@.name,
            r@.len() > 0,
    {
        proof {
            use_type_invariant(self);
        }
        self.name.as_str()
    }

    /// The configured tags, in order.
    pub fn tags(&self) -> (r: &Vec<ExperimentTag>)
        ensures
            tags_view(r@) == self@.tags,
    {
        &self.tags
    }

    /// The tracking server the experiment is created on.
    pub fn rest_client(&self) -> (r: &MLFLowRestClient)
        ensures
            r@ == self@.host,
    {
        &self.client
    }

    /// The experiment to send for creation: as configured, with no identifier.
    pub fn experiment(&self) -> (r: Experiment)
        ensures
            r@ == draft(self@),
    {
        Experiment {
            experiment_id: None,
            name: self.name.clone(),
            artifact_location: copy_opt(&self.artifact_location),
            tags: copy_tags(&self.tags),
            client: self.client.clone(),
        }
    }

    /// Finishes the builder with the server's answer to the creation of
    /// `self.experiment()`: on success the experiment carries the assigned
    /// identifier, and any error passes through unchanged.
    pub fn build(self, created_response: MLFlowResult<CreateExperimentResponse>) -> (r:
        MLFlowResult<Experiment>)
        ensures
            build_outcome(self@, created_response, r),
            r matches Ok(e) ==> e@.name.len() > 0,
    {
        proof {
            use_type_invariant(&self);
        }
        match created_response {
            Ok(resp) => Ok(
                Experiment {
                    experiment_id: Some(resp.experiment_id),
                    name: self.name,
                    artifact_location: self.artifact_location,
                    tags: self.tags,
                    client: self.client,
                },
            ),
            Err(x) => Err(x),
        }
    }
}

/// How an existing experiment is looked up.
#[derive(Clone, Debug)]
pub enum ExperimentIdentifierType {
    ById(String),
    ByName(String),
}

/// Retrieves an existing experiment from a tracking server.
#[derive(Clone, Debug)]
pub struct ExperimentLoader {
    client: Option<MLFLowRestClient>,
}

impl View for ExperimentLoader {
    type V = Option<Seq<char>>;

    /// The base URL of the configured server, if one was set.
    closed spec fn view(&self) -> Option<Seq<char>> {
        match self.client {
            Some(c) => Some(c@),
            None => None,
        }
    }
}

impl Default for ExperimentLoader {
    /// A loader with no server configured.
    fn default() -> (r: Self)
        ensures
            r@ == None::<Seq<char>>,
    {
        ExperimentLoader { client: None }
    }
}

/// The server a loader configured as `l` talks to.
pub open spec fn loader_host(l: Option<Seq<char>>) -> Seq<char> {
    match l {
        Some(h) => h,
        None => DEFAULT_HOST@,
    }
}

/// How `load` turns the answer `fetched` to a lookup by `id` into `r`.
pub open spec fn load_outcome(
    id: ExperimentIdentifierType,
    fetched: MLFlowResult<GetExperimentResponse>,
    r: MLFlowResult<Experiment>,
) -> bool {
    match fetched {
        Ok(resp) => r == Ok::<Experiment, MLFlowError>(resp.experiment),
        Err(e) => match id {
            ExperimentIdentifierType::ById(_) => fails_with(
                r,
                MLFlowErrorView::UnknownError(display(e@)),
            ),
            ExperimentIdentifierType::ByName(_) => r == Err::<Experiment, MLFlowError>(e),
        },
    }
}

impl ExperimentLoader {
    /// Binds the loader to a tracking server.
    pub fn with_client(self, client: MLFLowRestClient) -> (r: Self)
        ensures
            r@ == Some(client@),
    {
        ExperimentLoader { client: Some(client) }
    }

    /// The tracking server used: the configured one, else the default.
    pub fn rest_client(&self) -> (r: MLFLowRestClient)
        ensures
            r@ == loader_host(self@),
    {
        match &self.client {
            Some(c) => c.clone(),
            None => MLFLowRestClient::new(DEFAULT_HOST),
        }
    }

    /// The retrieval that `load` expects the answer to.
    pub fn request(&self, experiment_identifier: &ExperimentIdentifierType) -> (r: GetRequest)
        ensures
            match experiment_identifier {
                ExperimentIdentifierType::ById(id) => r.url@ == loader_host(self@)
                    + client::GET_PATH@ && r.param@ == client::ID_PARAM@ && r.value@ == id@,
                ExperimentIdentifierType::ByName(name) => r.url@ == loader_host(self@)
                    + client::GET_BY_NAME_PATH@ && r.param@ == client::NAME_PARAM@ && r.value@
                    == name@,
            },
    {
        let client = self.rest_client();
        match experiment_identifier {
            ExperimentIdentifierType::ById(id) => client.get_experiment_by_id_request(id.as_str()),
            ExperimentIdentifierType::ByName(name) => client.get_experiment_by_name_request(
                name.as_str(),
            ),
        }
    }

    /// Finishes the loader with the classified answer to `self.request(..)`.
    /// A lookup by name passes every error through; a lookup by identifier
    /// turns every error into an unknown error carrying the error's text.
    pub fn load(
        self,
        experiment_identifier: ExperimentIdentifierType,
        fetched: MLFlowResult<GetExperimentResponse>,
    ) -> (r: MLFlowResult<Experiment>)
        ensures
            load_outcome(experiment_identifier, fetched, r),
    {
        match experiment_identifier {
            ExperimentIdentifierType::ById(_) => match fetched {
                Ok(resp) => Ok(resp.experiment),
                Err(e) => Err(MLFlowError::UnknownError(e.to_string())),
            },
            ExperimentIdentifierType::ByName(_) => match fetched {
                Ok(resp) => Ok(resp.experiment),
                Err(e) => Err(e),
            },
        }
    }
}

} // verus!

use vstd::prelude::*;

use crate::client::{
    create_outcome, get_outcome, is_success, CreateExperimentResponse, GetExperimentResponse,
    HttpReply, FIND_FAILED_MESSAGE, NOT_FOUND_MESSAGE, NOT_FOUND_STATUS,
};
use crate::config::{try_build_outcome, Config, EMPTY_URI_MESSAGE};
use crate::err::{display, fails_with, MLFlowError, MLFlowErrorView};
use crate::{
    build_outcome, created, load_outcome, Experiment, ExperimentBuilderView,
    ExperimentIdentifierType, MLFlowResult,
};

verus! {

/// A retrieval answered with HTTP 404 fails with the not-found error and its
/// fixed message, whatever the body held.
pub proof fn lemma_get_not_found(
    reply: HttpReply<GetExperimentResponse>,
    r: MLFlowResult<GetExperimentResponse>,
)
    requires
        reply.status == NOT_FOUND_STATUS,
        get_outcome(Ok(reply), r),
    ensures
        fails_with(r, MLFlowErrorView::ExperimentNotFound(NOT_FOUND_MESSAGE@)),
{
}

/// A retrieval answered with a 2xx status and a body that does not decode
/// fails with an unknown error carrying the decoder's message.
pub proof fn lemma_get_undecodable(
    reply: HttpReply<GetExperimentResponse>,
    r: MLFlowResult<GetExperimentResponse>,
)
    requires
        is_success(reply.status),
        reply.body is Err,
        get_outcome(Ok(reply), r),
    ensures
        fails_with(r, MLFlowErrorView::UnknownError(reply.body->Err_0@)),
{
}

/// A retrieval answered with any status outside 2xx other than 404 (such as
/// 500) fails with an unknown error and the fixed lookup-failure message.
pub proof fn lemma_get_unexpected_status(
    reply: HttpReply<GetExperimentResponse>,
    r: MLFlowResult<GetExperimentResponse>,
)
    requires
        !is_success(reply.status),
        reply.status != NOT_FOUND_STATUS,
        get_outcome(Ok(reply), r),
    ensures
        fails_with(r, MLFlowErrorView::UnknownError(FIND_FAILED_MESSAGE@)),
{
}

/// A creation answered with a 2xx status and a decoded identifier yields the
/// experiment as configured on the builder, carrying that identifier.
pub proof fn lemma_build_assigns_identifier(
    b: ExperimentBuilderView,
    reply: HttpReply<CreateExperimentResponse>,
    c: MLFlowResult<CreateExperimentResponse>,
    r: MLFlowResult<Experiment>,
)
    requires
        is_success(reply.status),
        reply.body is Ok,
        create_outcome(Ok(reply), c),
        build_outcome(b, c, r),
    ensures
        r matches Ok(e) && e@ == created(b, reply.body->Ok_0.experiment_id@),
        r matches Ok(e) && e@.experiment_id == Some(reply.body->Ok_0.experiment_id@),
{
}

/// A not-found answer passes through a lookup by name unchanged, while a
/// lookup by identifier turns it into an unknown error with the same message.
pub proof fn lemma_load_not_found(
    id: MLFlowResult<Experiment>,
    name: MLFlowResult<Experiment>,
    id_value: String,
    name_value: String,
    e: MLFlowError,
)
    requires
        e@ == MLFlowErrorView::ExperimentNotFound(NOT_FOUND_MESSAGE@),
        load_outcome(
            ExperimentIdentifierType::ById(id_value),
            Err::<GetExperimentResponse, MLFlowError>(e),
            id,
        ),
        load_outcome(
            ExperimentIdentifierType::ByName(name_value),
            Err::<GetExperimentResponse, MLFlowError>(e),
            name,
        ),
    ensures
        name == Err::<Experiment, MLFlowError>(e),
        fails_with(id, MLFlowErrorView::UnknownError(NOT_FOUND_MESSAGE@)),
{
    assert(display(e@) == NOT_FOUND_MESSAGE@);
}

/// Validating an explicit URI fails with the empty-URI config error exactly
/// when the URI is empty, and otherwise yields a configuration holding it.
pub proof fn lemma_config_uri(uri: Seq<char>, r: MLFlowResult<Config>)
    requires
        try_build_outcome(Some(uri), r),
    ensures
        uri.len() == 0 ==> fails_with(r, MLFlowErrorView::ConfigError(EMPTY_URI_MESSAGE@)),
        uri.len() > 0 ==> (r matches Ok(c) && c@ == uri),
{
}

} // verus!

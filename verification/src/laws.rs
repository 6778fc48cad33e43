//! The pipeline-wide guarantees, stated over the resolution model
//! [`spec_resolve`] that every exec step is proved to follow.

use vstd::prelude::*;

use crate::pipeline::{spec_on_fetch, spec_on_search, spec_resolve};
use crate::types::{
    DocRequest, DocRequestView, FetchDecisionView, FetchOutcome, FetchOutcomeView, SearchOutcome,
    SearchOutcomeView,
};

verus! {

/// Every resolution terminates in exactly one result. The model is a
/// total function of the request and the outcomes of the outbound calls:
/// the primary decision either finishes the resolution or asks for the
/// recovery search — and it asks exactly on a not-found — and in either
/// case the final result is the one value the model assigns.
pub proof fn lemma_resolution_total(
    req: DocRequestView,
    fetch: FetchOutcomeView,
    search: SearchOutcomeView,
)
    requires
        req.wf(),
    ensures
        spec_on_fetch(req, fetch) is Search <==> fetch is NotFound,
        spec_on_fetch(req, fetch) matches FetchDecisionView::Done(r) ==> spec_resolve(
            req,
            fetch,
            search,
        ) == r,
        fetch is NotFound ==> spec_resolve(req, fetch, search) == spec_on_search(req, search),
{
}

/// Two resolutions of requests with the same content, whose outbound
/// calls came back with the same content, produce identical result text:
/// the pipeline is deterministic, so replaying a call against a service
/// that answers the same yields byte-identical output.
pub proof fn lemma_resolution_deterministic(
    req1: DocRequest,
    fetch1: FetchOutcome,
    search1: SearchOutcome,
    req2: DocRequest,
    fetch2: FetchOutcome,
    search2: SearchOutcome,
)
    requires
        req1@ == req2@,
        fetch1@ == fetch2@,
        search1@ == search2@,
    ensures
        spec_resolve(req1@, fetch1@, search1@).text == spec_resolve(req2@, fetch2@, search2@).text,
        spec_resolve(req1@, fetch1@, search1@).is_error == spec_resolve(
            req2@,
            fetch2@,
            search2@,
        ).is_error,
{
}

/// The error flag is set exactly when the primary fetch failed with
/// something other than a not-found: a client error, a server error, or
/// a transport error. A success never sets it, and neither does a
/// not-found, whatever the recovery search does.
pub proof fn lemma_terminal_states(
    req: DocRequestView,
    fetch: FetchOutcomeView,
    search: SearchOutcomeView,
)
    ensures
        spec_resolve(req, fetch, search).is_error <==> (fetch is ClientError || fetch
            is ServerError || fetch is TransportError),
{
}

/// A not-found on the primary fetch never becomes an error, regardless
/// of whether the recovery search succeeded, failed, or found nothing.
pub proof fn lemma_not_found_never_error(req: DocRequestView, search: SearchOutcomeView)
    ensures
        !spec_resolve(req, FetchOutcomeView::NotFound, search).is_error,
{
}

} // verus!

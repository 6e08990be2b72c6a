//! The search for one creature, by id or by name.
//!
//! A search is a fetch whose end is turned into a response. As with a fetch,
//! the lookups are the caller's work: [`search`] and [`resume_search`] say
//! what to look up, and in the end what to answer.

use vstd::prelude::*;
use crate::fetch::{
    FetchError, FetchStep, FetchStepView, LookupOutcome, LookupOutcomeView, PendingFetch,
    PendingFetchView, fetch_next, fetch_pokemon, fetch_result, fetch_start, lemma_fetch_ends,
    resume_fetch,
};
use crate::identifier::validation_of;
use crate::response::{
    ApiResponse, ApiResponseView, error_response, search_response, search_response_of,
};

verus! {

/// The query of a search.
#[derive(Debug, PartialEq, Eq)]
pub struct SearchParams {
    pub id_or_name: String,
}

/// What a search asks of its caller next.
#[derive(Debug, PartialEq, Eq)]
pub enum SearchStep {
    /// Look up `url`, then resume `pending` with the outcome.
    Lookup { url: String, pending: PendingFetch },
    /// Answer with this response; the search is over.
    Respond(ApiResponse),
}

/// The model of a [`SearchStep`].
pub ghost enum SearchStepView {
    Lookup { url: Seq<char>, pending: PendingFetchView },
    Respond(ApiResponseView),
}

impl View for SearchStep {
    type V = SearchStepView;

    open spec fn view(&self) -> SearchStepView {
        match self {
            SearchStep::Lookup { url, pending } => SearchStepView::Lookup {
                url: url@,
                pending: pending@,
            },
            SearchStep::Respond(response) => SearchStepView::Respond(response@),
        }
    }
}

/// The step of a search that a step of its fetch stands for.
pub open spec fn search_step_of(step: FetchStepView) -> SearchStepView {
    match step {
        FetchStepView::Lookup { url, pending } => SearchStepView::Lookup { url, pending },
        FetchStepView::Done(result) => SearchStepView::Respond(search_response_of(result)),
    }
}

/// Turns a step of a fetch into the step of the search that runs it.
fn lift(step: FetchStep) -> (lifted: SearchStep)
    ensures
        lifted@ == search_step_of(step@),
{
    match step {
        FetchStep::Lookup { url, pending } => SearchStep::Lookup { url, pending },
        FetchStep::Done(result) => SearchStep::Respond(search_response(result)),
    }
}

/// Begins the search that `query` asks for.
pub fn search(query: &SearchParams) -> (step: SearchStep)
    ensures
        step@ == search_step_of(fetch_start(query.id_or_name@)),
{
    lift(fetch_pokemon(query.id_or_name.as_str()))
}

/// Resumes a search with the outcome of the lookup that it waited for.
pub fn resume_search(pending: PendingFetch, outcome: LookupOutcome) -> (step: SearchStep)
    ensures
        step@ == search_step_of(fetch_next(pending@, outcome@)),
{
    lift(resume_fetch(pending, outcome))
}

/// The response to a search for `identifier` against an upstream service
/// that answers the lookup of each address as `upstream` says.
pub open spec fn search_outcome(
    identifier: Seq<char>,
    upstream: spec_fn(Seq<char>) -> LookupOutcomeView,
) -> ApiResponseView {
    search_response_of(fetch_result(identifier, upstream))
}

/// Whether a search for `identifier` can end with `response`, when each
/// lookup that it asks for is answered as `upstream` says.
pub open spec fn ends_search(
    identifier: Seq<char>,
    upstream: spec_fn(Seq<char>) -> LookupOutcomeView,
    response: ApiResponseView,
) -> bool {
    match search_step_of(fetch_start(identifier)) {
        SearchStepView::Respond(first) => response == first,
        SearchStepView::Lookup { url, pending } => match search_step_of(
            fetch_next(pending, upstream(url)),
        ) {
            SearchStepView::Respond(second) => response == second,
            SearchStepView::Lookup { url, pending } => search_step_of(
                fetch_next(pending, upstream(url)),
            ) == SearchStepView::Respond(response),
        },
    }
}

/// A search is repeatable: against an upstream service that answers each
/// lookup the same way, two searches for one identifier end with the same
/// response, and so with the same record.
pub proof fn lemma_search_repeatable(
    identifier: Seq<char>,
    upstream: spec_fn(Seq<char>) -> LookupOutcomeView,
    first: ApiResponseView,
    second: ApiResponseView,
)
    requires
        ends_search(identifier, upstream, first),
        ends_search(identifier, upstream, second),
    ensures
        first == second,
        first == search_outcome(identifier, upstream),
{
    match fetch_start(identifier) {
        FetchStepView::Done(_) => {},
        FetchStepView::Lookup { url, pending } => {
            match fetch_next(pending, upstream(url)) {
                FetchStepView::Done(_) => {},
                FetchStepView::Lookup { url, pending } => {
                    lemma_fetch_ends(pending->primary, upstream(url));
                },
            }
        },
    }
}

/// A search for an input that fails validation is answered at once with
/// status 400 and the reason: nothing is looked up.
pub proof fn lemma_invalid_search_no_lookup(identifier: Seq<char>)
    requires
        validation_of(identifier) is Err,
    ensures
        search_step_of(fetch_start(identifier)) == SearchStepView::Respond(
            error_response(FetchError::InvalidIdentifier(validation_of(identifier)->Err_0)),
        ),
        error_response(
            FetchError::InvalidIdentifier(validation_of(identifier)->Err_0),
        ).status == 400,
{
}

} // verus!

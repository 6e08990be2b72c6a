//! Fetching the record of one creature from the upstream service.
//!
//! A fetch takes up to two lookups: one for the primary document of the
//! creature, under its identifier, and one for the related document of its
//! species, under the address that the primary document gives. The lookups
//! themselves are the caller's work. This module decides: [`fetch_pokemon`]
//! says what to look up first, and [`resume_fetch`] takes what a lookup gave
//! and says what comes next, another lookup or the end of the fetch.
//!
//! Each lookup is made once. Nothing is retried and nothing is kept from one
//! fetch to the next.

use vstd::prelude::*;
use crate::identifier::{IdentifierError, validate_pokemon_identifier, validation_of};
use crate::json::{Json, JsonView};
use crate::record::{CreatureRecord, CreatureRecordView, assembled, at_path};

verus! {

/// The address of the upstream service under which the primary documents
/// stand, each under its identifier.
pub const UPSTREAM_BASE: &'static str = "https://pokeapi.co/api/v2/pokemon/";

/// One of the two documents of a fetch.
#[derive(Clone, Copy, PartialEq, Eq, Debug, Structural)]
pub enum Document {
    /// The document of the creature.
    Primary,
    /// The document of its species.
    Related,
}

/// Why a fetch gave no record.
#[derive(Clone, Copy, PartialEq, Eq, Debug, Structural)]
pub enum FetchError {
    /// The identifier did not pass validation; nothing was looked up.
    InvalidIdentifier(IdentifierError),
    /// The lookup of the primary document failed.
    NotFound,
    /// What the upstream service sent for a document is no JSON.
    MalformedUpstreamResponse(Document),
    /// The primary document names no related document.
    MissingRelatedReference,
    /// The lookup of the related document failed.
    RelatedNotFound,
}

impl FetchError {
    /// The HTTP status that reports this error.
    pub open spec fn status_code(self) -> int {
        match self {
            FetchError::InvalidIdentifier(_) => 400,
            FetchError::NotFound => 404,
            FetchError::RelatedNotFound => 404,
            FetchError::MalformedUpstreamResponse(_) => 500,
            FetchError::MissingRelatedReference => 500,
        }
    }

    /// What is said to the client about this error.
    pub open spec fn message_text(self) -> Seq<char> {
        match self {
            FetchError::InvalidIdentifier(reason) => reason.message_text(),
            FetchError::NotFound => "Pokemon not found"@,
            FetchError::MalformedUpstreamResponse(Document::Primary) => "Failed to parse data"@,
            FetchError::MissingRelatedReference => "No species URL found"@,
            FetchError::RelatedNotFound => "Species not found"@,
            FetchError::MalformedUpstreamResponse(Document::Related) => "Failed to parse species"@,
        }
    }

    /// The HTTP status that reports this error.
    pub fn status(self) -> (code: u16)
        ensures
            code == self.status_code(),
    {
        match self {
            FetchError::InvalidIdentifier(_) => 400,
            FetchError::NotFound => 404,
            FetchError::RelatedNotFound => 404,
            FetchError::MalformedUpstreamResponse(_) => 500,
            FetchError::MissingRelatedReference => 500,
        }
    }

    /// What is said to the client about this error.
    pub fn message(self) -> (text: &'static str)
        ensures
            text@ == self.message_text(),
    {
        match self {
            FetchError::InvalidIdentifier(reason) => reason.message(),
            FetchError::NotFound => "Pokemon not found",
            FetchError::MalformedUpstreamResponse(Document::Primary) => "Failed to parse data",
            FetchError::MissingRelatedReference => "No species URL found",
            FetchError::RelatedNotFound => "Species not found",
            FetchError::MalformedUpstreamResponse(Document::Related) => "Failed to parse species",
        }
    }
}

/// What a lookup gave.
#[derive(Debug, PartialEq, Eq)]
pub enum LookupOutcome {
    /// The lookup failed: the service was not reached, or it has no such
    /// document.
    Failed,
    /// The service answered with something that is no JSON.
    Unreadable,
    /// The service answered with this document.
    Document(Json),
}

/// The model of a [`LookupOutcome`].
pub ghost enum LookupOutcomeView {
    Failed,
    Unreadable,
    Document(JsonView),
}

impl View for LookupOutcome {
    type V = LookupOutcomeView;

    open spec fn view(&self) -> LookupOutcomeView {
        match self {
            LookupOutcome::Failed => LookupOutcomeView::Failed,
            LookupOutcome::Unreadable => LookupOutcomeView::Unreadable,
            LookupOutcome::Document(document) => LookupOutcomeView::Document(document@),
        }
    }
}

/// A fetch that waits for a lookup.
#[derive(Debug, PartialEq, Eq)]
pub enum PendingFetch {
    /// The primary document is being looked up.
    Primary,
    /// The related document is being looked up; the primary one is here.
    Related { primary: Json },
}

/// The model of a [`PendingFetch`].
pub ghost enum PendingFetchView {
    Primary,
    Related { primary: JsonView },
}

impl View for PendingFetch {
    type V = PendingFetchView;

    open spec fn view(&self) -> PendingFetchView {
        match self {
            PendingFetch::Primary => PendingFetchView::Primary,
            PendingFetch::Related { primary } => PendingFetchView::Related { primary: primary@ },
        }
    }
}

/// What a fetch asks of its caller next.
#[derive(Debug, PartialEq, Eq)]
pub enum FetchStep {
    /// Look up `url`, then resume `pending` with the outcome.
    Lookup { url: String, pending: PendingFetch },
    /// The fetch is over.
    Done(Result<CreatureRecord, FetchError>),
}

/// The model of a [`FetchStep`].
pub ghost enum FetchStepView {
    Lookup { url: Seq<char>, pending: PendingFetchView },
    Done(Result<CreatureRecordView, FetchError>),
}

/// The model of the result of a fetch.
pub open spec fn result_view(result: Result<CreatureRecord, FetchError>) -> Result<
    CreatureRecordView,
    FetchError,
> {
    match result {
        Ok(record) => Ok(record@),
        Err(error) => Err(error),
    }
}

impl View for FetchStep {
    type V = FetchStepView;

    open spec fn view(&self) -> FetchStepView {
        match self {
            FetchStep::Lookup { url, pending } => FetchStepView::Lookup {
                url: url@,
                pending: pending@,
            },
            FetchStep::Done(result) => FetchStepView::Done(result_view(*result)),
        }
    }
}

/// The address of the related document that a primary document names.
pub open spec fn related_reference(primary: JsonView) -> Option<Seq<char>> {
    primary.at("species"@).at("url"@).as_text()
}

/// The first step of a fetch for `identifier`: nothing is looked up for an
/// identifier that fails validation.
pub open spec fn fetch_start(identifier: Seq<char>) -> FetchStepView {
    match validation_of(identifier) {
        Err(reason) => FetchStepView::Done(Err(FetchError::InvalidIdentifier(reason))),
        Ok(_) => FetchStepView::Lookup {
            url: UPSTREAM_BASE@ + identifier,
            pending: PendingFetchView::Primary,
        },
    }
}

/// The step that follows when the lookup that `pending` waits for gave
/// `outcome`.
pub open spec fn fetch_next(pending: PendingFetchView, outcome: LookupOutcomeView) -> FetchStepView {
    match pending {
        PendingFetchView::Primary => match outcome {
            LookupOutcomeView::Failed => FetchStepView::Done(Err(FetchError::NotFound)),
            LookupOutcomeView::Unreadable => FetchStepView::Done(
                Err(FetchError::MalformedUpstreamResponse(Document::Primary)),
            ),
            LookupOutcomeView::Document(primary) => match related_reference(primary) {
                None => FetchStepView::Done(Err(FetchError::MissingRelatedReference)),
                Some(url) => FetchStepView::Lookup {
                    url,
                    pending: PendingFetchView::Related { primary },
                },
            },
        },
        PendingFetchView::Related { primary } => match outcome {
            LookupOutcomeView::Failed => FetchStepView::Done(Err(FetchError::RelatedNotFound)),
            LookupOutcomeView::Unreadable => FetchStepView::Done(
                Err(FetchError::MalformedUpstreamResponse(Document::Related)),
            ),
            LookupOutcomeView::Document(related) => FetchStepView::Done(
                Ok(assembled(primary, related)),
            ),
        },
    }
}

/// Begins the fetch of the creature that `id_or_name` names.
pub fn fetch_pokemon(id_or_name: &str) -> (step: FetchStep)
    ensures
        step@ == fetch_start(id_or_name@),
{
    match validate_pokemon_identifier(id_or_name) {
        Err(reason) => FetchStep::Done(Err(FetchError::InvalidIdentifier(reason))),
        Ok(_) => FetchStep::Lookup {
            url: UPSTREAM_BASE.to_owned().concat(id_or_name),
            pending: PendingFetch::Primary,
        },
    }
}

/// Resumes a fetch with the outcome of the lookup that it waited for.
pub fn resume_fetch(pending: PendingFetch, outcome: LookupOutcome) -> (step: FetchStep)
    ensures
        step@ == fetch_next(pending@, outcome@),
{
    match pending {
        PendingFetch::Primary => match outcome {
            LookupOutcome::Failed => FetchStep::Done(Err(FetchError::NotFound)),
            LookupOutcome::Unreadable => FetchStep::Done(
                Err(FetchError::MalformedUpstreamResponse(Document::Primary)),
            ),
            LookupOutcome::Document(primary) => {
                let reference = at_path(&primary, "species", "url");
                match reference.as_str() {
                    None => FetchStep::Done(Err(FetchError::MissingRelatedReference)),
                    Some(url) => FetchStep::Lookup {
                        url: url.to_owned(),
                        pending: PendingFetch::Related { primary },
                    },
                }
            },
        },
        PendingFetch::Related { primary } => match outcome {
            LookupOutcome::Failed => FetchStep::Done(Err(FetchError::RelatedNotFound)),
            LookupOutcome::Unreadable => FetchStep::Done(
                Err(FetchError::MalformedUpstreamResponse(Document::Related)),
            ),
            LookupOutcome::Document(related) => FetchStep::Done(
                Ok(CreatureRecord::assemble(&primary, &related)),
            ),
        },
    }
}

/// The result of a whole fetch for `identifier` against an upstream service
/// that answers the lookup of each address as `upstream` says.
pub open spec fn fetch_result(
    identifier: Seq<char>,
    upstream: spec_fn(Seq<char>) -> LookupOutcomeView,
) -> Result<CreatureRecordView, FetchError> {
    match fetch_start(identifier) {
        FetchStepView::Done(result) => result,
        FetchStepView::Lookup { url, pending } => match fetch_next(pending, upstream(url)) {
            FetchStepView::Done(result) => result,
            FetchStepView::Lookup { url, pending } => fetch_next(pending, upstream(url))->Done_0,
        },
    }
}

/// A fetch ends after two lookups at most: the step that follows the lookup
/// of the related document is the last.
pub proof fn lemma_fetch_ends(primary: JsonView, outcome: LookupOutcomeView)
    ensures
        fetch_next(PendingFetchView::Related { primary }, outcome) is Done,
{
}

/// The second lookup of a fetch, if there is one, is for the related
/// document, and the first is for the primary one.
pub proof fn lemma_fetch_order(identifier: Seq<char>, outcome: LookupOutcomeView)
    ensures
        fetch_start(identifier) matches FetchStepView::Lookup { pending, .. } ==> pending
            == PendingFetchView::Primary,
        fetch_next(PendingFetchView::Primary, outcome) matches FetchStepView::Lookup {
            pending,
            ..
        } ==> pending is Related,
{
}

/// An identifier that fails validation ends the fetch at once: no lookup
/// is asked for.
pub proof fn lemma_invalid_identifier_no_lookup(identifier: Seq<char>)
    requires
        validation_of(identifier) is Err,
    ensures
        fetch_start(identifier) == FetchStepView::Done(
            Err(FetchError::InvalidIdentifier(validation_of(identifier)->Err_0)),
        ),
{
}

} // verus!

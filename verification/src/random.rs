//! A sample of creatures, drawn at random.
//!
//! The caller asks for a number of creatures. As many ids are drawn, each
//! from 1 to `MAX_POKEMON_COUNT` and each on its own, so that an id may come
//! twice. The caller then runs one fetch for each id, all at once, and hands
//! the results back in whatever order it likes; the records of the fetches
//! that succeeded are the answer. A fetch that failed leaves no trace.
//!
//! [`get_n_random`] draws the ids itself. Where the ids are to come from
//! elsewhere, [`check_count`] and [`identifiers_for`] do the same work on
//! ids of the caller's choosing.

use vstd::prelude::*;
use vstd::multiset::Multiset;
use vstd::seq_lib::to_multiset_build;
use rand::Rng;
use crate::fetch::{FetchError, LookupOutcomeView, fetch_result};
use crate::json::JsonView;
use crate::identifier::{
    is_identifier_char, is_identifier_text, lemma_identifier_text_is_valid, validation_of,
    IdentifierError,
};
use crate::record::{CreatureRecord, CreatureRecordView};
use crate::response::{ApiBody, ApiBodyView, ApiResponse, ApiResponseView, records_view};
use crate::text::{
    decimal_string, decimal_text, lemma_decimal_text_digits, lemma_decimal_text_short,
};

verus! {

/// The greatest id that the upstream service knows.
pub const MAX_POKEMON_COUNT: u32 = 1025;

/// The greatest number of creatures that one request may ask for.
pub const MAX_RANDOM_COUNT: i32 = 15;

/// The query of a random sample.
#[derive(Clone, Copy, Debug, PartialEq, Eq, Structural)]
pub struct RandomParams {
    pub n: i32,
}

/// The request asks for more creatures than `MAX_RANDOM_COUNT`.
#[derive(Clone, Copy, Debug, PartialEq, Eq, Structural)]
pub struct InvalidCount;

impl InvalidCount {
    /// What is said to the client about this error.
    pub open spec fn message_text() -> Seq<char> {
        "n must be less than 15"@
    }

    /// What is said to the client about this error.
    pub fn message(self) -> (text: &'static str)
        ensures
            text@ == Self::message_text(),
    {
        "n must be less than 15"
    }
}

/// The number of ids to draw for a request for `n` creatures: `n` itself,
/// and none for a negative `n`.
pub open spec fn draws_for(n: int) -> nat {
    if n < 0 {
        0
    } else {
        n as nat
    }
}

/// Tests the number of creatures that a request asks for, and says how many
/// ids are to be drawn for it.
pub fn check_count(n: i32) -> (count: Result<usize, InvalidCount>)
    ensures
        n > MAX_RANDOM_COUNT ==> count == Err::<usize, InvalidCount>(InvalidCount),
        n <= MAX_RANDOM_COUNT ==> count == Ok::<usize, InvalidCount>(draws_for(n as int) as usize),
{
    if n > MAX_RANDOM_COUNT {
        Err(InvalidCount)
    } else if n < 0 {
        Ok(0)
    } else {
        Ok(n as usize)
    }
}

/// Draws a number from `low` to `high`, both included: `rand::thread_rng`
/// gives the generator of the current thread and `Rng::gen_range` draws from
/// it. The crate documents that the number lies in the range and that an
/// empty range makes the call panic; no more is assumed here, and nothing of
/// which number comes. (`thread_rng` also panics where the system gives it
/// no seed; no argument can rule that out.)
#[verifier::external_body]
fn random_in_range(low: u32, high: u32) -> (drawn: u32)
    requires
        low <= high,
    ensures
        low <= drawn <= high,
{
    rand::thread_rng().gen_range(low..=high)
}

/// Draws `count` ids, each from 1 to `MAX_POKEMON_COUNT`.
pub fn sample_ids(count: usize) -> (ids: Vec<u32>)
    ensures
        ids@.len() == count,
        forall|i: int| 0 <= i < ids@.len() ==> 1 <= #[trigger] ids@[i] <= MAX_POKEMON_COUNT,
{
    let mut ids: Vec<u32> = Vec::new();
    let mut i: usize = 0;
    while i < count
        invariant
            i <= count,
            ids@.len() == i,
            forall|j: int| 0 <= j < ids@.len() ==> 1 <= #[trigger] ids@[j] <= MAX_POKEMON_COUNT,
        decreases count - i,
    {
        ids.push(random_in_range(1, MAX_POKEMON_COUNT));
        i = i + 1;
    }
    ids
}

/// The identifiers that stand for `ids`: each id in decimal.
pub open spec fn identifiers_of(ids: Seq<u32>) -> Seq<Seq<char>> {
    ids.map_values(|id: u32| decimal_text(id as nat))
}

/// The texts of `identifiers`, in order.
pub open spec fn texts_of(identifiers: Seq<String>) -> Seq<Seq<char>> {
    identifiers.map_values(|identifier: String| identifier@)
}

/// Writes each of `ids` as an identifier. Ids that come twice give
/// identifiers that come twice.
pub fn identifiers_for(ids: &Vec<u32>) -> (identifiers: Vec<String>)
    ensures
        texts_of(identifiers@) == identifiers_of(ids@),
{
    let mut identifiers: Vec<String> = Vec::new();
    let mut i: usize = 0;
    while i < ids.len()
        invariant
            i <= ids@.len(),
            identifiers@.len() == i,
            forall|j: int| 0 <= j < i ==> (#[trigger] identifiers@[j])@ == decimal_text(
                ids@[j] as nat,
            ),
        decreases ids@.len() - i,
    {
        identifiers.push(decimal_string(ids[i]));
        i = i + 1;
    }
    assert(texts_of(identifiers@) =~= identifiers_of(ids@));
    identifiers
}

/// Whether `text` is the numeral of an id from 1 to `MAX_POKEMON_COUNT`.
pub open spec fn is_sampled_identifier(text: Seq<char>) -> bool {
    exists|id: nat| 1 <= id <= MAX_POKEMON_COUNT && text == #[trigger] decimal_text(id)
}

/// What a random sample asks of its caller next.
#[derive(Debug, PartialEq, Eq)]
pub enum RandomStep {
    /// Run one fetch for each of `identifiers`, then hand all the results to
    /// [`random_response`].
    FanOut { identifiers: Vec<String> },
    /// Answer with this response; nothing is to be fetched.
    Respond(ApiResponse),
}

/// The response to a request that asks for too many creatures.
pub open spec fn invalid_count_response() -> ApiResponseView {
    ApiResponseView {
        status: 400,
        cache_control: None,
        body: ApiBodyView::Text(InvalidCount::message_text()),
    }
}

/// Begins the random sample that `query` asks for. A request for more than
/// `MAX_RANDOM_COUNT` creatures is refused before any id is drawn; any other
/// request gets as many identifiers as it asks for creatures.
pub fn get_n_random(query: &RandomParams) -> (step: RandomStep)
    ensures
        query.n > MAX_RANDOM_COUNT ==> (step matches RandomStep::Respond(response) && response@
            == invalid_count_response()),
        query.n <= MAX_RANDOM_COUNT ==> (step matches RandomStep::FanOut { identifiers }
            && identifiers@.len() == draws_for(query.n as int) && forall|i: int|
            0 <= i < identifiers@.len() ==> is_sampled_identifier(
                (#[trigger] identifiers@[i])@,
            )),
{
    match check_count(query.n) {
        Err(refused) => RandomStep::Respond(
            ApiResponse {
                status: 400,
                cache_control: None,
                body: ApiBody::Text(refused.message().to_owned()),
            },
        ),
        Ok(count) => {
            let ids = sample_ids(count);
            let identifiers = identifiers_for(&ids);
            assert(identifiers@.len() == texts_of(identifiers@).len());
            assert(ids@.len() == identifiers_of(ids@).len());
            assert forall|i: int| 0 <= i < identifiers@.len() implies is_sampled_identifier(
                (#[trigger] identifiers@[i])@,
            ) by {
                assert(texts_of(identifiers@)[i] == identifiers@[i]@);
                assert(identifiers_of(ids@)[i] == decimal_text(ids@[i] as nat));
                assert(1 <= ids@[i] <= MAX_POKEMON_COUNT);
            }
            RandomStep::FanOut { identifiers }
        },
    }
}

/// The records among `results`, in the order of the results.
pub open spec fn successes(results: Seq<Result<CreatureRecordView, FetchError>>) -> Seq<
    CreatureRecordView,
>
    decreases results.len(),
{
    if results.len() == 0 {
        Seq::empty()
    } else {
        match results.last() {
            Ok(record) => successes(results.drop_last()).push(record),
            Err(_) => successes(results.drop_last()),
        }
    }
}

/// The models of `results`, in order.
pub open spec fn results_view(results: Seq<Result<CreatureRecord, FetchError>>) -> Seq<
    Result<CreatureRecordView, FetchError>,
> {
    results.map_values(|result: Result<CreatureRecord, FetchError>| crate::fetch::result_view(result))
}

/// The response to a random sample whose fetches ended with `results`:
/// status 200 and the records of the fetches that succeeded. Failed fetches
/// are left out and are no error, not even when every fetch failed.
pub open spec fn random_response_of(
    results: Seq<Result<CreatureRecordView, FetchError>>,
) -> ApiResponseView {
    ApiResponseView {
        status: 200,
        cache_control: None,
        body: ApiBodyView::Records(successes(results)),
    }
}

/// Gathers the results of the fetches of a random sample into its response.
pub fn random_response(results: Vec<Result<CreatureRecord, FetchError>>) -> (response: ApiResponse)
    ensures
        response@ == random_response_of(results_view(results@)),
{
    let ghost all = results@;
    let mut kept: Vec<CreatureRecord> = Vec::new();
    assert(results_view(all.take(0)) =~= Seq::empty());
    for result in it: results.into_iter()
        invariant
            it.seq() == all,
            records_view(kept@) == successes(results_view(all.take(it.index() as int))),
    {
        let ghost at = it.index() as int;
        assert(results_view(all.take(at + 1)).drop_last() =~= results_view(all.take(at)));
        assert(results_view(all.take(at + 1)).last() == crate::fetch::result_view(all[at]));
        match result {
            Ok(record) => {
                let ghost before = kept@;
                kept.push(record);
                assert(records_view(kept@) =~= records_view(before).push(record@));
            },
            Err(_) => {},
        }
    }
    assert(all.take(all.len() as int) =~= all);
    ApiResponse { status: 200, cache_control: None, body: ApiBody::Records(kept) }
}

/// No more records come back than fetches were run.
pub proof fn lemma_successes_bounded(results: Seq<Result<CreatureRecordView, FetchError>>)
    ensures
        successes(results).len() <= results.len(),
    decreases results.len(),
{
    if results.len() > 0 {
        lemma_successes_bounded(results.drop_last());
    }
}

/// Every record that comes back is the record of one of the fetches.
pub proof fn lemma_successes_come_from_results(
    results: Seq<Result<CreatureRecordView, FetchError>>,
    i: int,
)
    requires
        0 <= i < successes(results).len(),
    ensures
        exists|j: int| 0 <= j < results.len() && #[trigger] results[j] == Ok::<
            CreatureRecordView,
            FetchError,
        >(successes(results)[i]),
    decreases results.len(),
{
    if results.len() > 0 {
        let init = results.drop_last();
        if results.last() is Ok && i == successes(init).len() {
            assert(results[results.len() - 1] == Ok::<CreatureRecordView, FetchError>(
                successes(results)[i],
            ));
        } else {
            lemma_successes_come_from_results(init, i);
            let j = choose|j: int| 0 <= j < init.len() && #[trigger] init[j] == Ok::<
                CreatureRecordView,
                FetchError,
            >(successes(init)[i]);
            assert(results[j] == init[j]);
        }
    }
}

/// An identifier of a random sample passes validation: its fetch is never
/// refused for the identifier's sake.
pub proof fn lemma_sampled_identifier_is_valid(text: Seq<char>)
    requires
        is_sampled_identifier(text),
    ensures
        validation_of(text) == Ok::<(), IdentifierError>(()),
{
    let id = choose|id: nat| 1 <= id <= MAX_POKEMON_COUNT && text == #[trigger] decimal_text(id);
    lemma_decimal_text_digits(id);
    lemma_decimal_text_short(id);
    assert(is_identifier_text(text)) by {
        assert forall|i: int| 0 <= i < text.len() implies is_identifier_char(
            #[trigger] text[i],
        ) by {
            assert('0' <= decimal_text(id)[i] <= '9');
        }
    }
    lemma_identifier_text_is_valid(text);
}

/// A random sample for a count from 0 to `MAX_RANDOM_COUNT` runs as many
/// fetches as the count says, and its response holds at most as many
/// records.
pub proof fn lemma_random_sample_bounded(
    n: int,
    identifiers: Seq<Seq<char>>,
    results: Seq<Result<CreatureRecordView, FetchError>>,
)
    requires
        0 <= n <= MAX_RANDOM_COUNT,
        identifiers.len() == draws_for(n),
        results.len() == identifiers.len(),
    ensures
        random_response_of(results).status == 200,
        random_response_of(results).body == ApiBodyView::Records(successes(results)),
        successes(results).len() <= n,
{
    lemma_successes_bounded(results);
}

/// The results of the fetches of a sample, one for each identifier and in
/// the order of the identifiers, against an upstream service that answers
/// the lookup of each address as `upstream` says.
pub open spec fn sample_results(
    identifiers: Seq<Seq<char>>,
    upstream: spec_fn(Seq<char>) -> LookupOutcomeView,
) -> Seq<Result<CreatureRecordView, FetchError>> {
    identifiers.map_values(|identifier: Seq<char>| fetch_result(identifier, upstream))
}

/// Every record in the response to a random sample is the record that the
/// fetch for one of the sampled ids gave.
pub proof fn lemma_sample_records_are_fetched(
    identifiers: Seq<Seq<char>>,
    upstream: spec_fn(Seq<char>) -> LookupOutcomeView,
    i: int,
)
    requires
        forall|j: int| 0 <= j < identifiers.len() ==> is_sampled_identifier(#[trigger] identifiers[j]),
        0 <= i < successes(sample_results(identifiers, upstream)).len(),
    ensures
        exists|j: int|
            0 <= j < identifiers.len() && is_sampled_identifier(identifiers[j]) && #[trigger] fetch_result(
                identifiers[j],
                upstream,
            ) == Ok::<CreatureRecordView, FetchError>(
                successes(sample_results(identifiers, upstream))[i],
            ),
{
    let results = sample_results(identifiers, upstream);
    lemma_successes_come_from_results(results, i);
    let j = choose|j: int| 0 <= j < results.len() && #[trigger] results[j] == Ok::<
        CreatureRecordView,
        FetchError,
    >(successes(results)[i]);
    assert(results[j] == fetch_result(identifiers[j], upstream));
}

/// Whether `id` is a number that stands for an id from 1 to
/// `MAX_POKEMON_COUNT`.
pub open spec fn is_known_id(id: JsonView) -> bool {
    match id {
        JsonView::Number(numeral) => is_sampled_identifier(numeral),
        _ => false,
    }
}

/// Whether every record that `upstream` gives for an id from 1 to
/// `MAX_POKEMON_COUNT` carries such an id itself.
pub open spec fn keeps_ids_in_range(upstream: spec_fn(Seq<char>) -> LookupOutcomeView) -> bool {
    forall|identifier: Seq<char>|
        is_sampled_identifier(identifier) ==> match #[trigger] fetch_result(identifier, upstream) {
            Ok(record) => is_known_id(record.id),
            Err(_) => true,
        }
}

/// Against an upstream service that keeps ids in range, every record in the
/// response to a random sample carries an id from 1 to `MAX_POKEMON_COUNT`.
/// The id of a record is what the upstream service sent: of a service that
/// sends other ids, this does not hold.
pub proof fn lemma_sample_ids_in_range(
    identifiers: Seq<Seq<char>>,
    upstream: spec_fn(Seq<char>) -> LookupOutcomeView,
    i: int,
)
    requires
        keeps_ids_in_range(upstream),
        forall|j: int| 0 <= j < identifiers.len() ==> is_sampled_identifier(#[trigger] identifiers[j]),
        0 <= i < successes(sample_results(identifiers, upstream)).len(),
    ensures
        is_known_id(successes(sample_results(identifiers, upstream))[i].id),
{
    lemma_sample_records_are_fetched(identifiers, upstream, i);
}

/// A record comes in the response as often as a fetch gave it.
pub proof fn lemma_successes_count(
    results: Seq<Result<CreatureRecordView, FetchError>>,
    record: CreatureRecordView,
)
    ensures
        successes(results).to_multiset().count(record) == results.to_multiset().count(
            Ok::<CreatureRecordView, FetchError>(record),
        ),
    decreases results.len(),
{
    if results.len() == 0 {
        assert(results.to_multiset() =~= Multiset::empty()) by {
            results.to_multiset_ensures();
        }
        assert(successes(results).to_multiset() =~= Multiset::empty()) by {
            successes(results).to_multiset_ensures();
        }
    } else {
        let init = results.drop_last();
        let last = results.last();
        lemma_successes_count(init, record);
        assert(results =~= init.push(last));
        to_multiset_build(init, last);
        match last {
            Ok(given) => {
                to_multiset_build(successes(init), given);
            },
            Err(_) => {},
        }
    }
}

/// Which records the response holds, and how often, does not hang on the
/// order in which the results of the fetches are handed in.
pub proof fn lemma_successes_order_free(
    first: Seq<Result<CreatureRecordView, FetchError>>,
    second: Seq<Result<CreatureRecordView, FetchError>>,
)
    requires
        first.to_multiset() == second.to_multiset(),
    ensures
        successes(first).to_multiset() == successes(second).to_multiset(),
{
    assert forall|record: CreatureRecordView|
        successes(first).to_multiset().count(record) == successes(second).to_multiset().count(
            record,
        ) by {
        lemma_successes_count(first, record);
        lemma_successes_count(second, record);
    }
    assert(successes(first).to_multiset() =~= successes(second).to_multiset());
}

} // verus!

//! What holds of the cache over whole calls and over several calls.
//!
//! A call is the run of steps from `Event::Begin` to `Step::Done`. What the
//! rate service does with the one request that a call may make is an
//! `Answer`; `call` says where a call ends for each answer.

use crate::api_response::RateTable;
use crate::data::CacheState;
use crate::failure::Failure;
use crate::rates::has_code;
use crate::step::{EventView, StepView, STATUS_OK, STATUS_UNAUTHORIZED};
use crate::text::normalized;
use vstd::prelude::*;

verus! {

/// What the rate service does with a request: the status with which it
/// answers, `None` where no answer arrives, and the table that the body of
/// its answer holds, `None` where it holds none.
pub struct Answer {
    pub status: Option<u16>,
    pub body: Option<RateTable>,
}

impl Answer {
    /// What the caller reports once the request has been made.
    pub open spec fn reported(self) -> EventView {
        match self.status {
            Some(status) => EventView::Status(status),
            None => EventView::Unreachable,
        }
    }

    /// Whether the table that the answer holds, if it holds one, has
    /// `currency` as its base.
    pub open spec fn is_for(self, currency: Seq<char>) -> bool {
        self.body matches Some(table) ==> table.base_code == currency
    }
}

/// The end of a call: the state of the cache, the result, and the number of
/// requests that were made on the way.
pub struct Call {
    pub state: CacheState,
    pub result: Result<(), Failure>,
    pub requests: nat,
}

/// Where a call of `set_up` for `currency` ends that has come to `event` in
/// `state`, when the service answers with `answer` and the caller takes at
/// most `steps` further steps. `None` where it has not ended by then.
pub open spec fn run(
    state: CacheState,
    currency: Seq<char>,
    event: EventView,
    answer: Answer,
    steps: nat,
) -> Option<Call>
    decreases steps,
{
    let next = state.after(event);
    match state.set_up(currency, event) {
        StepView::Done(result) => Some(Call { state: next, result, requests: 0 }),
        StepView::Get(_) => if steps == 0 {
            None
        } else {
            match run(next, currency, answer.reported(), answer, (steps - 1) as nat) {
                Some(end) => Some(
                    Call { state: end.state, result: end.result, requests: end.requests + 1 },
                ),
                None => None,
            }
        },
        StepView::ReadBody => if steps == 0 {
            None
        } else {
            run(next, currency, EventView::Body(answer.body), answer, (steps - 1) as nat)
        },
    }
}

/// Where a whole call of `set_up` for `currency` ends when the service
/// answers with `answer`.
pub open spec fn call(state: CacheState, currency: Seq<char>, answer: Answer) -> Option<Call> {
    run(state, currency, EventView::Begin, answer, 2)
}

/// A call always ends, after at most one request. Where the table for the
/// currency is held it ends in success without a request and without a
/// change. Otherwise it makes one request: a table that arrives with the
/// status of success replaces the one held; a rejected credential ends the
/// call with `Failure::Auth`, and no answer, any other status or a body
/// without a table with `Failure::Fetch`, each with the cache as it was.
pub proof fn lemma_call_ends(state: CacheState, currency: Seq<char>, answer: Answer)
    ensures
        call(state, currency, answer) == Some(
            if state.holds(currency) {
                Call { state, result: Ok(()), requests: 0 }
            } else if answer.status == Some(STATUS_OK) && answer.body is Some {
                Call {
                    state: CacheState { api_key: state.api_key, cache: answer.body },
                    result: Ok(()),
                    requests: 1,
                }
            } else if answer.status == Some(STATUS_UNAUTHORIZED) {
                Call { state, result: Err(Failure::Auth), requests: 1 }
            } else {
                Call { state, result: Err(Failure::Fetch), requests: 1 }
            },
        ),
{
    reveal_with_fuel(run, 3);
}

/// Once a call for a currency has ended in success, every later call for the
/// same currency ends in success too, makes no request and leaves the cache
/// as it is, whatever the service would have answered. So a cache that did
/// not hold the table makes one request over all these calls, and one that
/// held it makes none. This supposes that the service answered the first
/// call with a table of the base asked for.
pub proof fn lemma_held_table_is_not_fetched_again(
    state: CacheState,
    currency: Seq<char>,
    first: Answer,
    later: Answer,
)
    requires
        first.is_for(currency),
        call(state, currency, first) matches Some(end) && end.result is Ok,
    ensures
        call(state, currency, first)->0.state.holds(currency),
        call(state, currency, first)->0.requests == (if state.holds(currency) {
            0nat
        } else {
            1nat
        }),
        call(call(state, currency, first)->0.state, currency, later) == Some(
            Call { state: call(state, currency, first)->0.state, result: Ok(()), requests: 0 },
        ),
{
    lemma_call_ends(state, currency, first);
    lemma_call_ends(call(state, currency, first)->0.state, currency, later);
}

/// The state of the cache after `count` calls of `set_up` for `currency`,
/// one after the other, each answered with `answer`.
pub open spec fn after_calls(state: CacheState, currency: Seq<char>, answer: Answer, count: nat)
    -> CacheState
    decreases count,
{
    if count == 0 {
        state
    } else {
        match call(after_calls(state, currency, answer, (count - 1) as nat), currency, answer) {
            Some(end) => end.state,
            None => state,
        }
    }
}

/// However often `set_up` is called for a currency whose table is held, the
/// cache stays as it is, and each of the calls is answered without a
/// request.
pub proof fn lemma_repeated_calls_make_no_request(
    state: CacheState,
    currency: Seq<char>,
    answer: Answer,
    count: nat,
)
    requires
        state.holds(currency),
    ensures
        after_calls(state, currency, answer, count) == state,
        call(after_calls(state, currency, answer, count), currency, answer) == Some(
            Call { state, result: Ok(()), requests: 0 },
        ),
    decreases count,
{
    if count > 0 {
        lemma_repeated_calls_make_no_request(state, currency, answer, (count - 1) as nat);
    }
    lemma_call_ends(state, currency, answer);
}

/// A successful call for another currency replaces the table: after a call
/// for one currency and then one for another, both ended in success, the
/// cache holds the table of the second currency, which is the one that the
/// service sent last, and no longer that of the first. This supposes that
/// the service answers each call with a table of the base asked for.
pub proof fn lemma_other_currency_replaces_table(
    state: CacheState,
    first: Seq<char>,
    second: Seq<char>,
    first_answer: Answer,
    second_answer: Answer,
)
    requires
        first != second,
        first_answer.is_for(first),
        second_answer.is_for(second),
        call(state, first, first_answer) matches Some(end) && end.result is Ok,
        call(call(state, first, first_answer)->0.state, second, second_answer) matches Some(end)
            && end.result is Ok,
    ensures
        ({
            let between = call(state, first, first_answer)->0.state;
            let end = call(between, second, second_answer)->0;
            &&& between.holds(first)
            &&& end.state.holds(second)
            &&& !end.state.holds(first)
            &&& end.state.cache == second_answer.body
            &&& end.requests == 1
        }),
{
    lemma_call_ends(state, first, first_answer);
    lemma_call_ends(call(state, first, first_answer)->0.state, second, second_answer);
}

/// A rejected credential leaves the cache untouched: where a table is held
/// and a call for another currency is answered with the status of a
/// rejected credential, the call ends with `Failure::Auth` and the cache is
/// as it was, so that it still holds the table of the first currency.
pub proof fn lemma_rejected_credential_keeps_table(
    state: CacheState,
    held: Seq<char>,
    wanted: Seq<char>,
    answer: Answer,
)
    requires
        state.holds(held),
        wanted != held,
        answer.status == Some(STATUS_UNAUTHORIZED),
    ensures
        call(state, wanted, answer) == Some(
            Call { state, result: Err(Failure::Auth), requests: 1 },
        ),
        call(state, wanted, answer)->0.state.holds(held),
{
    lemma_call_ends(state, wanted, answer);
}

/// No failure changes the cache.
pub proof fn lemma_failure_keeps_cache(state: CacheState, currency: Seq<char>, answer: Answer)
    ensures
        call(state, currency, answer) matches Some(end) && (end.result is Err ==> end.state
            == state),
{
    lemma_call_ends(state, currency, answer);
}

/// A new credential does not clear the cache: the table stays, and a call
/// for its base right after the credential was replaced is still answered
/// without a request.
pub proof fn lemma_new_credential_keeps_table(
    state: CacheState,
    api_key: Seq<char>,
    currency: Seq<char>,
    answer: Answer,
)
    requires
        state.holds(currency),
    ensures
        state.with_api_key(api_key).cache == state.cache,
        call(state.with_api_key(api_key), currency, answer) == Some(
            Call { state: state.with_api_key(api_key), result: Ok(()), requests: 0 },
        ),
{
    lemma_call_ends(state.with_api_key(api_key), currency, answer);
}

/// A conversion reads its two codes in their normal form only: codes with
/// the same normal form give the same step, whatever the event.
pub proof fn lemma_exchange_reads_normal_forms(
    state: CacheState,
    source: Seq<char>,
    target: Seq<char>,
    other_source: Seq<char>,
    other_target: Seq<char>,
    event: EventView,
)
    requires
        normalized(source) == normalized(other_source),
        normalized(target) == normalized(other_target),
    ensures
        state.exchange(source, target, event) == state.exchange(other_source, other_target, event),
{
}

/// A target that the table does not list ends the conversion with
/// `Failure::Lookup`, at the first step where the table of the source is
/// held, and the cache stays as it was.
pub proof fn lemma_unknown_target_is_a_lookup_failure(
    state: CacheState,
    source: Seq<char>,
    target: Seq<char>,
)
    requires
        state.holds(source),
        !has_code(state.cache->0.conversion_rates, target),
    ensures
        state.exchange_normalized(source, target, EventView::Begin) == StepView::<
            Result<crate::quote::QuoteView, Failure>,
        >::Done(Err(Failure::Lookup)),
        state.after(EventView::Begin) == state,
{
}

} // verus!

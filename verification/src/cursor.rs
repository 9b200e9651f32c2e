//! The cursor into the claims stream, and the order in which claims are
//! relayed.
//!
//! The stream is the model of [`crate::stream`]. A call of `next_claim` reads
//! the stream after the cursor and moves the cursor to what it read.

use vstd::prelude::*;
use crate::claims::{claim_of_event, RollupClaimView};
use crate::events::{EventView, RollupsClaimView, INITIAL_ID};
use crate::stream::{consume_after, cursor_at, ids_valid, lemma_consume_at};

verus! {

/// The cursor after a read that found `found`: the id of the entry, or the
/// cursor as it was where there was none.
pub open spec fn cursor_after_read(
    cursor: Seq<char>,
    found: Option<EventView<RollupsClaimView>>,
) -> Seq<char> {
    match found {
        Some(event) => event.id,
        None => cursor,
    }
}

/// The claim that is relayed after a read that found `found`.
pub open spec fn claim_relayed(found: Option<EventView<RollupsClaimView>>) -> Option<
    RollupClaimView,
> {
    match found {
        Some(event) => Some(claim_of_event(event)),
        None => None,
    }
}

/// The cursor of a facade that has made `calls` calls of `next_claim` on
/// `stream` since it was made.
pub open spec fn cursor_after_calls(stream: Seq<EventView<RollupsClaimView>>, calls: nat) -> Seq<
    char,
>
    decreases calls,
{
    if calls == 0 {
        INITIAL_ID@
    } else {
        let cursor = cursor_after_calls(stream, (calls - 1) as nat);
        cursor_after_read(cursor, consume_after(stream, cursor))
    }
}

/// What the call of `next_claim` that follows `calls` earlier ones relays.
pub open spec fn claim_at_call(stream: Seq<EventView<RollupsClaimView>>, calls: nat) -> Option<
    RollupClaimView,
> {
    claim_relayed(consume_after(stream, cursor_after_calls(stream, calls)))
}

/// The cursor of a facade after `rounds` rounds in each of which one claim
/// was appended and `next_claim` called once: in round `i` the stream holds
/// the first `i + 1` entries of `stream`.
pub open spec fn cursor_after_rounds(stream: Seq<EventView<RollupsClaimView>>, rounds: nat) -> Seq<
    char,
>
    decreases rounds,
{
    if rounds == 0 {
        INITIAL_ID@
    } else {
        let cursor = cursor_after_rounds(stream, (rounds - 1) as nat);
        cursor_after_read(cursor, consume_after(stream.take(rounds as int), cursor))
    }
}

/// What the call of `next_claim` in the round that follows `rounds` earlier
/// ones relays.
pub open spec fn claim_at_round(stream: Seq<EventView<RollupsClaimView>>, rounds: nat) -> Option<
    RollupClaimView,
> {
    claim_relayed(consume_after(stream.take(rounds as int + 1), cursor_after_rounds(stream, rounds)))
}

/// Where nothing is found nothing is relayed and the cursor stays, so that
/// the call can be repeated; and on a stream without entries nothing is
/// found.
pub proof fn lemma_no_claim_leaves_cursor(cursor: Seq<char>)
    ensures
        consume_after(Seq::<EventView<RollupsClaimView>>::empty(), cursor) == None::<
            EventView<RollupsClaimView>,
        >,
        cursor_after_read(cursor, None) == cursor,
        claim_relayed(None) == None::<RollupClaimView>,
{
}

/// One call of `next_claim` by a facade that has relayed the first `place`
/// claims of a stream with valid ids: it relays the claim at `place` and has
/// then relayed one more, or relays nothing where it has relayed them all.
pub proof fn lemma_next_claim_step(stream: Seq<EventView<RollupsClaimView>>, place: int)
    requires
        ids_valid(stream),
        0 <= place <= stream.len(),
    ensures
        ({
            let cursor = cursor_at(stream, place);
            let found = consume_after(stream, cursor);
            if place < stream.len() {
                &&& claim_relayed(found) == Some(claim_of_event(stream[place]))
                &&& cursor_after_read(cursor, found) == cursor_at(stream, place + 1)
            } else {
                &&& claim_relayed(found) == None::<RollupClaimView>
                &&& cursor_after_read(cursor, found) == cursor
            }
        }),
{
    lemma_consume_at(stream, place);
}

/// Calls of `next_claim` on a stream with valid ids relay its claims in the
/// order of the stream, one per call and each numbered by its epoch, and
/// relay nothing once all have been relayed.
pub proof fn lemma_claims_in_order(stream: Seq<EventView<RollupsClaimView>>, calls: nat)
    requires
        ids_valid(stream),
    ensures
        cursor_after_calls(stream, calls) == cursor_at(
            stream,
            if calls <= stream.len() {
                calls as int
            } else {
                stream.len() as int
            },
        ),
        claim_at_call(stream, calls) == if calls < stream.len() {
            Some(claim_of_event(stream[calls as int]))
        } else {
            None::<RollupClaimView>
        },
        calls < stream.len() ==> claim_at_call(stream, calls).unwrap().number
            == stream[calls as int].payload.epoch_index,
    decreases calls,
{
    if calls > 0 {
        lemma_claims_in_order(stream, (calls - 1) as nat);
        let before: int = if calls - 1 <= stream.len() {
            calls - 1
        } else {
            stream.len() as int
        };
        lemma_next_claim_step(stream, before);
    }
    let place: int = if calls <= stream.len() {
        calls as int
    } else {
        stream.len() as int
    };
    lemma_next_claim_step(stream, place);
}

/// Where claims are appended and relayed in turns, one of each per round,
/// each round relays the claim that was appended in it: every claim is
/// relayed once, in the order in which the claims were appended.
pub proof fn lemma_claims_interleaved(stream: Seq<EventView<RollupsClaimView>>, rounds: nat)
    requires
        ids_valid(stream),
        rounds <= stream.len(),
    ensures
        cursor_after_rounds(stream, rounds) == cursor_at(stream, rounds as int),
        rounds < stream.len() ==> claim_at_round(stream, rounds) == Some(
            claim_of_event(stream[rounds as int]),
        ),
    decreases rounds,
{
    if rounds > 0 {
        lemma_claims_interleaved(stream, (rounds - 1) as nat);
        lemma_round_step(stream, rounds - 1);
    }
    if rounds < stream.len() {
        lemma_round_step(stream, rounds as int);
    }
}

proof fn lemma_round_step(stream: Seq<EventView<RollupsClaimView>>, place: int)
    requires
        ids_valid(stream),
        0 <= place < stream.len(),
    ensures
        consume_after(stream.take(place + 1), cursor_at(stream, place)) == Some(stream[place]),
{
    let grown = stream.take(place + 1);
    assert(ids_valid(grown));
    assert(cursor_at(grown, place) == cursor_at(stream, place));
    lemma_consume_at(grown, place);
}

} // verus!

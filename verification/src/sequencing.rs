//! What the facade's writing operations do to the inputs stream, and the
//! rules of sequencing that follow.
//!
//! The stream is the model of [`crate::stream`]. An operation looks at its
//! end, builds the next record at the position found there, and appends the
//! record where the guard accepts it.

use vstd::prelude::*;
use crate::builder::{next_finish_epoch, next_input};
use crate::events::{EventView, InputView, RollupsInputView, INITIAL_ID};
use crate::guard::{epoch_check_passes, input_check_passes};
use crate::status::{initial_position, position_of_latest, RollupStatusView, StreamPosition};
use crate::stream::{ids_valid, peek_latest, produce};

verus! {

/// The position of the next record of `stream`.
pub open spec fn position(stream: Seq<EventView<RollupsInputView>>) -> StreamPosition {
    position_of_latest(peek_latest(stream))
}

/// The status that `stream` gives.
pub open spec fn status(stream: Seq<EventView<RollupsInputView>>) -> RollupStatusView {
    position(stream).status
}

/// The guard lets `input` be sequenced on `stream` as the input of index
/// `input_index`.
pub open spec fn enqueue_input_accepts(
    stream: Seq<EventView<RollupsInputView>>,
    input_index: nat,
    input: InputView,
) -> bool {
    input_check_passes(next_input(input, position(stream)), input_index)
}

/// `stream` after `input` was sequenced on it and its record given `id`.
pub open spec fn after_enqueue_input(
    stream: Seq<EventView<RollupsInputView>>,
    input: InputView,
    id: Seq<char>,
) -> Seq<EventView<RollupsInputView>> {
    produce(stream, id, next_input(input, position(stream)))
}

/// The guard lets the current epoch of `stream` be closed after
/// `inputs_sent_count` inputs.
pub open spec fn finish_epoch_accepts(
    stream: Seq<EventView<RollupsInputView>>,
    inputs_sent_count: nat,
) -> bool {
    epoch_check_passes(next_finish_epoch(position(stream)), inputs_sent_count)
}

/// `stream` after its current epoch was closed and the record given `id`.
pub open spec fn after_finish_epoch(
    stream: Seq<EventView<RollupsInputView>>,
    id: Seq<char>,
) -> Seq<EventView<RollupsInputView>> {
    produce(stream, id, next_finish_epoch(position(stream)))
}

/// `stream` after the inputs of `inputs` were sequenced on it one after
/// another, the record of each given the id at its place in `ids`.
pub open spec fn after_enqueue_inputs(
    stream: Seq<EventView<RollupsInputView>>,
    inputs: Seq<InputView>,
    ids: Seq<Seq<char>>,
) -> Seq<EventView<RollupsInputView>>
    decreases inputs.len(),
{
    if inputs.len() == 0 {
        stream
    } else {
        after_enqueue_input(
            after_enqueue_inputs(stream, inputs.drop_last(), ids.drop_last()),
            inputs.last(),
            ids.last(),
        )
    }
}

/// The guard accepts every call of such a run, where the calls declare
/// consecutive indices from `first` on.
pub open spec fn enqueue_inputs_accepted(
    stream: Seq<EventView<RollupsInputView>>,
    first: nat,
    inputs: Seq<InputView>,
    ids: Seq<Seq<char>>,
) -> bool
    decreases inputs.len(),
{
    inputs.len() == 0 || {
        &&& enqueue_inputs_accepted(stream, first, inputs.drop_last(), ids.drop_last())
        &&& enqueue_input_accepts(
            after_enqueue_inputs(stream, inputs.drop_last(), ids.drop_last()),
            (first + inputs.len() - 1) as nat,
            inputs.last(),
        )
    }
}

/// A stream without entries stands at the initial position.
pub proof fn lemma_empty_stream_position()
    ensures
        position(Seq::<EventView<RollupsInputView>>::empty()) == initial_position(),
        status(Seq::<EventView<RollupsInputView>>::empty()).inputs_sent_count == 0,
        !status(Seq::<EventView<RollupsInputView>>::empty()).last_event_is_finish_epoch,
{
}

/// An input is accepted exactly where the declared index is the number of
/// inputs that the stream has counted; with any other index the guard fires.
pub proof fn lemma_enqueue_input_accepts(
    stream: Seq<EventView<RollupsInputView>>,
    input_index: nat,
    input: InputView,
)
    ensures
        enqueue_input_accepts(stream, input_index, input) <==> status(stream).inputs_sent_count
            == input_index,
{
}

/// An epoch is closed exactly where the declared count is the number of
/// inputs that the stream has counted; with any other count the guard fires.
pub proof fn lemma_finish_epoch_accepts(
    stream: Seq<EventView<RollupsInputView>>,
    inputs_sent_count: nat,
)
    ensures
        finish_epoch_accepts(stream, inputs_sent_count) <==> status(stream).inputs_sent_count
            == inputs_sent_count,
{
}

/// After an input was sequenced the stream counts one input more, its latest
/// record closes no epoch, and the epoch is the one it was.
pub proof fn lemma_status_after_enqueue_input(
    stream: Seq<EventView<RollupsInputView>>,
    input: InputView,
    id: Seq<char>,
)
    ensures
        status(after_enqueue_input(stream, input, id)).inputs_sent_count == status(
            stream,
        ).inputs_sent_count + 1,
        !status(after_enqueue_input(stream, input, id)).last_event_is_finish_epoch,
        position(after_enqueue_input(stream, input, id)).epoch_number == position(
            stream,
        ).epoch_number,
        position(after_enqueue_input(stream, input, id)).id == id,
{
}

/// After an epoch was closed the status says so, the count of inputs is
/// what it was, and the next epoch is current.
pub proof fn lemma_status_after_finish_epoch(
    stream: Seq<EventView<RollupsInputView>>,
    id: Seq<char>,
)
    ensures
        status(after_finish_epoch(stream, id)).last_event_is_finish_epoch,
        status(after_finish_epoch(stream, id)).inputs_sent_count == status(
            stream,
        ).inputs_sent_count,
        position(after_finish_epoch(stream, id)).epoch_number == position(stream).epoch_number
            + 1,
        position(after_finish_epoch(stream, id)).id == id,
{
}

/// After an epoch was closed, an input that continues the count from before
/// is accepted, and its record belongs to the epoch after the closed one.
pub proof fn lemma_enqueue_input_after_finish_epoch(
    stream: Seq<EventView<RollupsInputView>>,
    finish_id: Seq<char>,
    input: InputView,
    input_id: Seq<char>,
)
    ensures
        ({
            let closed = after_finish_epoch(stream, finish_id);
            let resumed = after_enqueue_input(closed, input, input_id);
            &&& enqueue_input_accepts(closed, status(stream).inputs_sent_count, input)
            &&& next_input(input, position(closed)).epoch_index == position(stream).epoch_number
                + 1
            &&& position(resumed).epoch_number == position(stream).epoch_number + 1
            &&& status(resumed).inputs_sent_count == status(stream).inputs_sent_count + 1
        }),
{
}

/// A run of inputs with consecutive indices from `first` on is accepted
/// exactly where the stream has counted `first` inputs, or the run is empty;
/// and the stream then counts as many inputs more as the run has.
pub proof fn lemma_consecutive_inputs(
    stream: Seq<EventView<RollupsInputView>>,
    first: nat,
    inputs: Seq<InputView>,
    ids: Seq<Seq<char>>,
)
    requires
        inputs.len() == ids.len(),
    ensures
        status(after_enqueue_inputs(stream, inputs, ids)).inputs_sent_count == status(
            stream,
        ).inputs_sent_count + inputs.len(),
        enqueue_inputs_accepted(stream, first, inputs, ids) <==> (inputs.len() == 0 || status(
            stream,
        ).inputs_sent_count == first),
    decreases inputs.len(),
{
    if inputs.len() > 0 {
        let earlier = inputs.drop_last();
        let earlier_ids = ids.drop_last();
        let before = after_enqueue_inputs(stream, earlier, earlier_ids);
        let index = (first + inputs.len() - 1) as nat;
        lemma_consecutive_inputs(stream, first, earlier, earlier_ids);
        lemma_status_after_enqueue_input(before, inputs.last(), ids.last());
        lemma_enqueue_input_accepts(before, index, inputs.last());
        assert(enqueue_inputs_accepted(stream, first, inputs, ids) == (enqueue_inputs_accepted(
            stream,
            first,
            earlier,
            earlier_ids,
        ) && enqueue_input_accepts(before, index, inputs.last())));
    }
}

/// Where inputs are sequenced with the indices 0, 1, 2 and so on and each
/// call is accepted, the stream counts as many inputs as there were calls.
pub proof fn lemma_inputs_from_zero_are_counted(
    stream: Seq<EventView<RollupsInputView>>,
    inputs: Seq<InputView>,
    ids: Seq<Seq<char>>,
)
    requires
        inputs.len() == ids.len(),
        inputs.len() > 0 || status(stream).inputs_sent_count == 0,
        enqueue_inputs_accepted(stream, 0, inputs, ids),
    ensures
        status(after_enqueue_inputs(stream, inputs, ids)).inputs_sent_count == inputs.len(),
{
    lemma_consecutive_inputs(stream, 0, inputs, ids);
}

/// `record` continues a stream that stands at `position`: it is linked to
/// the latest entry, belongs to the current epoch, counts itself if it is an
/// input, and is well formed.
pub open spec fn continues(position: StreamPosition, record: RollupsInputView) -> bool {
    &&& record.parent_id == position.id
    &&& record.epoch_index == position.epoch_number
    &&& record.inputs_sent_count == position.status.inputs_sent_count + if record.data
        is AdvanceStateInput {
        1nat
    } else {
        0nat
    }
    &&& record.well_formed()
}

/// Every record of `stream` continues the entries before it.
pub open spec fn well_sequenced(stream: Seq<EventView<RollupsInputView>>) -> bool {
    forall|i: int|
        0 <= i < stream.len() ==> continues(position(#[trigger] stream.take(i)), stream[i].payload)
}

/// The number of inputs among the records of `stream`.
pub open spec fn inputs_in(stream: Seq<EventView<RollupsInputView>>) -> nat
    decreases stream.len(),
{
    if stream.len() == 0 {
        0
    } else {
        inputs_in(stream.drop_last()) + if stream.last().payload.data is AdvanceStateInput {
            1nat
        } else {
            0nat
        }
    }
}

/// The number of records of `stream` that close an epoch.
pub open spec fn epochs_closed_in(stream: Seq<EventView<RollupsInputView>>) -> nat
    decreases stream.len(),
{
    if stream.len() == 0 {
        0
    } else {
        epochs_closed_in(stream.drop_last()) + if stream.last().payload.data is FinishEpoch {
            1nat
        } else {
            0nat
        }
    }
}

/// The records that the facade builds continue the stream they were built
/// for.
pub proof fn lemma_built_records_continue(position: StreamPosition, input: InputView)
    ensures
        continues(position, next_input(input, position)),
        continues(position, next_finish_epoch(position)),
{
}

/// What the facade appends keeps a stream well sequenced, and a stream
/// without entries is.
pub proof fn lemma_operations_keep_sequence(
    stream: Seq<EventView<RollupsInputView>>,
    input: InputView,
    id: Seq<char>,
)
    requires
        well_sequenced(stream),
    ensures
        well_sequenced(Seq::<EventView<RollupsInputView>>::empty()),
        well_sequenced(after_enqueue_input(stream, input, id)),
        well_sequenced(after_finish_epoch(stream, id)),
{
    lemma_append_keeps_sequence(stream, id, next_input(input, position(stream)));
    lemma_append_keeps_sequence(stream, id, next_finish_epoch(position(stream)));
}

proof fn lemma_append_keeps_sequence(
    stream: Seq<EventView<RollupsInputView>>,
    id: Seq<char>,
    record: RollupsInputView,
)
    requires
        well_sequenced(stream),
        continues(position(stream), record),
    ensures
        well_sequenced(produce(stream, id, record)),
{
    let longer = produce(stream, id, record);
    assert forall|i: int| 0 <= i < longer.len() implies continues(
        position(#[trigger] longer.take(i)),
        longer[i].payload,
    ) by {
        if i < stream.len() {
            assert(longer.take(i) =~= stream.take(i));
        } else {
            assert(longer.take(i) =~= stream);
        }
    }
}

/// The first entries of a well sequenced stream are well sequenced.
pub proof fn lemma_prefix_is_well_sequenced(stream: Seq<EventView<RollupsInputView>>, len: int)
    requires
        well_sequenced(stream),
        0 <= len <= stream.len(),
    ensures
        well_sequenced(stream.take(len)),
{
    let prefix = stream.take(len);
    assert forall|i: int| 0 <= i < prefix.len() implies continues(
        position(#[trigger] prefix.take(i)),
        prefix[i].payload,
    ) by {
        assert(prefix.take(i) =~= stream.take(i));
    }
}

/// Every record of a well sequenced stream names the entry before it as its
/// parent, and the first names the initial token.
pub proof fn lemma_parents_are_chained(stream: Seq<EventView<RollupsInputView>>, i: int)
    requires
        well_sequenced(stream),
        0 <= i < stream.len(),
    ensures
        stream[i].payload.parent_id == if i == 0 {
            INITIAL_ID@
        } else {
            stream[i - 1].id
        },
{
    assert(continues(position(stream.take(i)), stream[i].payload));
}

/// A well sequenced stream counts the inputs among its records, and its
/// current epoch is the number of epochs that its records closed.
pub proof fn lemma_sequenced_stream_counts(stream: Seq<EventView<RollupsInputView>>)
    requires
        well_sequenced(stream),
    ensures
        status(stream).inputs_sent_count == inputs_in(stream),
        position(stream).epoch_number == epochs_closed_in(stream),
    decreases stream.len(),
{
    if stream.len() > 0 {
        let len = stream.len() - 1;
        assert(stream.drop_last() =~= stream.take(len));
        lemma_prefix_is_well_sequenced(stream, len);
        lemma_sequenced_stream_counts(stream.drop_last());
        assert(continues(position(stream.take(len)), stream[len].payload));
    }
}

/// Along a well sequenced stream the count of inputs never decreases, and
/// neither does the epoch: each record leaves them as they were or one more.
pub proof fn lemma_counts_never_decrease(
    stream: Seq<EventView<RollupsInputView>>,
    earlier: int,
    later: int,
)
    requires
        well_sequenced(stream),
        0 <= earlier <= later <= stream.len(),
    ensures
        status(stream.take(earlier)).inputs_sent_count <= status(
            stream.take(later),
        ).inputs_sent_count,
        position(stream.take(earlier)).epoch_number <= position(stream.take(later)).epoch_number,
    decreases later - earlier,
{
    if earlier < later {
        lemma_counts_never_decrease(stream, earlier, later - 1);
        assert(continues(position(stream.take(later - 1)), stream[later - 1].payload));
        assert(stream.take(later).last() == stream[later - 1]);
    }
}

/// A caller that lost a race is halted: once another writer has sequenced
/// an input, the index that was right before is accepted no more.
pub proof fn lemma_lost_race_is_halted(
    stream: Seq<EventView<RollupsInputView>>,
    winner: InputView,
    winner_id: Seq<char>,
    loser: InputView,
)
    ensures
        !enqueue_input_accepts(
            after_enqueue_input(stream, winner, winner_id),
            status(stream).inputs_sent_count,
            loser,
        ),
{
}

/// A record that was built at an entry that is the latest no more shows in
/// the chain of parents: it does not continue the stream, whatever it counts.
pub proof fn lemma_stale_record_breaks_chain(
    stream: Seq<EventView<RollupsInputView>>,
    stale: int,
    record: RollupsInputView,
)
    requires
        ids_valid(stream),
        0 <= stale < stream.len(),
        record.parent_id == position(stream.take(stale)).id,
    ensures
        !continues(position(stream), record),
{
    if stale > 0 {
        assert(stream.take(stale).last() == stream[stale - 1]);
        assert(stream[stale - 1].id != stream[stream.len() - 1].id);
    } else {
        assert(stream[stream.len() - 1].id != INITIAL_ID@);
    }
}

} // verus!

//! The sequencing position, derived from the latest entry of the inputs
//! stream.

use vstd::prelude::*;
use crate::events::{
    option_view, Event, EventView, RollupsData, RollupsInput, RollupsInputView, INITIAL_ID,
};

verus! {

/// How far the sequencing of inputs has come.
#[derive(Clone, Copy, Debug, PartialEq, Eq)]
pub struct RollupStatus {
    /// Inputs sequenced so far.
    pub inputs_sent_count: u64,
    /// Whether the latest record closed an epoch.
    pub last_event_is_finish_epoch: bool,
}

/// Model of [`RollupStatus`].
pub struct RollupStatusView {
    pub inputs_sent_count: nat,
    pub last_event_is_finish_epoch: bool,
}

impl View for RollupStatus {
    type V = RollupStatusView;

    open spec fn view(&self) -> RollupStatusView {
        RollupStatusView {
            inputs_sent_count: self.inputs_sent_count as nat,
            last_event_is_finish_epoch: self.last_event_is_finish_epoch,
        }
    }
}

/// The status that a record leaves behind: its running count, and whether it
/// closed an epoch.
pub open spec fn status_of_record(record: RollupsInputView) -> RollupStatusView {
    RollupStatusView {
        inputs_sent_count: record.inputs_sent_count,
        last_event_is_finish_epoch: record.data is FinishEpoch,
    }
}

/// The status of a stream without entries.
pub open spec fn initial_status() -> RollupStatusView {
    RollupStatusView { inputs_sent_count: 0, last_event_is_finish_epoch: false }
}

impl Default for RollupStatus {
    fn default() -> (status: RollupStatus)
        ensures
            status@ == initial_status(),
    {
        RollupStatus { inputs_sent_count: 0, last_event_is_finish_epoch: false }
    }
}

impl vstd::std_specs::convert::FromSpecImpl<RollupsInput> for RollupStatus {
    open spec fn obeys_from_spec() -> bool {
        true
    }

    open spec fn from_spec(payload: RollupsInput) -> RollupStatus {
        RollupStatus {
            inputs_sent_count: payload.inputs_sent_count,
            last_event_is_finish_epoch: payload.data is FinishEpoch,
        }
    }
}

impl From<RollupsInput> for RollupStatus {
    fn from(payload: RollupsInput) -> (status: RollupStatus)
        ensures
            status@ == status_of_record(payload@),
    {
        let inputs_sent_count: u64 = payload.inputs_sent_count;
        match payload.data {
            RollupsData::AdvanceStateInput(_) => RollupStatus {
                inputs_sent_count,
                last_event_is_finish_epoch: false,
            },
            RollupsData::FinishEpoch => RollupStatus {
                inputs_sent_count,
                last_event_is_finish_epoch: true,
            },
        }
    }
}

/// Where the next record of the inputs stream goes.
#[derive(Clone, Debug, PartialEq, Eq)]
pub struct BrokerStreamStatus {
    /// Id of the latest entry.
    pub id: String,
    /// Epoch that the next record belongs to.
    pub epoch_number: u64,
    pub status: RollupStatus,
}

/// Model of [`BrokerStreamStatus`]. Its numbers are unbounded, so that the
/// position after any entry can be spoken of.
pub struct StreamPosition {
    pub id: Seq<char>,
    pub epoch_number: nat,
    pub status: RollupStatusView,
}

impl View for BrokerStreamStatus {
    type V = StreamPosition;

    open spec fn view(&self) -> StreamPosition {
        StreamPosition {
            id: self.id@,
            epoch_number: self.epoch_number as nat,
            status: self.status@,
        }
    }
}

impl StreamPosition {
    /// The position can be held in machine integers.
    pub open spec fn representable(self) -> bool {
        self.epoch_number <= u64::MAX && self.status.inputs_sent_count <= u64::MAX
    }

    /// The position is representable, and so is the count after one more
    /// input.
    pub open spec fn can_advance(self) -> bool {
        self.epoch_number <= u64::MAX && self.status.inputs_sent_count < u64::MAX
    }
}

/// The position before the first entry: the initial cursor token, epoch 0,
/// no inputs.
pub open spec fn initial_position() -> StreamPosition {
    StreamPosition { id: INITIAL_ID@, epoch_number: 0, status: initial_status() }
}

/// The position after `event`. An input leaves the epoch as it is; a closed
/// epoch makes the next one current at once, before any input lands in it.
pub open spec fn position_of_event(event: EventView<RollupsInputView>) -> StreamPosition {
    StreamPosition {
        id: event.id,
        epoch_number: if event.payload.data is FinishEpoch {
            event.payload.epoch_index + 1
        } else {
            event.payload.epoch_index
        },
        status: status_of_record(event.payload),
    }
}

/// The position that the latest entry of the inputs stream gives, or the
/// initial one where the stream has no entry yet.
pub open spec fn position_of_latest(latest: Option<EventView<RollupsInputView>>) -> StreamPosition {
    match latest {
        Some(event) => position_of_event(event),
        None => initial_position(),
    }
}

/// The status that the latest entry of the inputs stream gives.
pub open spec fn status_of_latest(latest: Option<EventView<RollupsInputView>>) -> RollupStatusView {
    position_of_latest(latest).status
}

impl BrokerStreamStatus {
    /// The position after `event`. Where `event` closes an epoch, the epoch
    /// after it must still have a number.
    pub fn from_event(event: Event<RollupsInput>) -> (position: BrokerStreamStatus)
        requires
            position_of_event(event@).representable(),
        ensures
            position@ == position_of_event(event@),
    {
        let id = event.id;
        let payload = event.payload;
        let epoch_index: u64 = payload.epoch_index;
        match payload.data {
            RollupsData::AdvanceStateInput(_) => BrokerStreamStatus {
                id,
                epoch_number: epoch_index,
                status: RollupStatus::from(payload),
            },
            RollupsData::FinishEpoch => BrokerStreamStatus {
                id,
                epoch_number: epoch_index + 1,
                status: RollupStatus::from(payload),
            },
        }
    }

    /// The position that the latest entry gives, or the initial one. Where
    /// the entry closes an epoch, the epoch after it must still have a number.
    pub fn from_latest(latest: Option<Event<RollupsInput>>) -> (position: BrokerStreamStatus)
        requires
            position_of_latest(option_view(latest)).representable(),
        ensures
            position@ == position_of_latest(option_view(latest)),
    {
        match latest {
            Some(event) => BrokerStreamStatus::from_event(event),
            None => BrokerStreamStatus {
                id: INITIAL_ID.to_owned(),
                epoch_number: 0,
                status: RollupStatus::default(),
            },
        }
    }

    /// Whether the position after the latest entry can be held in machine
    /// integers. It cannot after an entry that closes the last epoch that a
    /// `u64` can number.
    pub fn is_representable(latest: &Option<Event<RollupsInput>>) -> (fits: bool)
        ensures
            fits == position_of_latest(option_view(*latest)).representable(),
    {
        match latest {
            Some(event) => match event.payload.data {
                RollupsData::AdvanceStateInput(_) => true,
                RollupsData::FinishEpoch => event.payload.epoch_index < u64::MAX,
            },
            None => true,
        }
    }

    /// Whether one more input can be counted at this position.
    pub fn can_advance(&self) -> (fits: bool)
        ensures
            fits == self@.can_advance(),
    {
        self.status.inputs_sent_count < u64::MAX
    }
}

} // verus!

//! The sequencing guard: a record is published only where it stands at the
//! position that the caller expects.
//!
//! A violation means that the caller and the stream have diverged, as when
//! two writers race for one stream. It is no transport fault and no retry
//! mends it: whoever receives one must halt.

use vstd::prelude::*;
use crate::events::{RollupsData, RollupsDataView, RollupsInput, RollupsInputView};

verus! {

/// The check that a record failed, with what was found and what the caller
/// declared.
#[derive(Clone, Copy, Debug, PartialEq, Eq)]
pub enum SequencingViolation {
    /// The record's count of inputs is not the declared one.
    InputsSentCount { found: u64, declared: u64 },
    /// The record is no input, where an input was to be published.
    NotAdvanceStateInput,
    /// The input's metadata carries an epoch other than 0.
    MetadataEpochIndex { found: u64 },
    /// The input's metadata carries an index other than the declared one.
    MetadataInputIndex { found: u64, declared: u64 },
    /// The record closes no epoch, where an epoch was to be closed.
    NotFinishEpoch,
}

/// An input record stands where the caller expects: it counts one more than
/// the declared index, and its metadata carries epoch 0 and that index.
pub open spec fn input_check_passes(event: RollupsInputView, input_index: nat) -> bool {
    &&& event.inputs_sent_count == input_index + 1
    &&& event.data matches RollupsDataView::AdvanceStateInput(advance)
    &&& advance.metadata.epoch_index == 0
    &&& advance.metadata.input_index == input_index
}

/// A record that closes an epoch stands where the caller expects: it counts
/// the declared number of inputs.
pub open spec fn epoch_check_passes(event: RollupsInputView, inputs_sent_count: nat) -> bool {
    &&& event.inputs_sent_count == inputs_sent_count
    &&& event.data is FinishEpoch
}

/// The outcome of the check on an input record: the first of the conditions
/// of [`input_check_passes`] that fails, the count before the metadata.
pub open spec fn input_check(event: RollupsInput, input_index: u64) -> Result<
    (),
    SequencingViolation,
> {
    if event.inputs_sent_count != input_index + 1 {
        Err(
            SequencingViolation::InputsSentCount {
                found: event.inputs_sent_count,
                declared: input_index,
            },
        )
    } else {
        match event.data {
            RollupsData::FinishEpoch => Err(SequencingViolation::NotAdvanceStateInput),
            RollupsData::AdvanceStateInput(advance) => if advance.metadata.epoch_index != 0 {
                Err(SequencingViolation::MetadataEpochIndex { found: advance.metadata.epoch_index })
            } else if advance.metadata.input_index != input_index {
                Err(
                    SequencingViolation::MetadataInputIndex {
                        found: advance.metadata.input_index,
                        declared: input_index,
                    },
                )
            } else {
                Ok(())
            },
        }
    }
}

/// The outcome of the check on a record that closes an epoch: the first of
/// the conditions of [`epoch_check_passes`] that fails.
pub open spec fn epoch_check(event: RollupsInput, inputs_sent_count: u64) -> Result<
    (),
    SequencingViolation,
> {
    if event.inputs_sent_count != inputs_sent_count {
        Err(
            SequencingViolation::InputsSentCount {
                found: event.inputs_sent_count,
                declared: inputs_sent_count,
            },
        )
    } else if event.data is FinishEpoch {
        Ok(())
    } else {
        Err(SequencingViolation::NotFinishEpoch)
    }
}

/// Checks an input record against the index that the caller declared.
pub fn input_sanity_check(event: &RollupsInput, input_index: u64) -> (checked: Result<
    (),
    SequencingViolation,
>)
    ensures
        checked == input_check(*event, input_index),
        checked is Ok <==> input_check_passes(event@, input_index as nat),
{
    if input_index == u64::MAX || event.inputs_sent_count != input_index + 1 {
        return Err(
            SequencingViolation::InputsSentCount {
                found: event.inputs_sent_count,
                declared: input_index,
            },
        );
    }
    match &event.data {
        RollupsData::FinishEpoch => Err(SequencingViolation::NotAdvanceStateInput),
        RollupsData::AdvanceStateInput(advance) => {
            if advance.metadata.epoch_index != 0 {
                Err(SequencingViolation::MetadataEpochIndex { found: advance.metadata.epoch_index })
            } else if advance.metadata.input_index != input_index {
                Err(
                    SequencingViolation::MetadataInputIndex {
                        found: advance.metadata.input_index,
                        declared: input_index,
                    },
                )
            } else {
                Ok(())
            }
        },
    }
}

/// Checks a record that closes an epoch against the count that the caller
/// declared.
pub fn epoch_sanity_check(event: &RollupsInput, inputs_sent_count: u64) -> (checked: Result<
    (),
    SequencingViolation,
>)
    ensures
        checked == epoch_check(*event, inputs_sent_count),
        checked is Ok <==> epoch_check_passes(event@, inputs_sent_count as nat),
{
    if event.inputs_sent_count != inputs_sent_count {
        return Err(
            SequencingViolation::InputsSentCount {
                found: event.inputs_sent_count,
                declared: inputs_sent_count,
            },
        );
    }
    match &event.data {
        RollupsData::FinishEpoch => Ok(()),
        RollupsData::AdvanceStateInput(_) => Err(SequencingViolation::NotFinishEpoch),
    }
}

} // verus!

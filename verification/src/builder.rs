//! Construction of the next record of the inputs stream.

use vstd::prelude::*;
use crate::events::{
    Input, InputMetadata, InputMetadataView, InputView, RollupsAdvanceStateInput,
    RollupsAdvanceStateInputView, RollupsData, RollupsDataView, RollupsInput, RollupsInputView,
};
use crate::status::{BrokerStreamStatus, StreamPosition};

verus! {

/// The record that sequences `input` at `position`. It is linked to the
/// latest entry, belongs to the current epoch and counts one input more. Its
/// metadata carries the count before it as the input's index, and epoch 0:
/// the metadata's epoch is a fixed placeholder, not the epoch of the record.
pub open spec fn next_input(input: InputView, position: StreamPosition) -> RollupsInputView {
    RollupsInputView {
        parent_id: position.id,
        epoch_index: position.epoch_number,
        inputs_sent_count: position.status.inputs_sent_count + 1,
        data: RollupsDataView::AdvanceStateInput(
            RollupsAdvanceStateInputView {
                metadata: InputMetadataView {
                    msg_sender: input.sender,
                    block_number: input.block_number,
                    timestamp: input.timestamp,
                    epoch_index: 0,
                    input_index: position.status.inputs_sent_count,
                },
                payload: input.payload,
                tx_hash: input.tx_hash,
            },
        ),
    }
}

/// The record that closes the current epoch at `position`. It is linked to
/// the latest entry and leaves the count of inputs as it is.
pub open spec fn next_finish_epoch(position: StreamPosition) -> RollupsInputView {
    RollupsInputView {
        parent_id: position.id,
        epoch_index: position.epoch_number,
        inputs_sent_count: position.status.inputs_sent_count,
        data: RollupsDataView::FinishEpoch,
    }
}

/// Builds the record that sequences `input` after the latest entry. The
/// count of inputs must have room for one more.
pub fn build_next_input(input: &Input, status: &BrokerStreamStatus) -> (event: RollupsInput)
    requires
        status@.can_advance(),
    ensures
        event@ == next_input(input@, status@),
        event@.well_formed(),
{
    let metadata = InputMetadata {
        msg_sender: input.sender,
        block_number: input.block_added.number,
        timestamp: input.block_added.timestamp,
        epoch_index: 0,
        input_index: status.status.inputs_sent_count,
    };
    let payload = input.payload.clone();
    let data = RollupsData::AdvanceStateInput(
        RollupsAdvanceStateInput { metadata, payload, tx_hash: input.tx_hash },
    );
    RollupsInput {
        parent_id: status.id.clone(),
        epoch_index: status.epoch_number,
        inputs_sent_count: status.status.inputs_sent_count + 1,
        data,
    }
}

/// Builds the record that closes the current epoch after the latest entry.
pub fn build_next_finish_epoch(status: &BrokerStreamStatus) -> (event: RollupsInput)
    ensures
        event@ == next_finish_epoch(status@),
        event@.well_formed(),
{
    RollupsInput {
        parent_id: status.id.clone(),
        epoch_index: status.epoch_number,
        inputs_sent_count: status.status.inputs_sent_count,
        data: RollupsData::FinishEpoch,
    }
}

} // verus!

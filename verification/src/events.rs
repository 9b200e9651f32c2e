//! The records that travel through the inputs and claims streams, and the
//! mathematical model of each.

use vstd::prelude::*;

verus! {

/// Number of bytes of an account address.
pub const ADDRESS_SIZE: usize = 20;

/// Number of bytes of a digest.
pub const HASH_SIZE: usize = 32;

/// The cursor token that stands before the first entry of every stream.
pub const INITIAL_ID: &'static str = "0";

/// Metadata of an input as the execution machine reads it.
#[derive(Clone, Copy, Debug, PartialEq, Eq)]
pub struct InputMetadata {
    pub msg_sender: [u8; ADDRESS_SIZE],
    pub block_number: u64,
    pub timestamp: u64,
    pub epoch_index: u64,
    pub input_index: u64,
}

/// Model of [`InputMetadata`].
pub struct InputMetadataView {
    pub msg_sender: Seq<u8>,
    pub block_number: nat,
    pub timestamp: nat,
    pub epoch_index: nat,
    pub input_index: nat,
}

impl View for InputMetadata {
    type V = InputMetadataView;

    open spec fn view(&self) -> InputMetadataView {
        InputMetadataView {
            msg_sender: self.msg_sender@,
            block_number: self.block_number as nat,
            timestamp: self.timestamp as nat,
            epoch_index: self.epoch_index as nat,
            input_index: self.input_index as nat,
        }
    }
}

/// An input that advances the state of the rollup.
#[derive(Clone, Debug, PartialEq, Eq)]
pub struct RollupsAdvanceStateInput {
    pub metadata: InputMetadata,
    pub payload: Vec<u8>,
    pub tx_hash: [u8; HASH_SIZE],
}

/// Model of [`RollupsAdvanceStateInput`].
pub struct RollupsAdvanceStateInputView {
    pub metadata: InputMetadataView,
    pub payload: Seq<u8>,
    pub tx_hash: Seq<u8>,
}

impl View for RollupsAdvanceStateInput {
    type V = RollupsAdvanceStateInputView;

    open spec fn view(&self) -> RollupsAdvanceStateInputView {
        RollupsAdvanceStateInputView {
            metadata: self.metadata@,
            payload: self.payload@,
            tx_hash: self.tx_hash@,
        }
    }
}

/// What a record of the inputs stream carries.
#[derive(Clone, Debug, PartialEq, Eq)]
pub enum RollupsData {
    /// One more input in the current epoch.
    AdvanceStateInput(RollupsAdvanceStateInput),
    /// The current epoch is closed.
    FinishEpoch,
}

/// Model of [`RollupsData`].
pub enum RollupsDataView {
    AdvanceStateInput(RollupsAdvanceStateInputView),
    FinishEpoch,
}

impl View for RollupsData {
    type V = RollupsDataView;

    open spec fn view(&self) -> RollupsDataView {
        match self {
            RollupsData::AdvanceStateInput(advance) => RollupsDataView::AdvanceStateInput(
                advance@,
            ),
            RollupsData::FinishEpoch => RollupsDataView::FinishEpoch,
        }
    }
}

/// A record of the inputs stream.
#[derive(Clone, Debug, PartialEq, Eq)]
pub struct RollupsInput {
    /// Id of the entry that was the latest when this record was built.
    pub parent_id: String,
    /// Epoch the record belongs to.
    pub epoch_index: u64,
    /// Inputs sequenced so far, this record included.
    pub inputs_sent_count: u64,
    pub data: RollupsData,
}

/// Model of [`RollupsInput`].
pub struct RollupsInputView {
    pub parent_id: Seq<char>,
    pub epoch_index: nat,
    pub inputs_sent_count: nat,
    pub data: RollupsDataView,
}

impl View for RollupsInput {
    type V = RollupsInputView;

    open spec fn view(&self) -> RollupsInputView {
        RollupsInputView {
            parent_id: self.parent_id@,
            epoch_index: self.epoch_index as nat,
            inputs_sent_count: self.inputs_sent_count as nat,
            data: self.data@,
        }
    }
}

impl RollupsInputView {
    /// The record counts itself: an input's running count is one more than
    /// its index, and its metadata carries epoch 0.
    pub open spec fn well_formed(self) -> bool {
        match self.data {
            RollupsDataView::AdvanceStateInput(advance) => {
                &&& self.inputs_sent_count == advance.metadata.input_index + 1
                &&& advance.metadata.epoch_index == 0
            },
            RollupsDataView::FinishEpoch => true,
        }
    }
}

/// A record of the claims stream.
#[derive(Clone, Copy, Debug, PartialEq, Eq)]
pub struct RollupsClaim {
    pub epoch_index: u64,
    pub claim: [u8; HASH_SIZE],
}

/// Model of [`RollupsClaim`].
pub struct RollupsClaimView {
    pub epoch_index: nat,
    pub claim: Seq<u8>,
}

impl View for RollupsClaim {
    type V = RollupsClaimView;

    open spec fn view(&self) -> RollupsClaimView {
        RollupsClaimView { epoch_index: self.epoch_index as nat, claim: self.claim@ }
    }
}

/// An entry of a stream: a record and the id that the stream gave it.
#[derive(Clone, Debug, PartialEq, Eq)]
pub struct Event<P> {
    pub id: String,
    pub payload: P,
}

/// Model of [`Event`].
pub struct EventView<P> {
    pub id: Seq<char>,
    pub payload: P,
}

impl<P: View> View for Event<P> {
    type V = EventView<P::V>;

    open spec fn view(&self) -> EventView<P::V> {
        EventView { id: self.id@, payload: self.payload@ }
    }
}

/// The model of what may be absent.
pub open spec fn option_view<T: View>(value: Option<T>) -> Option<T::V> {
    match value {
        Some(inner) => Some(inner@),
        None => None,
    }
}

/// The block in which an input was added to the chain.
#[derive(Clone, Copy, Debug, PartialEq, Eq)]
pub struct Block {
    pub number: u64,
    pub timestamp: u64,
}

/// An input as the chain observer found it.
#[derive(Clone, Debug, PartialEq, Eq)]
pub struct Input {
    pub sender: [u8; ADDRESS_SIZE],
    pub payload: Vec<u8>,
    pub block_added: Block,
    pub dapp: [u8; ADDRESS_SIZE],
    pub tx_hash: [u8; HASH_SIZE],
}

/// Model of [`Input`]: what the sequencer reads of it.
pub struct InputView {
    pub sender: Seq<u8>,
    pub payload: Seq<u8>,
    pub block_number: nat,
    pub timestamp: nat,
    pub tx_hash: Seq<u8>,
}

impl View for Input {
    type V = InputView;

    open spec fn view(&self) -> InputView {
        InputView {
            sender: self.sender@,
            payload: self.payload@,
            block_number: self.block_added.number as nat,
            timestamp: self.block_added.timestamp as nat,
            tx_hash: self.tx_hash@,
        }
    }
}

} // verus!

//! The facade: the decisions of each operation, between the calls to the
//! transport.
//!
//! An operation is run in turns. The caller asks the transport, under the
//! lock that serialises the operations of one facade, and hands the answer to
//! the method of that operation, which says what is returned or what is to be
//! appended. Nothing but the cursor into the claims stream outlives a call:
//! the position is derived anew from each answer.

use vstd::prelude::*;
use crate::builder::{build_next_finish_epoch, build_next_input, next_finish_epoch, next_input};
use crate::claims::RollupClaim;
use crate::config::{BrokerConfig, DAppMetadata};
use crate::cursor::{claim_relayed, cursor_after_read};
use crate::error::{BrokerError, BrokerFacadeError};
use crate::events::{option_view, Event, Input, RollupsClaim, RollupsInput, INITIAL_ID};
use crate::guard::{
    epoch_check_passes, epoch_sanity_check, input_check_passes, input_sanity_check,
    SequencingViolation,
};
use crate::status::{position_of_latest, status_of_latest, BrokerStreamStatus, RollupStatus};

verus! {

/// What follows the look at the end of the inputs stream in an operation
/// that appends.
#[derive(Clone, Debug, PartialEq, Eq)]
pub enum SendStep {
    /// Append this record to the inputs stream.
    Produce(RollupsInput),
    /// The look failed: return this error.
    Fail(BrokerFacadeError),
    /// The caller and the stream have diverged: halt, and publish nothing.
    Halt(SequencingViolation),
}

/// The sequencing facade of one rollup.
#[derive(Debug)]
pub struct BrokerFacade {
    dapp_metadata: DAppMetadata,
    last_claim_id: String,
}

/// Model of [`BrokerFacade`].
pub struct BrokerFacadeView {
    /// The rollup whose streams the facade writes and reads.
    pub dapp_metadata: DAppMetadata,
    /// Id of the claim that was relayed last, or the initial token.
    pub last_claim_id: Seq<char>,
}

impl View for BrokerFacade {
    type V = BrokerFacadeView;

    closed spec fn view(&self) -> BrokerFacadeView {
        BrokerFacadeView { dapp_metadata: self.dapp_metadata, last_claim_id: self.last_claim_id@ }
    }
}

impl BrokerFacade {
    /// The facade for the rollup that `config` names, given how connecting
    /// with `config.connection()` went. The cursor into the claims stream
    /// starts before the first claim.
    pub fn new(config: &BrokerConfig, connected: Result<(), BrokerError>) -> (facade: Result<
        BrokerFacade,
        BrokerFacadeError,
    >)
        ensures
            match connected {
                Ok(_) => {
                    &&& facade matches Ok(ready)
                    &&& ready@.dapp_metadata.chain_id == config.chain_id
                    &&& ready@.dapp_metadata.dapp_address == config.dapp_contract_address
                    &&& ready@.last_claim_id == INITIAL_ID@
                },
                Err(source) => facade == Err::<BrokerFacade, BrokerFacadeError>(
                    (BrokerFacadeError::BrokerConnectionError { source }),
                ),
            },
    {
        match connected {
            Ok(_) => Ok(
                BrokerFacade {
                    dapp_metadata: config.dapp_metadata(),
                    last_claim_id: INITIAL_ID.to_owned(),
                },
            ),
            Err(source) => Err(BrokerFacadeError::BrokerConnectionError { source }),
        }
    }

    /// The rollup whose streams the facade writes and reads.
    pub fn dapp_metadata(&self) -> (metadata: DAppMetadata)
        ensures
            metadata == self@.dapp_metadata,
    {
        self.dapp_metadata
    }

    /// The cursor to read the claims stream after.
    pub fn last_claim_id(&self) -> (id: &String)
        ensures
            id@ == self@.last_claim_id,
    {
        &self.last_claim_id
    }

    /// The latest entry of the inputs stream, given the transport's answer.
    pub fn peek(&self, response: Result<Option<Event<RollupsInput>>, BrokerError>) -> (latest:
        Result<Option<Event<RollupsInput>>, BrokerFacadeError>)
        ensures
            match response {
                Ok(event) => latest == Ok::<Option<Event<RollupsInput>>, BrokerFacadeError>(event),
                Err(source) => latest == Err::<Option<Event<RollupsInput>>, BrokerFacadeError>(
                    (BrokerFacadeError::PeekInputError { source }),
                ),
            },
    {
        match response {
            Ok(event) => Ok(event),
            Err(source) => Err(BrokerFacadeError::PeekInputError { source }),
        }
    }

    /// The position of the next record, given the transport's answer to the
    /// look at the end of the inputs stream. The answer must stand the test
    /// of `can_finish_epoch`.
    pub fn broker_status(
        &self,
        response: Result<Option<Event<RollupsInput>>, BrokerError>,
    ) -> (position: Result<BrokerStreamStatus, BrokerFacadeError>)
        requires
            response matches Ok(latest) ==> position_of_latest(option_view(latest)).representable(),
        ensures
            match response {
                Ok(latest) => {
                    &&& position matches Ok(derived)
                    &&& derived@ == position_of_latest(option_view(latest))
                },
                Err(source) => position == Err::<BrokerStreamStatus, BrokerFacadeError>(
                    (BrokerFacadeError::PeekInputError { source }),
                ),
            },
    {
        match self.peek(response) {
            Ok(latest) => Ok(BrokerStreamStatus::from_latest(latest)),
            Err(error) => Err(error),
        }
    }

    /// The next claim, given the transport's answer to a read after the
    /// cursor.
    pub fn claim(&self, response: Result<Option<Event<RollupsClaim>>, BrokerError>) -> (event:
        Result<Option<Event<RollupsClaim>>, BrokerFacadeError>)
        ensures
            match response {
                Ok(found) => event == Ok::<Option<Event<RollupsClaim>>, BrokerFacadeError>(found),
                Err(source) => event == Err::<Option<Event<RollupsClaim>>, BrokerFacadeError>(
                    (BrokerFacadeError::ConsumeClaimError { source }),
                ),
            },
    {
        match response {
            Ok(found) => Ok(found),
            Err(source) => Err(BrokerFacadeError::ConsumeClaimError { source }),
        }
    }

    /// The status of the rollup, given the transport's answer to the look at
    /// the end of the inputs stream.
    pub fn status(&self, response: Result<Option<Event<RollupsInput>>, BrokerError>) -> (status:
        Result<RollupStatus, BrokerFacadeError>)
        ensures
            match response {
                Ok(latest) => {
                    &&& status matches Ok(derived)
                    &&& derived@ == status_of_latest(option_view(latest))
                },
                Err(source) => status == Err::<RollupStatus, BrokerFacadeError>(
                    (BrokerFacadeError::PeekInputError { source }),
                ),
            },
    {
        match self.peek(response) {
            Ok(Some(event)) => Ok(RollupStatus::from(event.payload)),
            Ok(None) => Ok(RollupStatus::default()),
            Err(error) => Err(error),
        }
    }

    /// Whether the record of one more input after the entry that the
    /// transport answered with can be held in machine integers, as
    /// `enqueue_input` asks. It cannot once a count or an epoch has reached
    /// the largest `u64`.
    pub fn can_enqueue_input(
        &self,
        response: &Result<Option<Event<RollupsInput>>, BrokerError>,
    ) -> (fits: bool)
        ensures
            fits == (*response matches Ok(latest) ==> position_of_latest(
                option_view(latest),
            ).can_advance()),
    {
        match response {
            Ok(latest) => BrokerStreamStatus::is_representable(latest) && match latest {
                Some(event) => event.payload.inputs_sent_count < u64::MAX,
                None => true,
            },
            Err(_) => true,
        }
    }

    /// Whether the position after the entry that the transport answered with
    /// can be held in machine integers, as `finish_epoch` and `broker_status`
    /// ask.
    pub fn can_finish_epoch(
        &self,
        response: &Result<Option<Event<RollupsInput>>, BrokerError>,
    ) -> (fits: bool)
        ensures
            fits == (*response matches Ok(latest) ==> position_of_latest(
                option_view(latest),
            ).representable()),
    {
        match response {
            Ok(latest) => BrokerStreamStatus::is_representable(latest),
            Err(_) => true,
        }
    }

    /// Decides on sequencing `input` as the input of index `input_index`,
    /// given the transport's answer to the look at the end of the inputs
    /// stream. The record is built at the position that the answer gives and
    /// is to be appended if and only if that position has counted
    /// `input_index` inputs. The answer must stand the test of
    /// `can_enqueue_input`.
    pub fn enqueue_input(
        &self,
        input_index: u64,
        input: &Input,
        response: Result<Option<Event<RollupsInput>>, BrokerError>,
    ) -> (step: SendStep)
        requires
            response matches Ok(latest) ==> position_of_latest(option_view(latest)).can_advance(),
        ensures
            match response {
                Ok(latest) => {
                    let position = position_of_latest(option_view(latest));
                    if position.status.inputs_sent_count == input_index {
                        &&& step matches SendStep::Produce(event)
                        &&& event@ == next_input(input@, position)
                        &&& input_check_passes(event@, input_index as nat)
                    } else {
                        &&& step matches SendStep::Halt(violation)
                        &&& violation == (SequencingViolation::InputsSentCount {
                            found: (position.status.inputs_sent_count + 1) as u64,
                            declared: input_index,
                        })
                    }
                },
                Err(source) => step == SendStep::Fail(
                    (BrokerFacadeError::PeekInputError { source }),
                ),
            },
    {
        let status = match self.broker_status(response) {
            Ok(status) => status,
            Err(error) => { return SendStep::Fail(error); },
        };
        let event = build_next_input(input, &status);
        match input_sanity_check(&event, input_index) {
            Ok(_) => SendStep::Produce(event),
            Err(violation) => SendStep::Halt(violation),
        }
    }

    /// The outcome of sequencing an input, given the transport's answer to
    /// the append: the id that the stream gave the record, or a failure.
    pub fn input_produced(&self, response: Result<String, BrokerError>) -> (outcome: Result<
        (),
        BrokerFacadeError,
    >)
        ensures
            match response {
                Ok(_) => outcome == Ok::<(), BrokerFacadeError>(()),
                Err(source) => outcome == Err::<(), BrokerFacadeError>(
                    (BrokerFacadeError::ProduceInputError { source }),
                ),
            },
    {
        match response {
            Ok(_) => Ok(()),
            Err(source) => Err(BrokerFacadeError::ProduceInputError { source }),
        }
    }

    /// Decides on closing the current epoch after `inputs_sent_count`
    /// inputs, given the transport's answer to the look at the end of the
    /// inputs stream. The record is built at the position that the answer
    /// gives and is to be appended if and only if that position has counted
    /// `inputs_sent_count` inputs. The answer must stand the test of
    /// `can_finish_epoch`.
    pub fn finish_epoch(
        &self,
        inputs_sent_count: u64,
        response: Result<Option<Event<RollupsInput>>, BrokerError>,
    ) -> (step: SendStep)
        requires
            response matches Ok(latest) ==> position_of_latest(option_view(latest)).representable(),
        ensures
            match response {
                Ok(latest) => {
                    let position = position_of_latest(option_view(latest));
                    if position.status.inputs_sent_count == inputs_sent_count {
                        &&& step matches SendStep::Produce(event)
                        &&& event@ == next_finish_epoch(position)
                        &&& epoch_check_passes(event@, inputs_sent_count as nat)
                    } else {
                        &&& step matches SendStep::Halt(violation)
                        &&& violation == (SequencingViolation::InputsSentCount {
                            found: position.status.inputs_sent_count as u64,
                            declared: inputs_sent_count,
                        })
                    }
                },
                Err(source) => step == SendStep::Fail(
                    (BrokerFacadeError::PeekInputError { source }),
                ),
            },
    {
        let status = match self.broker_status(response) {
            Ok(status) => status,
            Err(error) => { return SendStep::Fail(error); },
        };
        let event = build_next_finish_epoch(&status);
        match epoch_sanity_check(&event, inputs_sent_count) {
            Ok(_) => SendStep::Produce(event),
            Err(violation) => SendStep::Halt(violation),
        }
    }

    /// The outcome of closing an epoch, given the transport's answer to the
    /// append.
    pub fn epoch_finished(&self, response: Result<String, BrokerError>) -> (outcome: Result<
        (),
        BrokerFacadeError,
    >)
        ensures
            match response {
                Ok(_) => outcome == Ok::<(), BrokerFacadeError>(()),
                Err(source) => outcome == Err::<(), BrokerFacadeError>(
                    (BrokerFacadeError::ProduceFinishError { source }),
                ),
            },
    {
        match response {
            Ok(_) => Ok(()),
            Err(source) => Err(BrokerFacadeError::ProduceFinishError { source }),
        }
    }

    /// Relays the next claim, given the transport's answer to a read of the
    /// claims stream after `last_claim_id()`. The cursor moves to a claim
    /// that was read, and stays where none was or the read failed.
    pub fn next_claim(
        &mut self,
        response: Result<Option<Event<RollupsClaim>>, BrokerError>,
    ) -> (claim: Result<Option<RollupClaim>, BrokerFacadeError>)
        ensures
            final(self)@.dapp_metadata == old(self)@.dapp_metadata,
            match response {
                Ok(found) => {
                    &&& claim matches Ok(relayed)
                    &&& option_view(relayed) == claim_relayed(option_view(found))
                    &&& final(self)@.last_claim_id == cursor_after_read(
                        old(self)@.last_claim_id,
                        option_view(found),
                    )
                },
                Err(source) => {
                    &&& claim == Err::<Option<RollupClaim>, BrokerFacadeError>(
                        (BrokerFacadeError::ConsumeClaimError { source }),
                    )
                    &&& final(self)@.last_claim_id == old(self)@.last_claim_id
                },
            },
    {
        match self.claim(response) {
            Ok(Some(event)) => {
                self.last_claim_id = event.id.clone();
                Ok(Some(RollupClaim::from(event)))
            },
            Ok(None) => Ok(None),
            Err(error) => Err(error),
        }
    }
}

} // verus!

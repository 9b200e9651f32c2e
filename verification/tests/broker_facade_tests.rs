//! The facade's operations, run against a broker that keeps its streams in
//! memory.

use std::time::Duration;

use broker_facade::claims::RollupClaim;
use broker_facade::config::BrokerConfig;
use broker_facade::error::{BrokerError, BrokerFacadeError};
use broker_facade::events::{
    Block, Event, Input, InputMetadata, RollupsAdvanceStateInput, RollupsClaim, RollupsData,
    RollupsInput, ADDRESS_SIZE, HASH_SIZE, INITIAL_ID,
};
use broker_facade::facade::{BrokerFacade, SendStep};
use broker_facade::guard::SequencingViolation;
use broker_facade::status::RollupStatus;

// --------------------------------------------------------------------------------------------
// auxiliary
// --------------------------------------------------------------------------------------------

/// A broker with one inputs stream and one claims stream.
struct BrokerFixture {
    inputs: Vec<Event<RollupsInput>>,
    claims: Vec<Event<RollupsClaim>>,
    ids_given: u64,
    down: bool,
}

impl BrokerFixture {
    fn setup() -> BrokerFixture {
        BrokerFixture { inputs: Vec::new(), claims: Vec::new(), ids_given: 0, down: false }
    }

    fn fresh_id(&mut self) -> String {
        self.ids_given += 1;
        format!("{}-0", 1_700_000_000_000 + self.ids_given)
    }

    fn failure(&self) -> BrokerError {
        BrokerError { reason: "connection refused".to_owned() }
    }

    fn peek_latest(&self) -> Result<Option<Event<RollupsInput>>, BrokerError> {
        if self.down {
            return Err(self.failure());
        }
        Ok(self.inputs.last().cloned())
    }

    fn produce(&mut self, record: RollupsInput) -> Result<String, BrokerError> {
        if self.down {
            return Err(self.failure());
        }
        let id = self.fresh_id();
        self.inputs.push(Event { id: id.clone(), payload: record });
        Ok(id)
    }

    fn consume_nonblocking(
        &self,
        last_consumed_id: &str,
    ) -> Result<Option<Event<RollupsClaim>>, BrokerError> {
        if self.down {
            return Err(self.failure());
        }
        let next = if last_consumed_id == INITIAL_ID {
            0
        } else {
            match self.claims.iter().position(|event| event.id == last_consumed_id) {
                Some(place) => place + 1,
                None => self.claims.len(),
            }
        };
        Ok(self.claims.get(next).cloned())
    }

    /// Appends a record for `data` as a writer of its own kind: one that
    /// starts the count of inputs anew after a closed epoch.
    fn produce_input_event(&mut self, data: RollupsData) {
        let (parent_id, epoch_index, previous_count) = match self.inputs.last() {
            Some(event) => match event.payload.data {
                RollupsData::AdvanceStateInput(_) => {
                    (event.id.clone(), event.payload.epoch_index, event.payload.inputs_sent_count)
                }
                RollupsData::FinishEpoch => (event.id.clone(), event.payload.epoch_index + 1, 0),
            },
            None => (INITIAL_ID.to_owned(), 0, 0),
        };
        let inputs_sent_count = match data {
            RollupsData::AdvanceStateInput(_) => previous_count + 1,
            RollupsData::FinishEpoch => previous_count,
        };
        let id = self.fresh_id();
        self.inputs.push(Event {
            id,
            payload: RollupsInput { parent_id, epoch_index, inputs_sent_count, data },
        });
    }

    /// Appends a claim for the epoch after the one claimed last.
    fn produce_claim(&mut self, claim: [u8; HASH_SIZE]) {
        let epoch_index = match self.claims.last() {
            Some(event) => event.payload.epoch_index + 1,
            None => 0,
        };
        let id = self.fresh_id();
        self.claims.push(Event { id, payload: RollupsClaim { epoch_index, claim } });
    }
}

fn config(endpoint: &str) -> BrokerConfig {
    BrokerConfig {
        redis_endpoint: endpoint.to_owned(),
        chain_id: 1,
        dapp_contract_address: [0; 20],
        claims_consume_timeout: 300000,
        backoff_max_elapsed_duration: Duration::from_millis(1000),
    }
}

fn setup() -> (BrokerFixture, BrokerFacade) {
    let fixture = BrokerFixture::setup();
    let broker = BrokerFacade::new(&config("redis://127.0.0.1:6379"), Ok(())).unwrap();
    (fixture, broker)
}

fn halt(violation: SequencingViolation, right: u128) -> Result<(), BrokerFacadeError> {
    match violation {
        SequencingViolation::InputsSentCount { found, .. } => {
            panic!("assertion failed: `(left == right)`\n  left: `{}`,\n right: `{}`", found, right)
        }
        other => panic!("assertion failed: {:?}", other),
    }
}

fn status(
    broker: &BrokerFacade,
    fixture: &BrokerFixture,
) -> Result<RollupStatus, BrokerFacadeError> {
    broker.status(fixture.peek_latest())
}

fn enqueue_input(
    broker: &BrokerFacade,
    fixture: &mut BrokerFixture,
    input_index: u64,
    input: &Input,
) -> Result<(), BrokerFacadeError> {
    let latest = fixture.peek_latest();
    assert!(broker.can_enqueue_input(&latest), "attempt to add with overflow");
    match broker.enqueue_input(input_index, input, latest) {
        SendStep::Produce(event) => broker.input_produced(fixture.produce(event)),
        SendStep::Fail(error) => Err(error),
        SendStep::Halt(violation) => halt(violation, input_index as u128 + 1),
    }
}

fn finish_epoch(
    broker: &BrokerFacade,
    fixture: &mut BrokerFixture,
    inputs_sent_count: u64,
) -> Result<(), BrokerFacadeError> {
    let latest = fixture.peek_latest();
    assert!(broker.can_finish_epoch(&latest), "attempt to add with overflow");
    match broker.finish_epoch(inputs_sent_count, latest) {
        SendStep::Produce(event) => broker.epoch_finished(fixture.produce(event)),
        SendStep::Fail(error) => Err(error),
        SendStep::Halt(violation) => halt(violation, inputs_sent_count as u128),
    }
}

fn next_claim(
    broker: &mut BrokerFacade,
    fixture: &BrokerFixture,
) -> Result<Option<RollupClaim>, BrokerFacadeError> {
    let found = fixture.consume_nonblocking(broker.last_claim_id());
    broker.next_claim(found)
}

fn new_enqueue_input() -> Input {
    Input {
        sender: [0x5e; ADDRESS_SIZE],
        payload: vec![],
        block_added: Block { number: 0, timestamp: 0 },
        dapp: [0xda; ADDRESS_SIZE],
        tx_hash: [0x7a; HASH_SIZE],
    }
}

fn produce_advance_state_inputs(fixture: &mut BrokerFixture, n: u32) {
    for _ in 0..n {
        fixture.produce_input_event(RollupsData::AdvanceStateInput(RollupsAdvanceStateInput {
            metadata: InputMetadata {
                msg_sender: [0; ADDRESS_SIZE],
                block_number: 0,
                timestamp: 0,
                epoch_index: 0,
                input_index: 0,
            },
            payload: Vec::new(),
            tx_hash: [0; HASH_SIZE],
        }));
    }
}

fn produce_finish_epoch_input(fixture: &mut BrokerFixture) {
    fixture.produce_input_event(RollupsData::FinishEpoch);
}

fn produce_claims(fixture: &mut BrokerFixture, n: u32) -> Vec<[u8; HASH_SIZE]> {
    let mut hashes = Vec::new();
    for i in 0..n {
        let hash = [i as u8; HASH_SIZE];
        fixture.produce_claim(hash);
        hashes.push(hash);
    }
    hashes
}

// --------------------------------------------------------------------------------------------
// new
// --------------------------------------------------------------------------------------------

#[test]
fn new_ok() {
    let (_fixture, _broker) = setup();
}

#[test]
fn new_error() {
    let result = BrokerFacade::new(
        &config("redis://invalid"),
        Err(BrokerError { reason: "failed to connect".to_owned() }),
    );
    let error = result.err().expect("'status' function has not failed").message();
    // BrokerFacadeError::BrokerConnectionError
    assert_eq!(error, "error connecting to the broker");
}

#[test]
fn new_keeps_the_rollup_and_starts_before_the_first_claim() {
    let mut settings = config("redis://127.0.0.1:6379");
    settings.chain_id = 31337;
    settings.dapp_contract_address = [0xab; ADDRESS_SIZE];
    let broker = BrokerFacade::new(&settings, Ok(())).unwrap();
    assert_eq!(broker.dapp_metadata().chain_id, 31337);
    assert_eq!(broker.dapp_metadata().dapp_address, [0xab; ADDRESS_SIZE]);
    assert_eq!(broker.last_claim_id(), "0");
}

#[test]
fn new_error_keeps_the_source() {
    let source = BrokerError { reason: "no route to host".to_owned() };
    let error = BrokerFacade::new(&config("redis://invalid"), Err(source.clone())).unwrap_err();
    assert_eq!(error, BrokerFacadeError::BrokerConnectionError { source: source.clone() });
    assert_eq!(error.source(), &source);
}

// --------------------------------------------------------------------------------------------
// status
// --------------------------------------------------------------------------------------------

#[test]
fn status_inputs_sent_count_equals_0() {
    let (fixture, broker) = setup();
    let status = status(&broker, &fixture).expect("'status' function failed");
    assert_eq!(status.inputs_sent_count, 0);
    assert!(!status.last_event_is_finish_epoch);
}

#[test]
fn status_inputs_sent_count_equals_1() {
    let (mut fixture, broker) = setup();
    produce_advance_state_inputs(&mut fixture, 1);
    let status = status(&broker, &fixture).expect("'status' function failed");
    assert_eq!(status.inputs_sent_count, 1);
    assert!(!status.last_event_is_finish_epoch);
}

#[test]
fn status_inputs_sent_count_equals_10() {
    let (mut fixture, broker) = setup();
    produce_advance_state_inputs(&mut fixture, 10);
    let status = status(&broker, &fixture).expect("'status' function failed");
    assert_eq!(status.inputs_sent_count, 10);
    assert!(!status.last_event_is_finish_epoch);
}

#[test]
fn status_is_finish_epoch() {
    let (mut fixture, broker) = setup();
    produce_finish_epoch_input(&mut fixture);
    let status = status(&broker, &fixture).expect("'status' function failed");
    assert_eq!(status.inputs_sent_count, 0);
    assert!(status.last_event_is_finish_epoch);
}

#[test]
fn status_inputs_with_finish_epoch() {
    let (mut fixture, broker) = setup();
    produce_advance_state_inputs(&mut fixture, 5);
    produce_finish_epoch_input(&mut fixture);
    let status = status(&broker, &fixture).expect("'status' function failed");
    assert_eq!(status.inputs_sent_count, 5);
    assert!(status.last_event_is_finish_epoch);
}

#[test]
fn status_peek_error() {
    let (mut fixture, broker) = setup();
    fixture.down = true;
    let error = status(&broker, &fixture).unwrap_err();
    assert_eq!(
        error,
        BrokerFacadeError::PeekInputError {
            source: BrokerError { reason: "connection refused".to_owned() }
        }
    );
    assert_eq!(error.message(), "error peeking at the end of the stream");
}

#[test]
fn status_is_derived_anew_on_every_call() {
    let (mut fixture, broker) = setup();
    assert_eq!(status(&broker, &fixture).unwrap().inputs_sent_count, 0);
    produce_advance_state_inputs(&mut fixture, 2);
    assert_eq!(status(&broker, &fixture).unwrap().inputs_sent_count, 2);
    // A second facade on the same streams sees the same position.
    let restarted = BrokerFacade::new(&config("redis://127.0.0.1:6379"), Ok(())).unwrap();
    assert_eq!(status(&restarted, &fixture).unwrap(), status(&broker, &fixture).unwrap());
}

// --------------------------------------------------------------------------------------------
// enqueue_input
// --------------------------------------------------------------------------------------------

#[test]
fn enqueue_input_ok() {
    let (mut fixture, broker) = setup();
    for i in 0..3 {
        assert!(enqueue_input(&broker, &mut fixture, i, &new_enqueue_input()).is_ok());
    }
}

#[test]
#[should_panic(expected = "left: `1`,\n right: `6`")]
fn enqueue_input_assertion_error_1() {
    let (mut fixture, broker) = setup();
    let _ = enqueue_input(&broker, &mut fixture, 5, &new_enqueue_input());
}

#[test]
#[should_panic(expected = "left: `5`,\n right: `6`")]
fn enqueue_input_assertion_error_2() {
    let (mut fixture, broker) = setup();
    for i in 0..4 {
        assert!(enqueue_input(&broker, &mut fixture, i, &new_enqueue_input()).is_ok());
    }
    let _ = enqueue_input(&broker, &mut fixture, 5, &new_enqueue_input());
}

#[test]
fn enqueue_input_counts_each_accepted_input() {
    let (mut fixture, broker) = setup();
    for k in 0..20u64 {
        assert_eq!(status(&broker, &fixture).unwrap().inputs_sent_count, k);
        enqueue_input(&broker, &mut fixture, k, &new_enqueue_input()).unwrap();
        let after = status(&broker, &fixture).unwrap();
        assert_eq!(after.inputs_sent_count, k + 1);
        assert!(!after.last_event_is_finish_epoch);
    }
}

#[test]
fn enqueue_input_builds_the_record_at_the_latest_entry() {
    let (mut fixture, broker) = setup();
    let input = Input {
        sender: [0x11; ADDRESS_SIZE],
        payload: vec![0xde, 0xad, 0xbe, 0xef],
        block_added: Block { number: 42, timestamp: 1_650_000_000 },
        dapp: [0x22; ADDRESS_SIZE],
        tx_hash: [0x33; HASH_SIZE],
    };
    enqueue_input(&broker, &mut fixture, 0, &new_enqueue_input()).unwrap();
    enqueue_input(&broker, &mut fixture, 1, &input).unwrap();
    let first_id = fixture.inputs[0].id.clone();
    assert_eq!(fixture.inputs[0].payload.parent_id, "0");
    assert_eq!(
        fixture.inputs[1].payload,
        RollupsInput {
            parent_id: first_id,
            epoch_index: 0,
            inputs_sent_count: 2,
            data: RollupsData::AdvanceStateInput(RollupsAdvanceStateInput {
                metadata: InputMetadata {
                    msg_sender: [0x11; ADDRESS_SIZE],
                    block_number: 42,
                    timestamp: 1_650_000_000,
                    epoch_index: 0,
                    input_index: 1,
                },
                payload: vec![0xde, 0xad, 0xbe, 0xef],
                tx_hash: [0x33; HASH_SIZE],
            }),
        }
    );
}

#[test]
fn enqueue_input_halts_without_publishing() {
    let (mut fixture, broker) = setup();
    produce_advance_state_inputs(&mut fixture, 2);
    for declared in [0u64, 1, 3, 5, u64::MAX] {
        let step = broker.enqueue_input(declared, &new_enqueue_input(), fixture.peek_latest());
        assert_eq!(
            step,
            SendStep::Halt(SequencingViolation::InputsSentCount { found: 3, declared })
        );
    }
    assert_eq!(fixture.inputs.len(), 2);
    assert!(matches!(
        broker.enqueue_input(2, &new_enqueue_input(), fixture.peek_latest()),
        SendStep::Produce(_)
    ));
}

#[test]
fn enqueue_input_peek_error() {
    let (mut fixture, broker) = setup();
    fixture.down = true;
    let error = enqueue_input(&broker, &mut fixture, 0, &new_enqueue_input()).unwrap_err();
    assert_eq!(
        error,
        BrokerFacadeError::PeekInputError {
            source: BrokerError { reason: "connection refused".to_owned() }
        }
    );
}

#[test]
fn enqueue_input_produce_error() {
    let (_fixture, broker) = setup();
    let source = BrokerError { reason: "stream is read-only".to_owned() };
    let error = broker.input_produced(Err(source.clone())).unwrap_err();
    assert_eq!(error, BrokerFacadeError::ProduceInputError { source });
    assert_eq!(error.message(), "error producing input event");
    assert_eq!(broker.input_produced(Ok("1700000000001-0".to_owned())), Ok(()));
}

#[test]
fn enqueue_input_at_the_limits() {
    let (mut fixture, broker) = setup();
    fixture.inputs.push(Event {
        id: "1-0".to_owned(),
        payload: RollupsInput {
            parent_id: "0".to_owned(),
            epoch_index: 7,
            inputs_sent_count: u64::MAX - 1,
            data: RollupsData::FinishEpoch,
        },
    });
    assert!(broker.can_enqueue_input(&fixture.peek_latest()));
    enqueue_input(&broker, &mut fixture, u64::MAX - 1, &new_enqueue_input()).unwrap();
    assert_eq!(fixture.inputs[1].payload.inputs_sent_count, u64::MAX);
    assert_eq!(fixture.inputs[1].payload.epoch_index, 8);
    // The count cannot go on from here, but the epoch can still be closed.
    assert!(!broker.can_enqueue_input(&fixture.peek_latest()));
    assert!(broker.can_finish_epoch(&fixture.peek_latest()));
    finish_epoch(&broker, &mut fixture, u64::MAX).unwrap();
    assert_eq!(status(&broker, &fixture).unwrap().inputs_sent_count, u64::MAX);
}

// --------------------------------------------------------------------------------------------
// finish_epoch
// --------------------------------------------------------------------------------------------

#[test]
fn finish_epoch_ok_1() {
    let (mut fixture, broker) = setup();
    assert!(finish_epoch(&broker, &mut fixture, 0).is_ok());
    // BONUS TEST: testing for a finished epoch with no inputs
    assert!(finish_epoch(&broker, &mut fixture, 0).is_ok());
}

#[test]
fn finish_epoch_ok_2() {
    let (mut fixture, broker) = setup();
    produce_advance_state_inputs(&mut fixture, 3);
    produce_finish_epoch_input(&mut fixture);
    let n = 7;
    produce_advance_state_inputs(&mut fixture, n);
    assert!(finish_epoch(&broker, &mut fixture, n as u64).is_ok());
}

#[test]
#[should_panic(expected = "left: `0`,\n right: `1`")]
fn finish_epoch_assertion_error() {
    let (mut fixture, broker) = setup();
    let _ = finish_epoch(&broker, &mut fixture, 1);
}

#[test]
fn finish_epoch_then_status() {
    let (mut fixture, broker) = setup();
    for i in 0..4 {
        enqueue_input(&broker, &mut fixture, i, &new_enqueue_input()).unwrap();
    }
    let before = status(&broker, &fixture).unwrap();
    finish_epoch(&broker, &mut fixture, 4).unwrap();
    let after = status(&broker, &fixture).unwrap();
    assert!(after.last_event_is_finish_epoch);
    assert_eq!(after.inputs_sent_count, before.inputs_sent_count);
    assert_eq!(after.inputs_sent_count, 4);
}

#[test]
fn finish_epoch_builds_the_record_at_the_latest_entry() {
    let (mut fixture, broker) = setup();
    enqueue_input(&broker, &mut fixture, 0, &new_enqueue_input()).unwrap();
    finish_epoch(&broker, &mut fixture, 1).unwrap();
    finish_epoch(&broker, &mut fixture, 1).unwrap();
    let ids: Vec<String> = fixture.inputs.iter().map(|event| event.id.clone()).collect();
    assert_eq!(
        fixture.inputs[1].payload,
        RollupsInput {
            parent_id: ids[0].clone(),
            epoch_index: 0,
            inputs_sent_count: 1,
            data: RollupsData::FinishEpoch,
        }
    );
    assert_eq!(
        fixture.inputs[2].payload,
        RollupsInput {
            parent_id: ids[1].clone(),
            epoch_index: 1,
            inputs_sent_count: 1,
            data: RollupsData::FinishEpoch,
        }
    );
}

#[test]
fn enqueue_input_after_finish_epoch_lands_in_the_next_epoch() {
    let (mut fixture, broker) = setup();
    for i in 0..3 {
        enqueue_input(&broker, &mut fixture, i, &new_enqueue_input()).unwrap();
    }
    assert_eq!(fixture.inputs[2].payload.epoch_index, 0);
    finish_epoch(&broker, &mut fixture, 3).unwrap();
    enqueue_input(&broker, &mut fixture, 3, &new_enqueue_input()).unwrap();
    assert_eq!(fixture.inputs[4].payload.epoch_index, 1);
    assert_eq!(fixture.inputs[4].payload.inputs_sent_count, 4);
    finish_epoch(&broker, &mut fixture, 4).unwrap();
    finish_epoch(&broker, &mut fixture, 4).unwrap();
    enqueue_input(&broker, &mut fixture, 4, &new_enqueue_input()).unwrap();
    assert_eq!(fixture.inputs[7].payload.epoch_index, 3);
    match &fixture.inputs[7].payload.data {
        RollupsData::AdvanceStateInput(advance) => {
            assert_eq!(advance.metadata.epoch_index, 0);
            assert_eq!(advance.metadata.input_index, 4);
        }
        RollupsData::FinishEpoch => panic!("an input was enqueued"),
    }
}

#[test]
fn finish_epoch_halts_without_publishing() {
    let (mut fixture, broker) = setup();
    produce_advance_state_inputs(&mut fixture, 3);
    for declared in [0u64, 2, 4, u64::MAX] {
        assert_eq!(
            broker.finish_epoch(declared, fixture.peek_latest()),
            SendStep::Halt(SequencingViolation::InputsSentCount { found: 3, declared })
        );
    }
    assert_eq!(fixture.inputs.len(), 3);
}

#[test]
fn finish_epoch_peek_error() {
    let (mut fixture, broker) = setup();
    fixture.down = true;
    let error = finish_epoch(&broker, &mut fixture, 0).unwrap_err();
    assert!(matches!(error, BrokerFacadeError::PeekInputError { .. }));
}

#[test]
fn finish_epoch_produce_error() {
    let (_fixture, broker) = setup();
    let source = BrokerError { reason: "stream is read-only".to_owned() };
    let error = broker.epoch_finished(Err(source.clone())).unwrap_err();
    assert_eq!(error, BrokerFacadeError::ProduceFinishError { source });
    assert_eq!(error.message(), "error producing finish-epoch event");
    assert_eq!(broker.epoch_finished(Ok("1700000000001-0".to_owned())), Ok(()));
}

#[test]
fn finish_epoch_at_the_last_epoch() {
    let (mut fixture, broker) = setup();
    fixture.inputs.push(Event {
        id: "1-0".to_owned(),
        payload: RollupsInput {
            parent_id: "0".to_owned(),
            epoch_index: u64::MAX,
            inputs_sent_count: 9,
            data: RollupsData::FinishEpoch,
        },
    });
    // No epoch follows the last one that can be numbered.
    assert!(!broker.can_finish_epoch(&fixture.peek_latest()));
    assert!(!broker.can_enqueue_input(&fixture.peek_latest()));
    // The status is still there to be read.
    let status = status(&broker, &fixture).unwrap();
    assert_eq!(status.inputs_sent_count, 9);
    assert!(status.last_event_is_finish_epoch);
}

// --------------------------------------------------------------------------------------------
// next_claim
// --------------------------------------------------------------------------------------------

#[test]
fn next_claim_is_none() {
    let (fixture, mut broker) = setup();
    let option = next_claim(&mut broker, &fixture).expect("'next_claim' function failed");
    assert!(option.is_none());
}

#[test]
fn next_claim_is_some() {
    let (mut fixture, mut broker) = setup();

    let hashes = produce_claims(&mut fixture, 1);
    let claim = next_claim(&mut broker, &fixture)
        .expect("'next_claim' function failed")
        .expect("no claims retrieved");

    assert_eq!(hashes[0].to_owned(), claim.hash);
    assert_eq!(0, claim.number);
}

#[test]
fn next_claim_is_some_sequential() {
    let (mut fixture, mut broker) = setup();

    let n = 3;
    let hashes = produce_claims(&mut fixture, n);
    for i in 0..n {
        let claim = next_claim(&mut broker, &fixture)
            .expect("'next_claim' function failed")
            .expect("no claims retrieved");
        assert_eq!(hashes[i as usize].to_owned(), claim.hash);
        assert_eq!(i as u64, claim.number);
    }
}

#[test]
fn next_claim_is_some_interleaved() {
    let (mut fixture, mut broker) = setup();

    for i in 0..5 {
        let hash = [i; HASH_SIZE];
        fixture.produce_claim(hash);
        let claim = next_claim(&mut broker, &fixture)
            .expect("'next_claim' function failed")
            .expect("no claims retrieved");
        assert_eq!(hash.to_owned(), claim.hash);
        assert_eq!(i as u64, claim.number);
    }
}

#[test]
fn next_claim_is_none_again_and_again() {
    let (fixture, mut broker) = setup();
    for _ in 0..3 {
        assert_eq!(next_claim(&mut broker, &fixture), Ok(None));
        assert_eq!(broker.last_claim_id(), INITIAL_ID);
    }
}

#[test]
fn next_claim_is_none_after_the_last_claim() {
    let (mut fixture, mut broker) = setup();
    let n = 4;
    let hashes = produce_claims(&mut fixture, n);
    for i in 0..n {
        let claim = next_claim(&mut broker, &fixture).unwrap().unwrap();
        assert_eq!(claim, RollupClaim { hash: hashes[i as usize], number: i as u64 });
        assert_eq!(broker.last_claim_id(), &fixture.claims[i as usize].id);
    }
    let last_id = fixture.claims[3].id.clone();
    for _ in 0..3 {
        assert_eq!(next_claim(&mut broker, &fixture), Ok(None));
        assert_eq!(broker.last_claim_id(), &last_id);
    }
    // A claim that arrives later is relayed by the next call.
    fixture.produce_claim([0xff; HASH_SIZE]);
    assert_eq!(
        next_claim(&mut broker, &fixture),
        Ok(Some(RollupClaim { hash: [0xff; HASH_SIZE], number: 4 }))
    );
}

#[test]
fn next_claim_consume_error_leaves_the_cursor() {
    let (mut fixture, mut broker) = setup();
    produce_claims(&mut fixture, 2);
    next_claim(&mut broker, &fixture).unwrap().unwrap();
    let cursor = broker.last_claim_id().clone();
    fixture.down = true;
    let error = next_claim(&mut broker, &fixture).unwrap_err();
    assert_eq!(
        error,
        BrokerFacadeError::ConsumeClaimError {
            source: BrokerError { reason: "connection refused".to_owned() }
        }
    );
    assert_eq!(error.message(), "error consuming claim event");
    assert_eq!(broker.last_claim_id(), &cursor);
    fixture.down = false;
    assert_eq!(next_claim(&mut broker, &fixture).unwrap().unwrap().number, 1);
}

#[test]
fn next_claim_starts_over_after_a_restart() {
    let (mut fixture, mut broker) = setup();
    produce_claims(&mut fixture, 2);
    next_claim(&mut broker, &fixture).unwrap().unwrap();
    next_claim(&mut broker, &fixture).unwrap().unwrap();
    let mut restarted = BrokerFacade::new(&config("redis://127.0.0.1:6379"), Ok(())).unwrap();
    assert_eq!(next_claim(&mut restarted, &fixture).unwrap().unwrap().number, 0);
}

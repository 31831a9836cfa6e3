use txrelay::store::ScheduleStore;
use txrelay::submitter::{block_step, timestamp_step, Submitter};
use txrelay::types::{Address, Transaction, TxAction};
use txrelay::verification::{
    minimal_gas, required_balance, DecodeOutcome, VerificationError, Verifier, MAX_FUTURE_BLOCK,
    MIN_GAS_PRICE,
};

fn addr(lo: u128) -> Address {
    Address { hi: 0, lo }
}

fn tx(sender: u128, nonce: u64, gas: u128, gas_price: u128, value: u128) -> Transaction {
    Transaction {
        sender: addr(sender),
        nonce,
        gas,
        gas_price,
        value,
        action: TxAction::Call(addr(0xbeef)),
        payload: Vec::new(),
        raw: vec![0xf8, 0x01],
    }
}

#[test]
fn minimal_gas_empty_call_is_21000() {
    assert_eq!(minimal_gas(false, &Vec::new()), 21_000);
}

#[test]
fn minimal_gas_empty_create_is_53000() {
    assert_eq!(minimal_gas(true, &Vec::new()), 53_000);
}

#[test]
fn minimal_gas_zero_byte_adds_4() {
    assert_eq!(minimal_gas(false, &vec![0]), 21_004);
    assert_eq!(minimal_gas(true, &vec![0]), 53_004);
}

#[test]
fn minimal_gas_non_zero_byte_adds_68() {
    assert_eq!(minimal_gas(false, &vec![7]), 21_068);
    assert_eq!(minimal_gas(true, &vec![0xff]), 53_068);
}

#[test]
fn minimal_gas_mixed_payload() {
    // Two zero bytes and three non-zero bytes on top of the call base.
    assert_eq!(minimal_gas(false, &vec![0, 1, 0, 2, 3]), 21_000 + 2 * 4 + 3 * 68);
}

#[test]
fn minimal_gas_non_decreasing_in_payload_length() {
    let mut payload: Vec<u8> = Vec::new();
    let mut last = minimal_gas(false, &payload);
    for b in [0u8, 5, 0, 255, 1, 0] {
        payload.push(b);
        let next = minimal_gas(false, &payload);
        assert!(next >= last);
        last = next;
    }
}

#[test]
fn required_balance_exact_when_no_overflow() {
    assert_eq!(required_balance(10, 21_000, 5), 10 + 21_000 * 5);
}

#[test]
fn required_balance_max_u64_operands_do_not_wrap() {
    let gas = u64::MAX as u128;
    let price = u64::MAX as u128;
    // The product still fits in 128 bits; nothing saturates or wraps.
    assert_eq!(required_balance(1, gas, price), gas * price + 1);
    // A balance one short of the requirement must stay short.
    assert!(gas * price < required_balance(1, gas, price));
}

#[test]
fn required_balance_saturates_instead_of_wrapping() {
    // gas * gas_price overflows: the requirement pins to the maximum, so
    // no finite balance but the maximum itself can pass.
    assert_eq!(required_balance(0, u128::MAX, 2), u128::MAX);
    // value + fee overflows: same.
    assert_eq!(required_balance(u128::MAX, 1, 1), u128::MAX);
}

fn ok_submission() -> (Verifier, ScheduleStore, u64, u64, Transaction) {
    let verifier = Verifier::new();
    let store = ScheduleStore::new();
    let latest = 100;
    let requested = 110;
    let t = tx(1, 7, 30_000, MIN_GAS_PRICE, 500);
    (verifier, store, requested, latest, t)
}

#[test]
fn verify_accepts_valid_submission() {
    let (verifier, store, requested, latest, t) = ok_submission();
    let accepted = verifier
        .verify(&store, requested, latest, DecodeOutcome::Decoded(t.clone()))
        .expect("screening should accept");
    assert_eq!(accepted.sender, t.sender);
    let balance = 500 + 30_000 * MIN_GAS_PRICE;
    let (block, done) = verifier
        .verify_funded(requested, accepted, balance, 7)
        .expect("funding should accept");
    assert_eq!(block, requested);
    assert_eq!(done.nonce, 7);
}

#[test]
fn verify_rejects_block_at_latest() {
    let (verifier, store, _, _, t) = ok_submission();
    let r = verifier.verify(&store, 100, 100, DecodeOutcome::Decoded(t));
    assert_eq!(r.unwrap_err(), VerificationError::InvalidBlockNumber);
}

#[test]
fn verify_rejects_block_below_latest() {
    let (verifier, store, _, _, t) = ok_submission();
    let r = verifier.verify(&store, 99, 100, DecodeOutcome::Decoded(t));
    assert_eq!(r.unwrap_err(), VerificationError::InvalidBlockNumber);
}

#[test]
fn verify_rejects_block_past_window() {
    let (verifier, store, _, latest, t) = ok_submission();
    let too_far = latest + MAX_FUTURE_BLOCK + 1;
    let r = verifier.verify(&store, too_far, latest, DecodeOutcome::Decoded(t));
    assert_eq!(r.unwrap_err(), VerificationError::InvalidBlockNumber);
    // The edge of the window itself is still fine.
    let (verifier, store, _, latest, t) = ok_submission();
    assert!(verifier
        .verify(&store, latest + MAX_FUTURE_BLOCK, latest, DecodeOutcome::Decoded(t))
        .is_ok());
}

#[test]
fn verify_rejects_malformed_bytes() {
    let (verifier, store, requested, latest, _) = ok_submission();
    let r = verifier.verify(&store, requested, latest, DecodeOutcome::Malformed);
    assert_eq!(r.unwrap_err(), VerificationError::MalformedTransaction);
}

#[test]
fn verify_rejects_bad_signature() {
    let (verifier, store, requested, latest, _) = ok_submission();
    let r = verifier.verify(&store, requested, latest, DecodeOutcome::BadSignature);
    assert_eq!(r.unwrap_err(), VerificationError::InvalidSignature);
}

#[test]
fn verify_rejects_wrong_chain() {
    let (verifier, store, requested, latest, _) = ok_submission();
    let r = verifier.verify(&store, requested, latest, DecodeOutcome::WrongChain);
    assert_eq!(r.unwrap_err(), VerificationError::WrongChainId);
}

#[test]
fn verify_rejects_gas_below_intrinsic() {
    let (verifier, store, requested, latest, mut t) = ok_submission();
    t.gas = 20_999;
    let r = verifier.verify(&store, requested, latest, DecodeOutcome::Decoded(t));
    assert_eq!(r.unwrap_err(), VerificationError::GasTooLow);
}

#[test]
fn verify_rejects_gas_price_below_floor() {
    let (verifier, store, requested, latest, mut t) = ok_submission();
    t.gas_price = MIN_GAS_PRICE - 1;
    let r = verifier.verify(&store, requested, latest, DecodeOutcome::Decoded(t));
    assert_eq!(r.unwrap_err(), VerificationError::GasPriceTooLow);
}

#[test]
fn verify_rejects_duplicate_sender() {
    let (verifier, mut store, requested, latest, t) = ok_submission();
    let first = verifier
        .verify(&store, requested, latest, DecodeOutcome::Decoded(t.clone()))
        .expect("first submission should pass screening");
    assert!(store.insert(requested, first));
    // A second, otherwise fully valid submission from the same sender.
    let mut second = tx(1, 8, 40_000, MIN_GAS_PRICE + 1, 0);
    second.sender = t.sender;
    let r = verifier.verify(&store, requested + 1, latest, DecodeOutcome::Decoded(second));
    assert_eq!(r.unwrap_err(), VerificationError::DuplicateSender);
}

#[test]
fn verify_funded_rejects_insufficient_balance() {
    let (verifier, _, requested, _, t) = ok_submission();
    let required = 500 + 30_000 * MIN_GAS_PRICE;
    let r = verifier.verify_funded(requested, t, required - 1, 7);
    assert_eq!(r.unwrap_err(), VerificationError::InsufficientBalance);
}

#[test]
fn verify_funded_rejects_nonce_mismatch_either_way() {
    let (verifier, _, requested, _, t) = ok_submission();
    let balance = u128::MAX;
    let r = verifier.verify_funded(requested, t.clone(), balance, 6);
    assert_eq!(r.unwrap_err(), VerificationError::InvalidNonce);
    let r = verifier.verify_funded(requested, t, balance, 8);
    assert_eq!(r.unwrap_err(), VerificationError::InvalidNonce);
}

#[test]
fn rejection_reasons_are_readable() {
    assert_eq!(VerificationError::InvalidBlockNumber.reason(), "Invalid block number.");
    assert_eq!(VerificationError::DuplicateSender.reason(), "Sender already scheduled.");
    assert_eq!(VerificationError::ChainStateUnavailable.reason(), "Chain state unavailable.");
}

#[test]
fn store_insert_refuses_second_entry_per_sender() {
    let mut store = ScheduleStore::new();
    assert!(store.insert(12, tx(1, 0, 30_000, MIN_GAS_PRICE, 0)));
    assert!(store.has(12));
    assert!(store.has_sender(addr(1)));
    assert!(!store.insert(13, tx(1, 1, 30_000, MIN_GAS_PRICE, 0)));
    assert!(!store.has(13));
}

#[test]
fn store_drain_returns_due_entries_in_order() {
    let mut store = ScheduleStore::new();
    assert!(store.insert(12, tx(1, 0, 30_000, MIN_GAS_PRICE, 0)));
    assert!(store.insert(10, tx(2, 0, 30_000, MIN_GAS_PRICE, 0)));
    assert!(store.insert(15, tx(3, 0, 30_000, MIN_GAS_PRICE, 0)));
    let batch = store.drain(12).expect("two entries are due");
    let senders: Vec<u128> = batch.iter().map(|t| t.sender.lo).collect();
    assert_eq!(senders, vec![1, 2]);
    // The undue entry stays.
    assert!(store.has(15));
    assert!(!store.has(12));
}

#[test]
fn store_second_drain_returns_nothing() {
    let mut store = ScheduleStore::new();
    assert!(store.insert(12, tx(1, 0, 30_000, MIN_GAS_PRICE, 0)));
    assert!(store.insert(11, tx(2, 0, 30_000, MIN_GAS_PRICE, 0)));
    let batch = store.drain(12).expect("entries are due");
    assert_eq!(batch.len(), 2);
    assert!(store.drain(12).is_none());
}

#[test]
fn store_groups_equal_keys_and_drains_them_together() {
    let mut store = ScheduleStore::new();
    assert!(store.insert(12, tx(1, 0, 30_000, MIN_GAS_PRICE, 0)));
    assert!(store.insert(12, tx(2, 0, 30_000, MIN_GAS_PRICE, 0)));
    assert!(store.insert(12, tx(3, 0, 30_000, MIN_GAS_PRICE, 0)));
    let batch = store.drain(12).expect("all three entries are due");
    let senders: Vec<u128> = batch.iter().map(|t| t.sender.lo).collect();
    assert_eq!(senders, vec![1, 2, 3]);
}

#[test]
fn store_handles_the_largest_key() {
    let mut store = ScheduleStore::new();
    assert!(store.insert(u64::MAX, tx(1, 0, 30_000, MIN_GAS_PRICE, 0)));
    assert!(timestamp_step(&mut store, u64::MAX - 1).is_none());
    let batch = timestamp_step(&mut store, u64::MAX).expect("the entry is due");
    assert_eq!(batch.len(), 1);
}

#[test]
fn store_drain_of_empty_key_is_none() {
    let mut store = ScheduleStore::new();
    assert!(store.insert(20, tx(1, 0, 30_000, MIN_GAS_PRICE, 0)));
    assert!(store.drain(19).is_none());
    assert!(store.has(20));
}

#[test]
fn submitter_yields_batch_in_order() {
    let batch = vec![
        tx(1, 0, 30_000, MIN_GAS_PRICE, 0),
        tx(2, 0, 30_000, MIN_GAS_PRICE, 0),
        tx(3, 0, 30_000, MIN_GAS_PRICE, 0),
    ];
    let mut submitter = Submitter::new(batch);
    let mut order: Vec<u128> = Vec::new();
    while let Some(t) = submitter.take_next() {
        order.push(t.sender.lo);
    }
    assert_eq!(order, vec![1, 2, 3]);
    assert!(submitter.take_next().is_none());
}

#[test]
fn submitter_empty_batch_completes_immediately() {
    let mut submitter = Submitter::new(Vec::new());
    assert!(submitter.take_next().is_none());
}

#[test]
fn fanout_performs_n_times_k_enqueues_in_round_order() {
    // Three sinks, two transactions: six enqueues, and every enqueue of
    // the first transaction precedes every enqueue of the second.
    let sinks: usize = 3;
    let batch = vec![tx(1, 0, 30_000, MIN_GAS_PRICE, 0), tx(2, 0, 30_000, MIN_GAS_PRICE, 0)];
    let mut submitter = Submitter::new(batch);
    let mut enqueues: Vec<(u128, usize)> = Vec::new();
    while let Some(t) = submitter.take_next() {
        for sink in 0..sinks {
            enqueues.push((t.sender.lo, sink));
        }
    }
    assert_eq!(enqueues.len(), sinks * 2);
    assert_eq!(enqueues, vec![(1, 0), (1, 1), (1, 2), (2, 0), (2, 1), (2, 2)]);
}

#[test]
fn block_driver_submits_exactly_when_key_comes_due() {
    // An entry at key 12 with a submission offset of 2: the batch goes out
    // on the iteration that observes block 10, and nothing afterwards.
    let mut store = ScheduleStore::new();
    assert!(store.insert(12, tx(1, 0, 30_000, MIN_GAS_PRICE, 0)));
    let mut submitted: Vec<(u64, usize)> = Vec::new();
    for block in [10, 11, 12] {
        if let Some(batch) = block_step(&mut store, block, 2) {
            submitted.push((block, batch.len()));
        }
    }
    assert_eq!(submitted, vec![(10, 1)]);
}

#[test]
fn block_driver_skips_keys_with_no_exact_entry() {
    let mut store = ScheduleStore::new();
    assert!(store.insert(11, tx(1, 0, 30_000, MIN_GAS_PRICE, 0)));
    // Block 10 with offset 2 looks for key 12 exactly; the entry at 11 is
    // not seen by the block driver until some block makes 11 its key.
    assert!(block_step(&mut store, 10, 2).is_none());
    assert!(store.has(11));
    let batch = block_step(&mut store, 9, 2).expect("key 11 is now due");
    assert_eq!(batch.len(), 1);
}

#[test]
fn timestamp_driver_drains_everything_due_now() {
    let mut store = ScheduleStore::new();
    assert!(store.insert(1_000, tx(1, 0, 30_000, MIN_GAS_PRICE, 0)));
    assert!(store.insert(990, tx(2, 0, 30_000, MIN_GAS_PRICE, 0)));
    assert!(store.insert(1_001, tx(3, 0, 30_000, MIN_GAS_PRICE, 0)));
    let batch = timestamp_step(&mut store, 1_000).expect("two entries are due");
    assert_eq!(batch.len(), 2);
    assert!(timestamp_step(&mut store, 1_000).is_none());
    let late = timestamp_step(&mut store, 1_001).expect("the last entry comes due");
    assert_eq!(late[0].sender.lo, 3);
}

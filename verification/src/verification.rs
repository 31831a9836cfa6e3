//! The verification pipeline: the accept/reject gate a submission passes
//! before its transaction enters the schedule store.
//!
//! Verification runs in two phases around the one suspension point of the
//! pipeline, the chain-state fetch. [`Verifier::verify`] screens a
//! submission against everything that can be judged before that fetch:
//! block window, decode outcome, intrinsic gas, gas price floor and the
//! one-pending-transaction-per-sender rule, in that order, stopping at the
//! first failure. [`Verifier::verify_funded`] then judges the balance and
//! nonce of the snapshot the caller fetched, so that a stale read can never
//! accept an otherwise-rejected transaction.

use vstd::prelude::*;

use crate::store::{spec_has_sender, ScheduleStore};
use crate::types::{Transaction, TxAction};

verus! {

/// The chain identifier a signed transaction must carry.
pub const CHAIN_ID: u64 = 42;

/// The gas price floor, in wei.
pub const MIN_GAS_PRICE: u128 = 4_000_000_000;

/// How far past the latest block a submission may be scheduled.
pub const MAX_FUTURE_BLOCK: u64 = 1_000_000;

/// Base intrinsic gas of a call transaction.
pub const TX_GAS: u128 = 21_000;

/// Base intrinsic gas of a contract-creating transaction.
pub const TX_CREATE_GAS: u128 = 53_000;

/// Intrinsic gas of one zero payload byte.
pub const TX_DATA_ZERO_GAS: u128 = 4;

/// Intrinsic gas of one non-zero payload byte.
pub const TX_DATA_NON_ZERO_GAS: u128 = 68;

/// Why a submission was rejected. A submission is either accepted and now
/// scheduled, or rejected with exactly one of these reasons and no effect.
#[derive(Clone, Copy, PartialEq, Eq, Structural, Debug)]
pub enum VerificationError {
    InvalidBlockNumber,
    MalformedTransaction,
    InvalidSignature,
    WrongChainId,
    GasTooLow,
    GasPriceTooLow,
    DuplicateSender,
    InsufficientBalance,
    InvalidNonce,
    ChainStateUnavailable,
}

/// What decoding the raw submission bytes produced. Decoding — envelope
/// parsing, signature recovery and the chain-identifier check — happens
/// outside this core; the pipeline judges its outcome.
pub enum DecodeOutcome {
    /// The bytes decoded to a transaction with a valid signature.
    Decoded(Transaction),
    /// The bytes were not a well-formed transaction envelope.
    Malformed,
    /// The envelope was well-formed but the signature did not recover a
    /// valid sender.
    BadSignature,
    /// The signature named a chain other than [`CHAIN_ID`].
    WrongChain,
}

impl VerificationError {
    /// The human-readable reason reported to the submission caller.
    pub open spec fn spec_reason(self) -> Seq<char> {
        match self {
            VerificationError::InvalidBlockNumber => "Invalid block number."@,
            VerificationError::MalformedTransaction => "Malformed transaction."@,
            VerificationError::InvalidSignature => "Invalid signature."@,
            VerificationError::WrongChainId => "Wrong chain id."@,
            VerificationError::GasTooLow => "Gas is too low."@,
            VerificationError::GasPriceTooLow => "Gas price is too low."@,
            VerificationError::DuplicateSender => "Sender already scheduled."@,
            VerificationError::InsufficientBalance => "Insufficient balance."@,
            VerificationError::InvalidNonce => "Invalid nonce."@,
            VerificationError::ChainStateUnavailable => "Chain state unavailable."@,
        }
    }

    /// The human-readable reason reported to the submission caller.
    pub fn reason(&self) -> (r: &'static str)
        ensures
            r@ == self.spec_reason(),
    {
        match self {
            VerificationError::InvalidBlockNumber => "Invalid block number.",
            VerificationError::MalformedTransaction => "Malformed transaction.",
            VerificationError::InvalidSignature => "Invalid signature.",
            VerificationError::WrongChainId => "Wrong chain id.",
            VerificationError::GasTooLow => "Gas is too low.",
            VerificationError::GasPriceTooLow => "Gas price is too low.",
            VerificationError::DuplicateSender => "Sender already scheduled.",
            VerificationError::InsufficientBalance => "Insufficient balance.",
            VerificationError::InvalidNonce => "Invalid nonce.",
            VerificationError::ChainStateUnavailable => "Chain state unavailable.",
        }
    }
}

/// Intrinsic gas of one payload byte.
pub open spec fn byte_gas(b: u8) -> int {
    if b == 0 {
        TX_DATA_ZERO_GAS as int
    } else {
        TX_DATA_NON_ZERO_GAS as int
    }
}

/// Intrinsic gas of a whole payload.
pub open spec fn payload_gas(payload: Seq<u8>) -> int
    decreases payload.len(),
{
    if payload.len() == 0 {
        0
    } else {
        payload_gas(payload.drop_last()) + byte_gas(payload.last())
    }
}

/// The minimal intrinsic gas a transaction must declare: the base cost of
/// its action plus the cost of each payload byte.
pub open spec fn spec_minimal_gas(is_create: bool, payload: Seq<u8>) -> int {
    (if is_create {
        TX_CREATE_GAS as int
    } else {
        TX_GAS as int
    }) + payload_gas(payload)
}

/// The minimal intrinsic gas of a transaction with the given action kind
/// and payload.
pub fn minimal_gas(is_create: bool, payload: &Vec<u8>) -> (r: u128)
    ensures
        r == spec_minimal_gas(is_create, payload@),
{
    let mut acc: u128 = if is_create {
        TX_CREATE_GAS
    } else {
        TX_GAS
    };
    let mut i: usize = 0;
    while i < payload.len()
        invariant
            i <= payload@.len(),
            acc == spec_minimal_gas(is_create, payload@.take(i as int)),
            acc <= TX_CREATE_GAS + i * (TX_DATA_NON_ZERO_GAS as int),
        decreases payload@.len() - i,
    {
        proof {
            assert(payload@.take(i + 1).drop_last() =~= payload@.take(i as int));
            assert(payload@.take(i + 1).last() == payload@[i as int]);
        }
        if payload[i] == 0 {
            acc = acc + TX_DATA_ZERO_GAS;
        } else {
            acc = acc + TX_DATA_NON_ZERO_GAS;
        }
        i += 1;
    }
    proof {
        assert(payload@.take(payload@.len() as int) =~= payload@);
    }
    acc
}

/// Law: the minimal intrinsic gas is monotonically non-decreasing in the
/// payload: extending a payload never lowers it.
pub proof fn lemma_minimal_gas_monotone(is_create: bool, p: Seq<u8>, q: Seq<u8>)
    requires
        p.len() <= q.len(),
        p == q.take(p.len() as int),
    ensures
        spec_minimal_gas(is_create, p) <= spec_minimal_gas(is_create, q),
    decreases q.len(),
{
    if p.len() < q.len() {
        assert(q.drop_last().take(p.len() as int) =~= q.take(p.len() as int));
        lemma_minimal_gas_monotone(is_create, p, q.drop_last());
    } else {
        assert(p =~= q);
    }
}

/// Law: an empty-payload call needs 21000 gas and an empty-payload create
/// 53000; each zero payload byte adds 4 and each non-zero byte adds 68.
pub proof fn lemma_minimal_gas_values(is_create: bool, p: Seq<u8>, b: u8)
    ensures
        spec_minimal_gas(false, Seq::<u8>::empty()) == 21_000,
        spec_minimal_gas(true, Seq::<u8>::empty()) == 53_000,
        spec_minimal_gas(is_create, p.push(b)) == spec_minimal_gas(is_create, p) + byte_gas(b),
{
    assert(p.push(b).drop_last() =~= p);
}

/// `a * b`, saturating at the largest representable value.
pub open spec fn sat_mul(a: u128, b: u128) -> u128 {
    if a * b > u128::MAX {
        u128::MAX
    } else {
        (a * b) as u128
    }
}

/// `a + b`, saturating at the largest representable value.
pub open spec fn sat_add(a: u128, b: u128) -> u128 {
    if a + b > u128::MAX {
        u128::MAX
    } else {
        (a + b) as u128
    }
}

/// The balance a sender must hold: value plus gas limit times gas price,
/// computed with saturating arithmetic so that overflow can only make the
/// check stricter.
pub open spec fn spec_required_balance(value: u128, gas: u128, gas_price: u128) -> u128 {
    sat_add(value, sat_mul(gas, gas_price))
}

/// The balance a sender must hold to cover `value` plus the worst-case fee
/// `gas * gas_price`.
pub fn required_balance(value: u128, gas: u128, gas_price: u128) -> (r: u128)
    ensures
        r == spec_required_balance(value, gas, gas_price),
{
    let fee = match gas.checked_mul(gas_price) {
        Some(f) => f,
        None => u128::MAX,
    };
    value.saturating_add(fee)
}

/// Law: the saturating required-balance computation never wraps: it equals
/// the exact mathematical cost, clamped at the largest representable value.
pub proof fn lemma_required_balance_never_wraps(value: u128, gas: u128, gas_price: u128)
    ensures
        value + gas * gas_price <= u128::MAX
            ==> spec_required_balance(value, gas, gas_price) == value + gas * gas_price,
        value + gas * gas_price > u128::MAX
            ==> spec_required_balance(value, gas, gas_price) == u128::MAX,
{
}

/// Law: a balance short of the exact mathematical cost never passes the
/// balance check, whatever the operands; saturation can only reject more.
pub proof fn lemma_balance_check_conservative(
    balance: u128,
    value: u128,
    gas: u128,
    gas_price: u128,
)
    requires
        balance < value + gas * gas_price,
        balance < u128::MAX,
    ensures
        balance < spec_required_balance(value, gas, gas_price),
{
    lemma_required_balance_never_wraps(value, gas, gas_price);
}

/// Is `requested` inside the window of acceptable schedule blocks: strictly
/// past the latest block, and no more than `max_future` past it?
pub open spec fn block_window_ok(requested: u64, latest: u64, max_future: u64) -> bool {
    latest < requested && requested <= latest + max_future
}

/// What the screening phase decides, given the decode outcome and whether
/// the decoded sender already has a pending entry: the checks of
/// [`Verifier::verify`], in order, stopping at the first failure.
pub open spec fn spec_screen(
    requested: u64,
    latest: u64,
    decoded: DecodeOutcome,
    sender_pending: bool,
    min_gas_price: u128,
    max_future: u64,
) -> Result<Transaction, VerificationError> {
    if !block_window_ok(requested, latest, max_future) {
        Err(VerificationError::InvalidBlockNumber)
    } else {
        match decoded {
            DecodeOutcome::Malformed => Err(VerificationError::MalformedTransaction),
            DecodeOutcome::BadSignature => Err(VerificationError::InvalidSignature),
            DecodeOutcome::WrongChain => Err(VerificationError::WrongChainId),
            DecodeOutcome::Decoded(tx) => {
                if (tx.gas as int) < spec_minimal_gas(tx.action is Create, tx.payload@) {
                    Err(VerificationError::GasTooLow)
                } else if tx.gas_price < min_gas_price {
                    Err(VerificationError::GasPriceTooLow)
                } else if sender_pending {
                    Err(VerificationError::DuplicateSender)
                } else {
                    Ok(tx)
                }
            },
        }
    }
}

/// Does the decoded sender of `decoded` already have a pending entry in the
/// store `s`?
pub open spec fn decoded_sender_pending(s: Seq<(u64, Transaction)>, decoded: DecodeOutcome) -> bool {
    decoded matches DecodeOutcome::Decoded(tx) && spec_has_sender(s, tx.sender)
}

/// What the funding phase decides over the chain-state snapshot
/// `(balance, account_nonce)`: the checks of [`Verifier::verify_funded`].
pub open spec fn spec_funded(
    requested: u64,
    tx: Transaction,
    balance: u128,
    account_nonce: u64,
) -> Result<(u64, Transaction), VerificationError> {
    if balance < spec_required_balance(tx.value, tx.gas, tx.gas_price) {
        Err(VerificationError::InsufficientBalance)
    } else if tx.nonce != account_nonce {
        Err(VerificationError::InvalidNonce)
    } else {
        Ok((requested, tx))
    }
}

/// The stateless rule engine that gates submissions.
///
/// Carries the protocol limits it enforces, so that one relay process can
/// serve networks with other limits.
pub struct Verifier {
    /// The gas price floor, in wei.
    pub min_gas_price: u128,
    /// How far past the latest block a submission may be scheduled.
    pub max_future_block: u64,
}

impl Verifier {
    /// A verifier with the relay's standard limits.
    pub fn new() -> (r: Verifier)
        ensures
            r.min_gas_price == MIN_GAS_PRICE,
            r.max_future_block == MAX_FUTURE_BLOCK,
    {
        Verifier { min_gas_price: MIN_GAS_PRICE, max_future_block: MAX_FUTURE_BLOCK }
    }

    /// Screen a submission before the chain-state fetch: the requested
    /// block must lie inside the window over `latest_block`, the bytes must
    /// have decoded to a validly signed transaction of this chain, the
    /// declared gas must cover the minimal intrinsic gas, the gas price
    /// must meet the floor, and the sender must not already have a pending
    /// entry — in that order, stopping at the first failure.
    pub fn verify(
        &self,
        store: &ScheduleStore,
        requested_block: u64,
        latest_block: u64,
        decoded: DecodeOutcome,
    ) -> (r: Result<Transaction, VerificationError>)
        ensures
            r == spec_screen(
                requested_block,
                latest_block,
                decoded,
                decoded_sender_pending(store@, decoded),
                self.min_gas_price,
                self.max_future_block,
            ),
    {
        if requested_block <= latest_block {
            return Err(VerificationError::InvalidBlockNumber);
        }
        if requested_block - latest_block > self.max_future_block {
            return Err(VerificationError::InvalidBlockNumber);
        }
        let tx = match decoded {
            DecodeOutcome::Malformed => {
                return Err(VerificationError::MalformedTransaction);
            },
            DecodeOutcome::BadSignature => {
                return Err(VerificationError::InvalidSignature);
            },
            DecodeOutcome::WrongChain => {
                return Err(VerificationError::WrongChainId);
            },
            DecodeOutcome::Decoded(tx) => tx,
        };
        let is_create = matches!(tx.action, TxAction::Create);
        if tx.gas < minimal_gas(is_create, &tx.payload) {
            return Err(VerificationError::GasTooLow);
        }
        if tx.gas_price < self.min_gas_price {
            return Err(VerificationError::GasPriceTooLow);
        }
        if store.has_sender(tx.sender) {
            return Err(VerificationError::DuplicateSender);
        }
        Ok(tx)
    }

    /// Judge the chain-state snapshot fetched after [`Verifier::verify`]
    /// accepted: the sender's balance must cover value plus the worst-case
    /// fee, and the transaction's nonce must equal the account's nonce
    /// exactly.
    pub fn verify_funded(
        &self,
        requested_block: u64,
        tx: Transaction,
        balance: u128,
        account_nonce: u64,
    ) -> (r: Result<(u64, Transaction), VerificationError>)
        ensures
            r == spec_funded(requested_block, tx, balance, account_nonce),
    {
        let required = required_balance(tx.value, tx.gas, tx.gas_price);
        if balance < required {
            return Err(VerificationError::InsufficientBalance);
        }
        if tx.nonce != account_nonce {
            return Err(VerificationError::InvalidNonce);
        }
        Ok((requested_block, tx))
    }
}

/// Law: a well-formed transaction whose requested block lies inside the
/// window, whose gas and gas price meet the floors, whose sender has no
/// pending entry, whose nonce equals the account nonce and whose balance
/// covers value plus gas limit times gas price, is accepted by both phases.
pub proof fn lemma_valid_submission_accepted(
    requested: u64,
    latest: u64,
    tx: Transaction,
    balance: u128,
    account_nonce: u64,
    min_gas_price: u128,
    max_future: u64,
)
    requires
        latest < requested <= latest + max_future,
        spec_minimal_gas(tx.action is Create, tx.payload@) <= tx.gas,
        min_gas_price <= tx.gas_price,
        tx.nonce == account_nonce,
        tx.value + tx.gas * tx.gas_price <= balance,
    ensures
        spec_screen(requested, latest, DecodeOutcome::Decoded(tx), false, min_gas_price, max_future)
            == Ok::<Transaction, VerificationError>(tx),
        spec_funded(requested, tx, balance, account_nonce)
            == Ok::<(u64, Transaction), VerificationError>((requested, tx)),
{
    lemma_required_balance_never_wraps(tx.value, tx.gas, tx.gas_price);
}

/// Law: a submission whose requested block is at or below the latest block
/// is rejected as an invalid block number, whatever the rest of it holds.
pub proof fn lemma_past_block_rejected(
    requested: u64,
    latest: u64,
    decoded: DecodeOutcome,
    sender_pending: bool,
    min_gas_price: u128,
    max_future: u64,
)
    requires
        requested <= latest,
    ensures
        spec_screen(requested, latest, decoded, sender_pending, min_gas_price, max_future)
            == Err::<Transaction, VerificationError>(VerificationError::InvalidBlockNumber),
{
}

/// Law: while a sender's accepted transaction is still pending in the
/// store, a second submission from the same sender is rejected as a
/// duplicate, even if it is otherwise fully valid.
pub proof fn lemma_duplicate_sender_rejected(
    s: Seq<(u64, Transaction)>,
    key: u64,
    first: Transaction,
    second: Transaction,
    requested: u64,
    latest: u64,
    min_gas_price: u128,
    max_future: u64,
)
    requires
        second.sender == first.sender,
        latest < requested <= latest + max_future,
        spec_minimal_gas(second.action is Create, second.payload@) <= second.gas,
        min_gas_price <= second.gas_price,
    ensures
        spec_has_sender(s.push((key, first)), second.sender),
        spec_screen(
            requested,
            latest,
            DecodeOutcome::Decoded(second),
            decoded_sender_pending(s.push((key, first)), DecodeOutcome::Decoded(second)),
            min_gas_price,
            max_future,
        ) == Err::<Transaction, VerificationError>(VerificationError::DuplicateSender),
{
    assert(s.push((key, first))[s.len() as int].1.sender == second.sender);
}

} // verus!

//! The domain entities: accounts, actions and transactions.

use vstd::prelude::*;

verus! {

/// A 160-bit account address, split into a high and a low half so that the
/// verifier can compare senders as plain integers.
#[derive(Clone, Copy, PartialEq, Eq, Structural, Debug, Hash)]
pub struct Address {
    /// The 32 most significant bits.
    pub hi: u32,
    /// The 128 least significant bits.
    pub lo: u128,
}

/// What a transaction does: create a new contract, or call an existing
/// address.
#[derive(Clone, Copy, PartialEq, Eq, Structural, Debug)]
pub enum TxAction {
    Create,
    Call(Address),
}

/// A decoded, signature-checked transaction, immutable after creation.
///
/// The sender is the address recovered from the signature during decoding;
/// `raw` keeps the signed wire encoding so that a sink can broadcast the
/// transaction without re-encoding it. The relay's logic never reads `raw`.
#[derive(Clone, Debug)]
pub struct Transaction {
    pub sender: Address,
    pub nonce: u64,
    pub gas: u128,
    pub gas_price: u128,
    pub value: u128,
    pub action: TxAction,
    pub payload: Vec<u8>,
    pub raw: Vec<u8>,
}

} // verus!

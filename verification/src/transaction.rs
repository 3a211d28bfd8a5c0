//! Transactions as the watcher sees them: plain values, read off the ledger
//! service's answers.

use crate::amount::{decimal, DecimalValue};
use vstd::prelude::*;

verus! {

/// The number of decimal places implied in a raw ledger value.
pub const VALUE_SCALE: u32 = 18;

/// Two to the power sixty-four.
pub open spec fn two_pow_64() -> int {
    0x1_0000_0000_0000_0000int
}

/// Two to the power one hundred and twenty-eight.
pub open spec fn two_pow_128() -> int {
    0x1_0000_0000_0000_0000_0000_0000_0000_0000int
}

/// A twenty byte account address.
#[derive(Clone, Copy, Debug, PartialEq, Eq)]
pub struct Address {
    pub bytes: [u8; 20],
}

/// A thirty-two byte transaction hash: the reference by which a transaction is
/// looked up.
#[derive(Clone, Copy, Debug, PartialEq, Eq)]
pub struct TxHash {
    pub bytes: [u8; 32],
}

/// A raw ledger value: an unsigned 256 bit integer in four 64 bit limbs, the
/// least significant first.
#[derive(Clone, Copy, Debug, PartialEq, Eq)]
pub struct Wei {
    pub limbs: [u64; 4],
}

/// A 128 bit pattern read as a two's complement number.
pub open spec fn reinterpret_signed(bits: int) -> int {
    if bits < two_pow_128() / 2 {
        bits
    } else {
        bits - two_pow_128()
    }
}

impl Wei {
    /// The low 128 bits as an unsigned integer.
    pub open spec fn low(self) -> int {
        self.limbs@[0] as int + self.limbs@[1] as int * two_pow_64()
    }

    /// Whether the upper 128 bits are all zero.
    pub open spec fn fits_u128(self) -> bool {
        self.limbs@[2] == 0 && self.limbs@[3] == 0
    }

    /// The low 128 bits read as a signed integer.
    pub open spec fn signed(self) -> int {
        reinterpret_signed(self.low())
    }

    /// The low 128 bits. A value that fits them is converted by `ethers`;
    /// of a larger one the two low limbs are put together here.
    pub fn low_u128(&self) -> (low: u128)
        ensures
            low == self.low(),
    {
        if self.limbs[2] == 0 && self.limbs[3] == 0 {
            u256_as_u128(self.limbs)
        } else {
            self.limbs[0] as u128 + (self.limbs[1] as u128) * 0x1_0000_0000_0000_0000
        }
    }

    /// The raw value `value`.
    pub fn from_u128(value: u128) -> (wei: Wei)
        ensures
            wei.fits_u128(),
            wei.low() == value,
    {
        let low: u64 = (value % 0x1_0000_0000_0000_0000) as u64;
        let high: u64 = (value / 0x1_0000_0000_0000_0000) as u64;
        Wei { limbs: [low, high, 0, 0] }
    }
}

/// Calls `U256::as_u128` of `ethers`, which panics unless the two upper limbs
/// are zero and otherwise returns the two lower limbs as one number.
#[verifier::external_body]
fn u256_as_u128(limbs: [u64; 4]) -> (low: u128)
    requires
        limbs@[2] == 0,
        limbs@[3] == 0,
    ensures
        low == limbs@[0] as int + limbs@[1] as int * two_pow_64(),
{
    ethers::types::U256(limbs).as_u128()
}

/// The two's complement reading of `bits`.
fn to_signed(bits: u128) -> (signed: i128)
    ensures
        signed == reinterpret_signed(bits as int),
{
    if bits <= 0x7FFF_FFFF_FFFF_FFFF_FFFF_FFFF_FFFF_FFFF {
        bits as i128
    } else {
        let below: u128 = u128::MAX - bits;
        -(below as i128) - 1
    }
}

/// A transaction in full, as the ledger service resolves it.
#[derive(Clone, Copy, Debug, PartialEq, Eq)]
pub struct ResolvedTransaction {
    pub sender: Address,
    /// `None` for a transaction that creates a contract.
    pub recipient: Option<Address>,
    pub value: Wei,
}

impl ResolvedTransaction {
    /// The transferred value as a decimal number: the low 128 bits of the raw
    /// value, read as a signed integer, with eighteen decimal places.
    pub open spec fn decimal_value(self) -> DecimalValue {
        decimal(self.value.signed(), VALUE_SCALE as nat)
    }

    /// The signed reading of the raw value.
    pub fn signed_value(&self) -> (signed: i128)
        ensures
            signed == self.value.signed(),
    {
        to_signed(self.value.low_u128())
    }
}

/// What the ledger service answered when asked for a transaction.
#[derive(Clone, Copy, Debug, PartialEq, Eq)]
pub enum Resolution {
    /// The transaction, in full.
    Found(ResolvedTransaction),
    /// The service knows no such transaction.
    NotFound,
    /// The service could not be reached.
    Failed,
}

} // verus!

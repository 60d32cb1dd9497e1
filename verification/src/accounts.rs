//! Snapshots of the two kinds of account that a trade reads, and how each
//! is laid out in account data.
//!
//! Both layouts are fixed: unsigned integers are eight bytes, least
//! significant byte first; a flag is one byte, 0 or 1; an address is its
//! 32 bytes. Data of any other length, or with another flag byte, is
//! malformed.

use crate::address::address_of;
use crate::address::lemma_address_of;
use crate::address::Address;
use crate::error::TradeError;
use crate::trade::common::buy_price;
use crate::trade::common::curve_buy_price;
use vstd::bytes::spec_u64_from_le_bytes;
use vstd::bytes::u64_from_le_bytes;
use vstd::prelude::*;
use vstd::slice::slice_subrange;

verus! {

/// Length of the data of a bonding-curve account.
pub const BONDING_CURVE_ACCOUNT_LEN: usize = 49;

/// Length of the data of the protocol-wide account.
pub const GLOBAL_ACCOUNT_LEN: usize = 113;

/// Protocol-wide parameters. They do not change once the protocol is set
/// up, so a snapshot never goes stale.
#[derive(Debug, Clone, Copy, PartialEq, Eq)]
pub struct GlobalAccount {
    pub discriminator: u64,
    pub initialized: bool,
    pub authority: Address,
    pub fee_recipient: Address,
    pub initial_virtual_token_reserves: u64,
    pub initial_virtual_sol_reserves: u64,
    pub initial_real_token_reserves: u64,
    pub token_total_supply: u64,
    pub fee_basis_points: u64,
}

/// The state of one token's bonding curve at the moment it was read. The
/// chain changes it with every trade; a snapshot is not refreshed.
#[derive(Debug, Clone, Copy, PartialEq, Eq)]
pub struct BondingCurveAccount {
    pub discriminator: u64,
    pub virtual_token_reserves: u64,
    pub virtual_sol_reserves: u64,
    pub real_token_reserves: u64,
    pub real_sol_reserves: u64,
    pub token_total_supply: u64,
    pub complete: bool,
}

/// The integer that the eight bytes from `at` on spell, least significant
/// byte first.
pub open spec fn u64_at(data: Seq<u8>, at: int) -> u64 {
    spec_u64_from_le_bytes(data.subrange(at, at + 8))
}

/// The address that the 32 bytes from `at` on spell.
pub open spec fn address_at(data: Seq<u8>, at: int) -> Address {
    address_of(data.subrange(at, at + 32))
}

/// Whether `data` has the form of a bonding-curve account.
pub open spec fn is_bonding_curve_data(data: Seq<u8>) -> bool {
    data.len() == 49 && data[48] <= 1
}

/// The snapshot that bonding-curve data spells.
pub open spec fn bonding_curve_of(data: Seq<u8>) -> BondingCurveAccount {
    BondingCurveAccount {
        discriminator: u64_at(data, 0),
        virtual_token_reserves: u64_at(data, 8),
        virtual_sol_reserves: u64_at(data, 16),
        real_token_reserves: u64_at(data, 24),
        real_sol_reserves: u64_at(data, 32),
        token_total_supply: u64_at(data, 40),
        complete: data[48] == 1,
    }
}

/// Whether `data` has the form of the protocol-wide account.
pub open spec fn is_global_data(data: Seq<u8>) -> bool {
    data.len() == 113 && data[8] <= 1
}

/// The snapshot that protocol-wide data spells.
pub open spec fn global_of(data: Seq<u8>) -> GlobalAccount {
    GlobalAccount {
        discriminator: u64_at(data, 0),
        initialized: data[8] == 1,
        authority: address_at(data, 9),
        fee_recipient: address_at(data, 41),
        initial_virtual_token_reserves: u64_at(data, 73),
        initial_virtual_sol_reserves: u64_at(data, 81),
        initial_real_token_reserves: u64_at(data, 89),
        token_total_supply: u64_at(data, 97),
        fee_basis_points: u64_at(data, 105),
    }
}

/// Reads the integer at `at`.
fn read_u64(data: &[u8], at: usize) -> (value: u64)
    requires
        at + 8 <= data@.len(),
    ensures
        value == u64_at(data@, at as int),
{
    let len: usize = data.len();
    assert(at + 8 <= len);
    u64_from_le_bytes(slice_subrange(data, at, at + 8))
}

/// Reads the address at `at`.
fn read_address(data: &[u8], at: usize) -> (address: Address)
    requires
        at + 32 <= data@.len(),
    ensures
        address == address_at(data@, at as int),
{
    let len: usize = data.len();
    let mut bytes: [u8; 32] = [0u8; 32];
    let mut index: usize = 0;
    while index < 32
        invariant
            index <= 32,
            at + 32 <= data@.len() == len,
            forall|i: int| 0 <= i < index ==> bytes@[i] == data@[at + i],
        decreases 32 - index,
    {
        bytes[index] = data[at + index];
        index += 1;
    }
    let address = Address { bytes };
    proof {
        assert(address@ =~= data@.subrange(at as int, at + 32));
        lemma_address_of(address@, address);
    }
    address
}

impl BondingCurveAccount {
    /// Reads a snapshot from account data.
    pub fn try_from_slice(data: &[u8]) -> (account: Result<BondingCurveAccount, TradeError>)
        ensures
            is_bonding_curve_data(data@) ==> account == Ok::<BondingCurveAccount, TradeError>(
                bonding_curve_of(data@),
            ),
            !is_bonding_curve_data(data@) ==> account == Err::<BondingCurveAccount, TradeError>(
                TradeError::DeserializationFailed,
            ),
    {
        if data.len() != BONDING_CURVE_ACCOUNT_LEN {
            return Err(TradeError::DeserializationFailed);
        }
        let flag: u8 = data[48];
        if flag > 1 {
            return Err(TradeError::DeserializationFailed);
        }
        Ok(
            BondingCurveAccount {
                discriminator: read_u64(data, 0),
                virtual_token_reserves: read_u64(data, 8),
                virtual_sol_reserves: read_u64(data, 16),
                real_token_reserves: read_u64(data, 24),
                real_sol_reserves: read_u64(data, 32),
                token_total_supply: read_u64(data, 40),
                complete: flag == 1,
            },
        )
    }

    /// Tokens that `amount` lamports buy on this curve.
    pub fn get_buy_price(&self, amount: u64) -> (tokens: u64)
        requires
            amount > 0 ==> self.virtual_token_reserves > 0,
        ensures
            tokens == self.buy_price(amount),
            tokens <= self.real_token_reserves,
    {
        curve_buy_price(
            amount,
            self.virtual_sol_reserves,
            self.virtual_token_reserves,
            self.real_token_reserves,
        )
    }

    /// Tokens that `amount` lamports buy on this curve.
    pub open spec fn buy_price(&self, amount: u64) -> int {
        buy_price(
            amount as int,
            self.virtual_sol_reserves as int,
            self.virtual_token_reserves as int,
            self.real_token_reserves as int,
        )
    }
}

/// The price on a curve depends on nothing but the amount and the three
/// reserves it is computed from: two snapshots that agree in these give
/// the same price for the same amount.
pub proof fn lemma_buy_price_depends_on_reserves(a: BondingCurveAccount, b: BondingCurveAccount, amount: u64)
    requires
        a.virtual_sol_reserves == b.virtual_sol_reserves,
        a.virtual_token_reserves == b.virtual_token_reserves,
        a.real_token_reserves == b.real_token_reserves,
    ensures
        a.buy_price(amount) == b.buy_price(amount),
{
}

impl GlobalAccount {
    /// Reads a snapshot from account data.
    pub fn try_from_slice(data: &[u8]) -> (account: Result<GlobalAccount, TradeError>)
        ensures
            is_global_data(data@) ==> account == Ok::<GlobalAccount, TradeError>(global_of(data@)),
            !is_global_data(data@) ==> account == Err::<GlobalAccount, TradeError>(
                TradeError::DeserializationFailed,
            ),
    {
        if data.len() != GLOBAL_ACCOUNT_LEN {
            return Err(TradeError::DeserializationFailed);
        }
        let flag: u8 = data[8];
        if flag > 1 {
            return Err(TradeError::DeserializationFailed);
        }
        Ok(
            GlobalAccount {
                discriminator: read_u64(data, 0),
                initialized: flag == 1,
                authority: read_address(data, 9),
                fee_recipient: read_address(data, 41),
                initial_virtual_token_reserves: read_u64(data, 73),
                initial_virtual_sol_reserves: read_u64(data, 81),
                initial_real_token_reserves: read_u64(data, 89),
                token_total_supply: read_u64(data, 97),
                fee_basis_points: read_u64(data, 105),
            },
        )
    }

    /// Tokens that `amount` lamports buy on a curve that has just been
    /// created with the protocol's initial reserves.
    pub fn get_initial_buy_price(&self, amount: u64) -> (tokens: u64)
        requires
            amount > 0 ==> self.initial_virtual_token_reserves > 0,
        ensures
            tokens == self.initial_buy_price(amount),
            tokens <= self.initial_real_token_reserves,
    {
        curve_buy_price(
            amount,
            self.initial_virtual_sol_reserves,
            self.initial_virtual_token_reserves,
            self.initial_real_token_reserves,
        )
    }

    /// Tokens that `amount` lamports buy on a curve that has just been
    /// created with the protocol's initial reserves.
    pub open spec fn initial_buy_price(&self, amount: u64) -> int {
        buy_price(
            amount as int,
            self.initial_virtual_sol_reserves as int,
            self.initial_virtual_token_reserves as int,
            self.initial_real_token_reserves as int,
        )
    }
}

} // verus!

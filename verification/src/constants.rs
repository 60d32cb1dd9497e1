//! Fixed values of the launch program and of the programs it relies on,
//! and the defaults a trade falls back to.

use crate::address::Address;
use vstd::prelude::*;

verus! {

/// Slippage applied when a caller names none, in basis points.
pub const DEFAULT_SLIPPAGE: u64 = 1_000;

/// Compute-unit limit requested when a caller names no priority fee.
pub const DEFAULT_COMPUTE_UNIT_LIMIT: u32 = 78_000;

/// Price per compute unit, in micro-lamports, requested when a caller
/// names no priority fee.
pub const DEFAULT_COMPUTE_UNIT_PRICE: u64 = 500_000;

/// Tip paid to the relay when a caller names none, in lamports.
pub const JITO_TIP_AMOUNT: u64 = 100_000;

/// The launch program.
pub open spec fn pumpfun_id() -> Seq<u8> {
    seq![
        1, 86, 224, 246, 147, 102, 90, 207, 68, 219, 21, 104, 191, 23, 91, 170,
        81, 137, 203, 151, 245, 210, 255, 59, 101, 93, 43, 182, 253, 109, 24, 176,
    ]
}

/// The launch program.
pub fn pumpfun() -> (address: Address)
    ensures
        address@ == pumpfun_id(),
{
    let address = Address {
        bytes: [
            1, 86, 224, 246, 147, 102, 90, 207, 68, 219, 21, 104, 191, 23, 91, 170,
            81, 137, 203, 151, 245, 210, 255, 59, 101, 93, 43, 182, 253, 109, 24, 176,
        ],
    };
    assert(address@ =~= pumpfun_id());
    address
}

/// The program that keeps token metadata.
pub open spec fn mpl_token_metadata_id() -> Seq<u8> {
    seq![
        11, 112, 101, 177, 227, 209, 124, 69, 56, 157, 82, 127, 107, 4, 195, 205,
        88, 184, 108, 115, 26, 160, 253, 181, 73, 182, 209, 188, 3, 248, 41, 70,
    ]
}

/// The program that keeps token metadata.
pub fn mpl_token_metadata() -> (address: Address)
    ensures
        address@ == mpl_token_metadata_id(),
{
    let address = Address {
        bytes: [
            11, 112, 101, 177, 227, 209, 124, 69, 56, 157, 82, 127, 107, 4, 195, 205,
            88, 184, 108, 115, 26, 160, 253, 181, 73, 182, 209, 188, 3, 248, 41, 70,
        ],
    };
    assert(address@ =~= mpl_token_metadata_id());
    address
}

/// The token program.
pub open spec fn token_program_id() -> Seq<u8> {
    seq![
        6, 221, 246, 225, 215, 101, 161, 147, 217, 203, 225, 70, 206, 235, 121, 172,
        28, 180, 133, 237, 95, 91, 55, 145, 58, 140, 245, 133, 126, 255, 0, 169,
    ]
}

/// The token program.
pub fn token_program() -> (address: Address)
    ensures
        address@ == token_program_id(),
{
    let address = Address {
        bytes: [
            6, 221, 246, 225, 215, 101, 161, 147, 217, 203, 225, 70, 206, 235, 121, 172,
            28, 180, 133, 237, 95, 91, 55, 145, 58, 140, 245, 133, 126, 255, 0, 169,
        ],
    };
    assert(address@ =~= token_program_id());
    address
}

/// The program that owns every associated token account.
pub open spec fn associated_token_program_id() -> Seq<u8> {
    seq![
        140, 151, 37, 143, 78, 36, 137, 241, 187, 61, 16, 41, 20, 142, 13, 131,
        11, 90, 19, 153, 218, 255, 16, 132, 4, 142, 123, 216, 219, 233, 248, 89,
    ]
}

/// The program that owns every associated token account.
pub fn associated_token_program() -> (address: Address)
    ensures
        address@ == associated_token_program_id(),
{
    let address = Address {
        bytes: [
            140, 151, 37, 143, 78, 36, 137, 241, 187, 61, 16, 41, 20, 142, 13, 131,
            11, 90, 19, 153, 218, 255, 16, 132, 4, 142, 123, 216, 219, 233, 248, 89,
        ],
    };
    assert(address@ =~= associated_token_program_id());
    address
}

/// The program that takes compute-budget steps.
pub open spec fn compute_budget_program_id() -> Seq<u8> {
    seq![
        3, 6, 70, 111, 229, 33, 23, 50, 255, 236, 173, 186, 114, 195, 155, 231,
        188, 140, 229, 187, 197, 247, 18, 107, 44, 67, 155, 58, 64, 0, 0, 0,
    ]
}

/// The program that takes compute-budget steps.
pub fn compute_budget_program() -> (address: Address)
    ensures
        address@ == compute_budget_program_id(),
{
    let address = Address {
        bytes: [
            3, 6, 70, 111, 229, 33, 23, 50, 255, 236, 173, 186, 114, 195, 155, 231,
            188, 140, 229, 187, 197, 247, 18, 107, 44, 67, 155, 58, 64, 0, 0, 0,
        ],
    };
    assert(address@ =~= compute_budget_program_id());
    address
}

/// The system program, which moves lamports.
pub open spec fn system_program_id() -> Seq<u8> {
    seq![
        0, 0, 0, 0, 0, 0, 0, 0, 0, 0, 0, 0, 0, 0, 0, 0,
        0, 0, 0, 0, 0, 0, 0, 0, 0, 0, 0, 0, 0, 0, 0, 0,
    ]
}

/// The system program, which moves lamports.
pub fn system_program() -> (address: Address)
    ensures
        address@ == system_program_id(),
{
    let address = Address {
        bytes: [
            0, 0, 0, 0, 0, 0, 0, 0, 0, 0, 0, 0, 0, 0, 0, 0,
            0, 0, 0, 0, 0, 0, 0, 0, 0, 0, 0, 0, 0, 0, 0, 0,
        ],
    };
    assert(address@ =~= system_program_id());
    address
}

/// Seed of the protocol-wide account: `global`.
pub open spec fn global_seed_bytes() -> Seq<u8> {
    seq![103, 108, 111, 98, 97, 108]
}

/// Seed of the protocol-wide account: `global`.
pub fn global_seed() -> (seed: Vec<u8>)
    ensures
        seed@ == global_seed_bytes(),
{
    let seed: Vec<u8> = vec![103, 108, 111, 98, 97, 108];
    assert(seed@ =~= global_seed_bytes());
    seed
}

/// Seed of the mint authority: `mint-authority`.
pub open spec fn mint_authority_seed_bytes() -> Seq<u8> {
    seq![109, 105, 110, 116, 45, 97, 117, 116, 104, 111, 114, 105, 116, 121]
}

/// Seed of the mint authority: `mint-authority`.
pub fn mint_authority_seed() -> (seed: Vec<u8>)
    ensures
        seed@ == mint_authority_seed_bytes(),
{
    let seed: Vec<u8> = vec![109, 105, 110, 116, 45, 97, 117, 116, 104, 111, 114, 105, 116, 121];
    assert(seed@ =~= mint_authority_seed_bytes());
    seed
}

/// Seed of a bonding curve: `bonding-curve`.
pub open spec fn bonding_curve_seed_bytes() -> Seq<u8> {
    seq![98, 111, 110, 100, 105, 110, 103, 45, 99, 117, 114, 118, 101]
}

/// Seed of a bonding curve: `bonding-curve`.
pub fn bonding_curve_seed() -> (seed: Vec<u8>)
    ensures
        seed@ == bonding_curve_seed_bytes(),
{
    let seed: Vec<u8> = vec![98, 111, 110, 100, 105, 110, 103, 45, 99, 117, 114, 118, 101];
    assert(seed@ =~= bonding_curve_seed_bytes());
    seed
}

/// Seed of a metadata account: `metadata`.
pub open spec fn metadata_seed_bytes() -> Seq<u8> {
    seq![109, 101, 116, 97, 100, 97, 116, 97]
}

/// Seed of a metadata account: `metadata`.
pub fn metadata_seed() -> (seed: Vec<u8>)
    ensures
        seed@ == metadata_seed_bytes(),
{
    let seed: Vec<u8> = vec![109, 101, 116, 97, 100, 97, 116, 97];
    assert(seed@ =~= metadata_seed_bytes());
    seed
}

} // verus!

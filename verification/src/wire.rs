//! Steps as the chain takes them: a program, the accounts it touches,
//! and opaque data.
//!
//! The steps of the compute-budget, system and associated-token programs
//! are encoded by those programs' own libraries. The steps of the launch
//! program are encoded elsewhere and are none of this module's business.

use crate::address::address_of;
use crate::address::derived;
use crate::address::lemma_address_of;
use crate::address::Address;
use crate::constants::associated_token_program_id;
use crate::constants::compute_budget_program_id;
use crate::constants::system_program_id;
use crate::instruction::Instruction;
use crate::instruction::InstructionView;
use solana_sdk::compute_budget::ComputeBudgetInstruction;
use solana_sdk::pubkey::Pubkey;
use solana_sdk::system_instruction::transfer;
use spl_associated_token_account::instruction::create_associated_token_account;
use vstd::bytes::spec_u32_to_le_bytes;
use vstd::bytes::spec_u64_to_le_bytes;
use vstd::prelude::*;

verus! {

/// An account that a step touches, and how.
#[derive(Debug, Clone, Copy, PartialEq, Eq)]
pub struct AccountMeta {
    pub pubkey: Address,
    pub is_signer: bool,
    pub is_writable: bool,
}

/// A step as the chain takes it.
#[derive(Debug, Clone, PartialEq, Eq)]
pub struct EncodedInstruction {
    pub program_id: Address,
    pub accounts: Vec<AccountMeta>,
    pub data: Vec<u8>,
}

/// An [`EncodedInstruction`] as a mathematical value.
pub ghost struct EncodedView {
    pub program_id: Address,
    pub accounts: Seq<AccountMeta>,
    pub data: Seq<u8>,
}

impl DeepView for EncodedInstruction {
    type V = EncodedView;

    open spec fn deep_view(&self) -> EncodedView {
        EncodedView { program_id: self.program_id, accounts: self.accounts@, data: self.data@ }
    }
}

/// The step that caps the compute units: tag 2, then the units, least
/// significant byte first.
pub open spec fn compute_unit_limit_encoding(units: u32) -> EncodedView {
    EncodedView {
        program_id: address_of(compute_budget_program_id()),
        accounts: Seq::<AccountMeta>::empty(),
        data: seq![2u8] + spec_u32_to_le_bytes(units),
    }
}

/// The step that sets the price of a compute unit: tag 3, then the
/// micro-lamports, least significant byte first.
pub open spec fn compute_unit_price_encoding(micro_lamports: u64) -> EncodedView {
    EncodedView {
        program_id: address_of(compute_budget_program_id()),
        accounts: Seq::<AccountMeta>::empty(),
        data: seq![3u8] + spec_u64_to_le_bytes(micro_lamports),
    }
}

/// The step that moves lamports: the sender signs and is written to,
/// the receiver is written to; the data is tag 2 in four bytes, then
/// the lamports, each least significant byte first.
pub open spec fn transfer_encoding(from: Address, to: Address, lamports: u64) -> EncodedView {
    EncodedView {
        program_id: address_of(system_program_id()),
        accounts: seq![
            AccountMeta { pubkey: from, is_signer: true, is_writable: true },
            AccountMeta { pubkey: to, is_signer: false, is_writable: true },
        ],
        data: seq![2u8, 0u8, 0u8, 0u8] + spec_u64_to_le_bytes(lamports),
    }
}

/// The address of the account in which `wallet` holds tokens of `mint`
/// under the token program `token_program`.
pub open spec fn token_account_address(wallet: Address, mint: Address, token_program: Address) -> Option<
    Address,
> {
    derived(seq![wallet@, token_program@, mint@], associated_token_program_id())
}

/// The step that creates the token account `account` of `wallet` for
/// `mint`: the funder signs and pays, the new account is written to,
/// and the wallet, the mint, the system program and the token program
/// are read.
pub open spec fn token_account_encoding(
    funder: Address,
    account: Address,
    wallet: Address,
    mint: Address,
    token_program: Address,
) -> EncodedView {
    EncodedView {
        program_id: address_of(associated_token_program_id()),
        accounts: seq![
            AccountMeta { pubkey: funder, is_signer: true, is_writable: true },
            AccountMeta { pubkey: account, is_signer: false, is_writable: true },
            AccountMeta { pubkey: wallet, is_signer: false, is_writable: false },
            AccountMeta { pubkey: mint, is_signer: false, is_writable: false },
            AccountMeta { pubkey: address_of(system_program_id()), is_signer: false, is_writable: false },
            AccountMeta { pubkey: token_program, is_signer: false, is_writable: false },
        ],
        data: seq![0u8],
    }
}

/// A step as the chain takes it, for the steps that this module
/// encodes; none for the steps of the launch program, and none for a
/// token account whose address cannot be derived.
pub open spec fn encoding(step: InstructionView) -> Option<EncodedView> {
    match step {
        InstructionView::SetComputeUnitLimit { units } => Some(compute_unit_limit_encoding(units)),
        InstructionView::SetComputeUnitPrice { micro_lamports } => Some(
            compute_unit_price_encoding(micro_lamports),
        ),
        InstructionView::CreateAssociatedTokenAccount { funder, wallet, mint, token_program } =>
            match token_account_address(wallet, mint, token_program) {
            Some(account) => Some(token_account_encoding(funder, account, wallet, mint, token_program)),
            None => None,
        },
        InstructionView::Transfer { from, to, lamports } => Some(transfer_encoding(from, to, lamports)),
        InstructionView::Create { .. } => None,
        InstructionView::Buy { .. } => None,
    }
}

/// Calls `ComputeBudgetInstruction::set_compute_unit_limit`. Trusted:
/// the step is for the compute-budget program, touches no account, and
/// its data is the byte 2 followed by the four bytes of `units`, least
/// significant first.
#[verifier::external_body]
pub(crate) fn compute_unit_limit_step(units: u32) -> (step: EncodedInstruction)
    ensures
        step.deep_view() == compute_unit_limit_encoding(units),
{
    let step = ComputeBudgetInstruction::set_compute_unit_limit(units);
    EncodedInstruction {
        program_id: Address { bytes: step.program_id.to_bytes() },
        accounts: step.accounts.iter().map(|meta| AccountMeta {
            pubkey: Address { bytes: meta.pubkey.to_bytes() },
            is_signer: meta.is_signer,
            is_writable: meta.is_writable,
        }).collect(),
        data: step.data,
    }
}

/// Calls `ComputeBudgetInstruction::set_compute_unit_price`. Trusted:
/// the step is for the compute-budget program, touches no account, and
/// its data is the byte 3 followed by the eight bytes of
/// `micro_lamports`, least significant first.
#[verifier::external_body]
pub(crate) fn compute_unit_price_step(micro_lamports: u64) -> (step: EncodedInstruction)
    ensures
        step.deep_view() == compute_unit_price_encoding(micro_lamports),
{
    let step = ComputeBudgetInstruction::set_compute_unit_price(micro_lamports);
    EncodedInstruction {
        program_id: Address { bytes: step.program_id.to_bytes() },
        accounts: step.accounts.iter().map(|meta| AccountMeta {
            pubkey: Address { bytes: meta.pubkey.to_bytes() },
            is_signer: meta.is_signer,
            is_writable: meta.is_writable,
        }).collect(),
        data: step.data,
    }
}

/// Calls `system_instruction::transfer`. Trusted: the step is for the
/// system program; it names the sender, signing and writable, then the
/// receiver, writable; its data is the bytes 2, 0, 0, 0 followed by the
/// eight bytes of `lamports`, least significant first.
#[verifier::external_body]
pub(crate) fn transfer_step(from: &Address, to: &Address, lamports: u64) -> (step: EncodedInstruction)
    ensures
        step.deep_view() == transfer_encoding(*from, *to, lamports),
{
    let step = transfer(&Pubkey::new_from_array(from.bytes), &Pubkey::new_from_array(to.bytes), lamports);
    EncodedInstruction {
        program_id: Address { bytes: step.program_id.to_bytes() },
        accounts: step.accounts.iter().map(|meta| AccountMeta {
            pubkey: Address { bytes: meta.pubkey.to_bytes() },
            is_signer: meta.is_signer,
            is_writable: meta.is_writable,
        }).collect(),
        data: step.data,
    }
}

/// Calls `create_associated_token_account` of the associated-token
/// library, which derives the new account's address with
/// `Pubkey::find_program_address` from the wallet, the token program
/// and the mint, and stops the program where there is none: hence the
/// condition. Trusted: the step
/// is for the associated-token program; it names the funder, the new
/// account, the wallet, the mint, the system program and the token
/// program, in this order and with these rights; its data is one zero
/// byte.
#[verifier::external_body]
pub(crate) fn token_account_step(
    funder: &Address,
    wallet: &Address,
    mint: &Address,
    token_program: &Address,
) -> (step: EncodedInstruction)
    requires
        token_account_address(*wallet, *mint, *token_program) is Some,
    ensures
        step.deep_view() == token_account_encoding(
            *funder,
            token_account_address(*wallet, *mint, *token_program)->Some_0,
            *wallet,
            *mint,
            *token_program,
        ),
{
    let step = create_associated_token_account(
        &Pubkey::new_from_array(funder.bytes),
        &Pubkey::new_from_array(wallet.bytes),
        &Pubkey::new_from_array(mint.bytes),
        &Pubkey::new_from_array(token_program.bytes),
    );
    EncodedInstruction {
        program_id: Address { bytes: step.program_id.to_bytes() },
        accounts: step.accounts.iter().map(|meta| AccountMeta {
            pubkey: Address { bytes: meta.pubkey.to_bytes() },
            is_signer: meta.is_signer,
            is_writable: meta.is_writable,
        }).collect(),
        data: step.data,
    }
}

impl Instruction {
    /// The step as the chain takes it, where this library's programs
    /// encode it.
    pub fn encode(&self) -> (encoded: Option<EncodedInstruction>)
        ensures
            match encoding(self.deep_view()) {
                Some(expected) => encoded is Some && encoded->Some_0.deep_view() == expected,
                None => encoded is None,
            },
    {
        match self {
            Instruction::SetComputeUnitLimit { units } => Some(compute_unit_limit_step(*units)),
            Instruction::SetComputeUnitPrice { micro_lamports } => Some(
                compute_unit_price_step(*micro_lamports),
            ),
            Instruction::CreateAssociatedTokenAccount { funder, wallet, mint, token_program } => {
                let mut seeds: Vec<Vec<u8>> = Vec::new();
                seeds.push(wallet.to_vec());
                seeds.push(token_program.to_vec());
                seeds.push(mint.to_vec());
                assert(seeds.deep_view() =~~= seq![wallet@, token_program@, mint@]);
                match Address::derive(&seeds, &crate::constants::associated_token_program()) {
                    Some(_) => Some(token_account_step(funder, wallet, mint, token_program)),
                    None => None,
                }
            },
            Instruction::Transfer { from, to, lamports } => Some(transfer_step(from, to, *lamports)),
            Instruction::Create { .. } => None,
            Instruction::Buy { .. } => None,
        }
    }
}

} // verus!

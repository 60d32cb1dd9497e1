//! What a transaction is made of, before it is encoded and signed.
//!
//! An [`Instruction`] names one step and carries the values that its
//! encoder needs; a [`Transaction`] is an ordered list of steps with the
//! payer and the accounts that have to sign. Order matters: steps run in
//! the order given, and compute-budget steps only count when they come
//! first.

use crate::address::Address;
use vstd::prelude::*;

verus! {

/// One step of a transaction.
#[derive(Debug, PartialEq, Eq)]
pub enum Instruction {
    /// Cap the compute units of the transaction.
    SetComputeUnitLimit { units: u32 },
    /// Pay this many micro-lamports per compute unit.
    SetComputeUnitPrice { micro_lamports: u64 },
    /// Create the account in which `wallet` holds tokens of `mint`.
    CreateAssociatedTokenAccount { funder: Address, wallet: Address, mint: Address, token_program: Address },
    /// Launch the token `mint` with its bonding curve.
    Create { payer: Address, mint: Address, name: String, symbol: String, uri: String },
    /// Buy `amount` tokens of `mint` for at most `max_sol_cost` lamports.
    Buy { payer: Address, mint: Address, fee_recipient: Address, amount: u64, max_sol_cost: u64 },
    /// Move `lamports` from one account to another.
    Transfer { from: Address, to: Address, lamports: u64 },
}

/// An [`Instruction`] as a mathematical value.
pub ghost enum InstructionView {
    SetComputeUnitLimit { units: u32 },
    SetComputeUnitPrice { micro_lamports: u64 },
    CreateAssociatedTokenAccount { funder: Address, wallet: Address, mint: Address, token_program: Address },
    Create { payer: Address, mint: Address, name: Seq<char>, symbol: Seq<char>, uri: Seq<char> },
    Buy { payer: Address, mint: Address, fee_recipient: Address, amount: u64, max_sol_cost: u64 },
    Transfer { from: Address, to: Address, lamports: u64 },
}

impl DeepView for Instruction {
    type V = InstructionView;

    open spec fn deep_view(&self) -> InstructionView {
        match *self {
            Instruction::SetComputeUnitLimit { units } => InstructionView::SetComputeUnitLimit { units },
            Instruction::SetComputeUnitPrice { micro_lamports } => InstructionView::SetComputeUnitPrice {
                micro_lamports,
            },
            Instruction::CreateAssociatedTokenAccount { funder, wallet, mint, token_program } =>
                InstructionView::CreateAssociatedTokenAccount { funder, wallet, mint, token_program },
            Instruction::Create { payer, mint, name, symbol, uri } => InstructionView::Create {
                payer,
                mint,
                name: name@,
                symbol: symbol@,
                uri: uri@,
            },
            Instruction::Buy { payer, mint, fee_recipient, amount, max_sol_cost } => InstructionView::Buy {
                payer,
                mint,
                fee_recipient,
                amount,
                max_sol_cost,
            },
            Instruction::Transfer { from, to, lamports } => InstructionView::Transfer { from, to, lamports },
        }
    }
}

impl InstructionView {
    /// Whether the step sets the compute budget.
    pub open spec fn is_compute_budget(self) -> bool {
        self is SetComputeUnitLimit || self is SetComputeUnitPrice
    }

    /// Whether the step launches the token `mint`.
    pub open spec fn creates(self, mint: Address) -> bool {
        self matches InstructionView::Create { mint: m, .. } && m == mint
    }

    /// Whether the step buys the token `mint`.
    pub open spec fn buys(self, mint: Address) -> bool {
        self matches InstructionView::Buy { mint: m, .. } && m == mint
    }
}

/// Whether some step launches the token `mint`.
pub open spec fn launches(instructions: Seq<InstructionView>, mint: Address) -> bool {
    exists|i: int| 0 <= i < instructions.len() && #[trigger] instructions[i].creates(mint)
}

/// Whether no step launches a token.
pub open spec fn launches_nothing(instructions: Seq<InstructionView>) -> bool {
    forall|i: int| 0 <= i < instructions.len() ==> !(#[trigger] instructions[i] is Create)
}

/// Whether every compute-budget step stands before every other step.
pub open spec fn compute_budget_first(instructions: Seq<InstructionView>) -> bool {
    forall|i: int, j: int|
        0 <= i < j < instructions.len() && instructions[j].is_compute_budget()
            ==> instructions[i].is_compute_budget()
}

impl Instruction {
    /// Whether the step sets the compute budget.
    pub fn is_compute_budget(&self) -> (yes: bool)
        ensures
            yes == self.deep_view().is_compute_budget(),
    {
        match self {
            Instruction::SetComputeUnitLimit { .. } => true,
            Instruction::SetComputeUnitPrice { .. } => true,
            _ => false,
        }
    }

    /// Whether the step launches the token `mint`.
    pub fn creates(&self, mint: &Address) -> (yes: bool)
        ensures
            yes == self.deep_view().creates(*mint),
    {
        match self {
            Instruction::Create { mint: m, .. } => {
                proof {
                    crate::address::lemma_address_by_view(*m, *mint);
                }
                m == mint
            },
            _ => false,
        }
    }

    /// Whether the step buys the token `mint`.
    pub fn buys(&self, mint: &Address) -> (yes: bool)
        ensures
            yes == self.deep_view().buys(*mint),
    {
        match self {
            Instruction::Buy { mint: m, .. } => {
                proof {
                    crate::address::lemma_address_by_view(*m, *mint);
                }
                m == mint
            },
            _ => false,
        }
    }
}

impl Clone for Instruction {
    /// A copy that spells the same step.
    fn clone(&self) -> (copy: Instruction)
        ensures
            copy.deep_view() == self.deep_view(),
    {
        match self {
            Instruction::SetComputeUnitLimit { units } => Instruction::SetComputeUnitLimit { units: *units },
            Instruction::SetComputeUnitPrice { micro_lamports } => Instruction::SetComputeUnitPrice {
                micro_lamports: *micro_lamports,
            },
            Instruction::CreateAssociatedTokenAccount { funder, wallet, mint, token_program } =>
                Instruction::CreateAssociatedTokenAccount {
                funder: *funder,
                wallet: *wallet,
                mint: *mint,
                token_program: *token_program,
            },
            Instruction::Create { payer, mint, name, symbol, uri } => Instruction::Create {
                payer: *payer,
                mint: *mint,
                name: name.clone(),
                symbol: symbol.clone(),
                uri: uri.clone(),
            },
            Instruction::Buy { payer, mint, fee_recipient, amount, max_sol_cost } => Instruction::Buy {
                payer: *payer,
                mint: *mint,
                fee_recipient: *fee_recipient,
                amount: *amount,
                max_sol_cost: *max_sol_cost,
            },
            Instruction::Transfer { from, to, lamports } => Instruction::Transfer {
                from: *from,
                to: *to,
                lamports: *lamports,
            },
        }
    }
}

/// An unsigned transaction: its steps in order, who pays, and who signs.
#[derive(Debug, PartialEq, Eq)]
pub struct Transaction {
    pub instructions: Vec<Instruction>,
    pub payer: Address,
    pub signers: Vec<Address>,
}

/// A [`Transaction`] as a mathematical value.
pub ghost struct TransactionView {
    pub instructions: Seq<InstructionView>,
    pub payer: Address,
    pub signers: Seq<Address>,
}

impl DeepView for Transaction {
    type V = TransactionView;

    open spec fn deep_view(&self) -> TransactionView {
        TransactionView {
            instructions: self.instructions.deep_view(),
            payer: self.payer,
            signers: self.signers@,
        }
    }
}

impl Clone for Transaction {
    /// A copy with the same steps in the same order, the same payer and
    /// the same signers.
    fn clone(&self) -> (copy: Transaction)
        ensures
            copy.deep_view() == self.deep_view(),
    {
        let mut instructions: Vec<Instruction> = Vec::new();
        let mut index: usize = 0;
        while index < self.instructions.len()
            invariant
                index <= self.instructions@.len(),
                instructions@.len() == index,
                forall|i: int|
                    0 <= i < index ==> (#[trigger] instructions@[i]).deep_view()
                        == self.instructions@[i].deep_view(),
            decreases self.instructions@.len() - index,
        {
            instructions.push(self.instructions[index].clone());
            index += 1;
        }
        assert(instructions.deep_view() =~= self.instructions.deep_view());
        let mut signers: Vec<Address> = Vec::new();
        let mut index: usize = 0;
        while index < self.signers.len()
            invariant
                index <= self.signers@.len(),
                signers@ == self.signers@.take(index as int),
            decreases self.signers@.len() - index,
        {
            signers.push(self.signers[index]);
            assert(self.signers@.take(index + 1) =~= self.signers@.take(index as int).push(
                self.signers@[index as int],
            ));
            index += 1;
        }
        assert(signers@ =~= self.signers@);
        Transaction { instructions, payer: self.payer, signers }
    }
}

/// How a finished transaction leaves the client.
#[derive(Debug, Clone, Copy, PartialEq, Eq, Structural)]
pub enum Route {
    /// Sent to the chain; the signature is returned at once.
    Send,
    /// Sent to the chain; the signature is returned once it is confirmed.
    SendAndConfirm,
    /// Handed to the relay as a bundle of one.
    Bundle,
}

/// A finished transaction and the way it is to leave the client.
#[derive(Debug, PartialEq, Eq)]
pub struct Submission {
    pub transaction: Transaction,
    pub route: Route,
}

/// A [`Submission`] as a mathematical value.
pub ghost struct SubmissionView {
    pub transaction: TransactionView,
    pub route: Route,
}

impl DeepView for Submission {
    type V = SubmissionView;

    open spec fn deep_view(&self) -> SubmissionView {
        SubmissionView { transaction: self.transaction.deep_view(), route: self.route }
    }
}

impl Clone for Submission {
    /// A copy of the transaction, on the same way out.
    fn clone(&self) -> (copy: Submission)
        ensures
            copy.deep_view() == self.deep_view(),
    {
        Submission { transaction: self.transaction.clone(), route: self.route }
    }
}

} // verus!

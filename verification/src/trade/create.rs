//! Launching a token, alone or together with its first purchases.
//!
//! A launch with purchases by several payers is built whole before any
//! of it leaves: the first payer's transaction launches the token and
//! buys, every further payer's transaction buys, and the relay takes
//! them in that order as one bundle.

use crate::accounts::BondingCurveAccount;
use crate::accounts::GlobalAccount;
use crate::address::Address;
use crate::error::TradeError;
use crate::instruction::compute_budget_first;
use crate::instruction::launches;
use crate::instruction::launches_nothing;
use crate::instruction::Instruction;
use crate::instruction::InstructionView;
use crate::instruction::Route;
use crate::instruction::Submission;
use crate::instruction::SubmissionView;
use crate::instruction::Transaction;
use crate::instruction::TransactionView;
use crate::ipfs::TokenMetadataIPFS;
use crate::trade::buy::build_buy;
use crate::trade::buy::buy_fits;
use crate::trade::buy::buy_transaction;
use crate::trade::buy::lemma_buy_asks_for_what_is_missing;
use crate::trade::buy::route_transaction;
use crate::trade::buy::routed;
use crate::trade::common::associated_account_instructions;
use crate::trade::common::associated_token_address;
use crate::trade::common::create_priority_fee_instructions;
use crate::trade::common::fee_or_default_instructions;
use crate::trade::common::get_associated_token_address;
use crate::trade::common::get_buy_amount_with_slippage;
use crate::trade::common::outcome_view;
use crate::trade::common::push_associated_account_instructions;
use crate::trade::common::slippage_or_default;
use crate::trade::common::with_slippage_buy;
use crate::trade::common::ChainReads;
use crate::trade::common::Need;
use crate::trade::common::PriorityFee;
use crate::trade::common::Step;
use vstd::prelude::*;

verus! {

/// The step that launches `mint` under the name, ticker and metadata
/// address of `ipfs`.
pub open spec fn create_instruction(payer: Address, mint: Address, ipfs: TokenMetadataIPFS) -> InstructionView {
    InstructionView::Create {
        payer,
        mint,
        name: ipfs.metadata.name@,
        symbol: ipfs.metadata.symbol@,
        uri: ipfs.metadata_uri@,
    }
}

/// The step that launches `mint`, with its own copy of the texts.
fn launch(payer: &Address, mint: &Address, ipfs: &TokenMetadataIPFS) -> (instruction: Instruction)
    ensures
        instruction.deep_view() == create_instruction(*payer, *mint, *ipfs),
{
    Instruction::Create {
        payer: *payer,
        mint: *mint,
        name: ipfs.metadata.name.clone(),
        symbol: ipfs.metadata.symbol.clone(),
        uri: ipfs.metadata_uri.clone(),
    }
}

/// The launch of `mint`: the fee steps, the caller's or the default
/// ones, then the launch itself, signed by the payer and the mint and
/// sent to the chain to be confirmed.
pub open spec fn create_submission(
    payer: Address,
    mint: Address,
    ipfs: TokenMetadataIPFS,
    priority_fee: Option<PriorityFee>,
) -> SubmissionView {
    SubmissionView {
        transaction: TransactionView {
            instructions: fee_or_default_instructions(priority_fee) + seq![
                create_instruction(payer, mint, ipfs),
            ],
            payer,
            signers: seq![payer, mint],
        },
        route: Route::SendAndConfirm,
    }
}

/// Launches the token `mint`. Nothing has to be read for it.
pub fn create(payer: &Address, mint: &Address, ipfs: &TokenMetadataIPFS, priority_fee: Option<PriorityFee>) -> (submission:
    Submission)
    ensures
        submission.deep_view() == create_submission(*payer, *mint, *ipfs, priority_fee),
{
    let mut instructions = create_priority_fee_instructions(priority_fee);
    let ghost before = instructions.deep_view();
    let step = launch(payer, mint, ipfs);
    instructions.push(step);
    assert(instructions.deep_view() =~= before + seq![create_instruction(*payer, *mint, *ipfs)]);

    let mut signers: Vec<Address> = Vec::new();
    signers.push(*payer);
    signers.push(*mint);
    assert(signers@ =~= seq![*payer, *mint]);
    Submission {
        transaction: Transaction { instructions, payer: *payer, signers },
        route: Route::SendAndConfirm,
    }
}

/// In a launch every fee step stands before the launch, which is the
/// last step.
pub proof fn lemma_create_shape(
    payer: Address,
    mint: Address,
    ipfs: TokenMetadataIPFS,
    priority_fee: Option<PriorityFee>,
)
    ensures
        compute_budget_first(create_submission(payer, mint, ipfs, priority_fee).transaction.instructions),
        create_submission(payer, mint, ipfs, priority_fee).transaction.instructions.last().creates(mint),
{
}

/// Whether the numbers of a launch with a purchase can be computed: the
/// cost bound fits in 64 bits, and the protocol-wide account, once it
/// has been read for a purchase of something, starts curves with
/// virtual tokens.
pub open spec fn create_and_buy_fits(
    global: Option<GlobalAccount>,
    amount_sol: u64,
    slippage_basis_points: Option<u64>,
) -> bool {
    &&& with_slippage_buy(amount_sol as int, slippage_or_default(slippage_basis_points) as int)
        <= u64::MAX
    &&& amount_sol > 0 ==> (global matches Some(global) ==> global.initial_virtual_token_reserves
        > 0)
}

/// The transaction that launches `mint` and buys for `amount_sol`
/// lamports in one, or what stands in its way. The fee steps, the
/// caller's or the default ones, come first, then the launch, then the
/// creation of the payer's token account where it is missing, then the
/// purchase, priced on the protocol's initial reserves and bounded by
/// the caller's slippage or the default one.
pub open spec fn create_and_buy_transaction(
    global: Option<GlobalAccount>,
    exists: Option<bool>,
    payer: Address,
    mint: Address,
    ipfs: TokenMetadataIPFS,
    amount_sol: u64,
    slippage_basis_points: Option<u64>,
    priority_fee: Option<PriorityFee>,
) -> Result<Step<TransactionView>, TradeError> {
    if amount_sol == 0 {
        Err(TradeError::InvalidInput)
    } else if global is None {
        Ok(Step::Read(Need::GlobalAccount))
    } else {
        match (associated_token_address(payer, mint), exists) {
            (None, _) => Err(TradeError::AccountNotFound),
            (Some(account), None) => Ok(Step::Read(Need::AccountExists(account))),
            (Some(_), Some(exists)) => Ok(
                Step::Ready(
                    TransactionView {
                        instructions: fee_or_default_instructions(priority_fee) + seq![
                            create_instruction(payer, mint, ipfs),
                        ] + associated_account_instructions(payer, mint, exists) + seq![
                            InstructionView::Buy {
                                payer,
                                mint,
                                fee_recipient: global->Some_0.fee_recipient,
                                amount: global->Some_0.initial_buy_price(amount_sol) as u64,
                                max_sol_cost: with_slippage_buy(
                                    amount_sol as int,
                                    slippage_or_default(slippage_basis_points) as int,
                                ) as u64,
                            },
                        ],
                        payer,
                        signers: seq![payer, mint],
                    },
                ),
            ),
        }
    }
}

/// Builds the launch with a purchase of one payer from what has been
/// read for it.
pub(crate) fn build_create_and_buy(
    global: Option<GlobalAccount>,
    exists: Option<bool>,
    payer: &Address,
    mint: &Address,
    ipfs: &TokenMetadataIPFS,
    amount_sol: u64,
    slippage_basis_points: Option<u64>,
    priority_fee: Option<PriorityFee>,
) -> (outcome: Result<Step<Transaction>, TradeError>)
    requires
        create_and_buy_fits(global, amount_sol, slippage_basis_points),
    ensures
        outcome_view(outcome) == create_and_buy_transaction(
            global,
            exists,
            *payer,
            *mint,
            *ipfs,
            amount_sol,
            slippage_basis_points,
            priority_fee,
        ),
{
    if amount_sol == 0 {
        return Err(TradeError::InvalidInput);
    }
    let global_account = match global {
        Some(account) => account,
        None => { return Ok(Step::Read(Need::GlobalAccount)); },
    };
    let buy_amount = global_account.get_initial_buy_price(amount_sol);
    let buy_amount_with_slippage = get_buy_amount_with_slippage(amount_sol, slippage_basis_points);

    let mut instructions = create_priority_fee_instructions(priority_fee);
    let ghost fees = instructions.deep_view();
    let step = launch(payer, mint, ipfs);
    instructions.push(step);
    assert(instructions.deep_view() =~= fees + seq![create_instruction(*payer, *mint, *ipfs)]);

    let account = match get_associated_token_address(payer, mint) {
        Some(account) => account,
        None => { return Err(TradeError::AccountNotFound); },
    };
    let exists = match exists {
        Some(exists) => exists,
        None => { return Ok(Step::Read(Need::AccountExists(account))); },
    };
    push_associated_account_instructions(&mut instructions, payer, mint, exists);
    let ghost before = instructions.deep_view();
    let buy = Instruction::Buy {
        payer: *payer,
        mint: *mint,
        fee_recipient: global_account.fee_recipient,
        amount: buy_amount,
        max_sol_cost: buy_amount_with_slippage,
    };
    instructions.push(buy);
    assert(instructions.deep_view() =~= before + seq![buy.deep_view()]);

    let mut signers: Vec<Address> = Vec::new();
    signers.push(*payer);
    signers.push(*mint);
    assert(signers@ =~= seq![*payer, *mint]);
    Ok(Step::Ready(Transaction { instructions, payer: *payer, signers }))
}

/// The launch with a purchase of the first payer of `reads`, unsigned.
pub fn build_create_and_buy_transaction(
    reads: &ChainReads,
    payer: &Address,
    mint: &Address,
    ipfs: &TokenMetadataIPFS,
    amount_sol: u64,
    slippage_basis_points: Option<u64>,
    priority_fee: Option<PriorityFee>,
) -> (outcome: Result<Step<Transaction>, TradeError>)
    requires
        create_and_buy_fits(reads.global_account, amount_sol, slippage_basis_points),
    ensures
        outcome_view(outcome) == create_and_buy_transaction(
            reads.global_account,
            reads.probed(0),
            *payer,
            *mint,
            *ipfs,
            amount_sol,
            slippage_basis_points,
            priority_fee,
        ),
{
    build_create_and_buy(
        reads.global_account,
        reads.associated_account(0),
        payer,
        mint,
        ipfs,
        amount_sol,
        slippage_basis_points,
        priority_fee,
    )
}

/// Launches the token `mint` and buys for `amount_sol` lamports in one
/// transaction, sent to the chain to be confirmed.
pub fn create_and_buy(
    reads: &ChainReads,
    payer: &Address,
    mint: &Address,
    ipfs: &TokenMetadataIPFS,
    amount_sol: u64,
    slippage_basis_points: Option<u64>,
    priority_fee: Option<PriorityFee>,
) -> (outcome: Result<Step<Submission>, TradeError>)
    requires
        create_and_buy_fits(reads.global_account, amount_sol, slippage_basis_points),
    ensures
        outcome_view(outcome) == routed(
            create_and_buy_transaction(
                reads.global_account,
                reads.probed(0),
                *payer,
                *mint,
                *ipfs,
                amount_sol,
                slippage_basis_points,
                priority_fee,
            ),
            Route::SendAndConfirm,
        ),
{
    let transaction = build_create_and_buy_transaction(
        reads,
        payer,
        mint,
        ipfs,
        amount_sol,
        slippage_basis_points,
        priority_fee,
    );
    route_transaction(transaction, Route::SendAndConfirm)
}

/// The transaction of the payer at `index` in a launch by several
/// payers, or what stands in its way. Each payer spends the amount at
/// its own index. The first payer launches and buys, with the default
/// fee and the default slippage; every other payer buys, with no fee
/// step and no slippage.
pub open spec fn bundle_transaction(
    reads: ChainReads,
    payers: Seq<Address>,
    mint: Address,
    ipfs: TokenMetadataIPFS,
    amount_sols: Seq<u64>,
    index: int,
) -> Result<Step<TransactionView>, TradeError> {
    if index == 0 {
        create_and_buy_transaction(
            reads.global_account,
            reads.probed(0),
            payers[0],
            mint,
            ipfs,
            amount_sols[0],
            None,
            None,
        )
    } else {
        buy_transaction(
            reads.global_account,
            reads.bonding_curve_account,
            reads.probed(index),
            payers[index],
            mint,
            amount_sols[index],
            None,
            None,
        )
    }
}

/// Whether one of the amounts is zero.
pub open spec fn has_empty_amount(amount_sols: Seq<u64>) -> bool {
    exists|k: int| 0 <= k < amount_sols.len() && #[trigger] amount_sols[k] == 0
}

/// The first `count` transactions of a launch by several payers, in the
/// order of the payers, or what stands in the way of the first of them
/// that cannot be built.
pub open spec fn bundle_prefix(
    reads: ChainReads,
    payers: Seq<Address>,
    mint: Address,
    ipfs: TokenMetadataIPFS,
    amount_sols: Seq<u64>,
    count: nat,
) -> Result<Step<Seq<TransactionView>>, TradeError>
    decreases count,
{
    if count == 0 {
        Ok(Step::Ready(Seq::<TransactionView>::empty()))
    } else {
        match bundle_prefix(reads, payers, mint, ipfs, amount_sols, (count - 1) as nat) {
            Ok(Step::Ready(before)) => match bundle_transaction(
                reads,
                payers,
                mint,
                ipfs,
                amount_sols,
                count - 1,
            ) {
                Ok(Step::Ready(transaction)) => Ok(Step::Ready(before.push(transaction))),
                Ok(Step::Read(need)) => Ok(Step::Read(need)),
                Err(error) => Err(error),
            },
            stopped => stopped,
        }
    }
}

/// The bundle that launches `mint` and buys for every payer, or what
/// stands in its way. Without any amount, or with an amount of zero
/// anywhere, it is refused before anything is read.
pub open spec fn bundle_transactions(
    reads: ChainReads,
    payers: Seq<Address>,
    mint: Address,
    ipfs: TokenMetadataIPFS,
    amount_sols: Seq<u64>,
) -> Result<Step<Seq<TransactionView>>, TradeError> {
    if amount_sols.len() == 0 || has_empty_amount(amount_sols) {
        Err(TradeError::InvalidInput)
    } else {
        bundle_prefix(reads, payers, mint, ipfs, amount_sols, payers.len())
    }
}

/// Whether a launch by several payers can be computed. It matters only
/// where every amount is positive: then there is one amount for each
/// payer, the cost bound of the first fits in 64 bits, and the curve,
/// once it has been read for a further payer, holds virtual tokens.
pub open spec fn bundle_fits(reads: ChainReads, payers: Seq<Address>, amount_sols: Seq<u64>) -> bool {
    amount_sols.len() > 0 && !has_empty_amount(amount_sols) ==> {
        &&& payers.len() == amount_sols.len()
        &&& create_and_buy_fits(reads.global_account, amount_sols[0], None)
        &&& payers.len() >= 2 ==> (reads.bonding_curve_account matches Some(curve)
            ==> curve.virtual_token_reserves > 0)
    }
}

/// What the first `count` transactions of a bundle look like: the
/// transaction at each index is paid by the payer at that index and
/// ends with that payer's purchase of `mint`, bounded by the amount at
/// that index: raised by the default slippage for the first payer, as
/// it is for every other. Fee steps come first. The first transaction
/// launches `mint` before it buys, signed by its payer and the mint;
/// every other launches nothing and is signed by its payer alone.
pub open spec fn bundle_shape(
    bundle: Seq<TransactionView>,
    payers: Seq<Address>,
    mint: Address,
    amount_sols: Seq<u64>,
    count: nat,
) -> bool {
    &&& bundle.len() == count
    &&& forall|k: int|
        0 <= k < count ==> {
            &&& (#[trigger] bundle[k]).payer == payers[k]
            &&& compute_budget_first(bundle[k].instructions)
            &&& bundle[k].instructions.len() > 0
            &&& bundle[k].instructions.last() matches InstructionView::Buy {
                payer,
                mint: bought,
                max_sol_cost,
                ..
            }
            &&& payer == payers[k]
            &&& bought == mint
            &&& max_sol_cost == if k == 0 {
                with_slippage_buy(amount_sols[0] as int, slippage_or_default(None) as int) as u64
            } else {
                amount_sols[k]
            }
        }
    &&& count > 0 ==> {
        &&& launches(bundle[0].instructions.drop_last(), mint)
        &&& bundle[0].signers == seq![payers[0], mint]
    }
    &&& forall|k: int|
        1 <= k < count ==> {
            &&& launches_nothing((#[trigger] bundle[k]).instructions)
            &&& bundle[k].signers == seq![payers[k]]
        }
}

/// A bundle without amounts, or with an amount of zero for any payer,
/// is refused before anything is read, whatever has been read already.
pub proof fn lemma_empty_bundle_is_refused_first(
    reads: ChainReads,
    payers: Seq<Address>,
    mint: Address,
    ipfs: TokenMetadataIPFS,
    amount_sols: Seq<u64>,
    index: int,
)
    requires
        amount_sols.len() == 0 || (0 <= index < amount_sols.len() && amount_sols[index] == 0),
    ensures
        bundle_transactions(reads, payers, mint, ipfs, amount_sols) == Err::<
            Step<Seq<TransactionView>>,
            TradeError,
        >(TradeError::InvalidInput),
{
}

/// Once a transaction of the bundle cannot be built, no longer prefix
/// can: what stood in the way stays in the way.
pub proof fn lemma_bundle_prefix_stops(
    reads: ChainReads,
    payers: Seq<Address>,
    mint: Address,
    ipfs: TokenMetadataIPFS,
    amount_sols: Seq<u64>,
    shorter: nat,
    longer: nat,
)
    requires
        shorter <= longer,
        !(bundle_prefix(reads, payers, mint, ipfs, amount_sols, shorter) matches Ok(Step::Ready(_))),
    ensures
        bundle_prefix(reads, payers, mint, ipfs, amount_sols, longer) == bundle_prefix(
            reads,
            payers,
            mint,
            ipfs,
            amount_sols,
            shorter,
        ),
    decreases longer,
{
    if shorter < longer {
        lemma_bundle_prefix_stops(reads, payers, mint, ipfs, amount_sols, shorter, (longer - 1) as nat);
    }
}

/// A launch with a purchase of nothing is refused before anything is
/// read, whatever has been read already.
pub proof fn lemma_empty_create_and_buy_is_refused_first(
    global: Option<GlobalAccount>,
    exists: Option<bool>,
    payer: Address,
    mint: Address,
    ipfs: TokenMetadataIPFS,
    slippage_basis_points: Option<u64>,
    priority_fee: Option<PriorityFee>,
)
    ensures
        create_and_buy_transaction(
            global,
            exists,
            payer,
            mint,
            ipfs,
            0,
            slippage_basis_points,
            priority_fee,
        ) == Err::<Step<TransactionView>, TradeError>(TradeError::InvalidInput),
{
}

/// A launch with a purchase asks only for what has not been read, and
/// never for the bonding curve, a tip account or a balance.
pub proof fn lemma_create_and_buy_asks_for_what_is_missing(
    global: Option<GlobalAccount>,
    exists: Option<bool>,
    payer: Address,
    mint: Address,
    ipfs: TokenMetadataIPFS,
    amount_sol: u64,
    slippage_basis_points: Option<u64>,
    priority_fee: Option<PriorityFee>,
)
    ensures
        match create_and_buy_transaction(
            global,
            exists,
            payer,
            mint,
            ipfs,
            amount_sol,
            slippage_basis_points,
            priority_fee,
        ) {
            Ok(Step::Read(Need::GlobalAccount)) => global is None,
            Ok(Step::Read(Need::AccountExists(account))) => {
                &&& global is Some
                &&& exists is None
                &&& associated_token_address(payer, mint) == Some(account)
            },
            Ok(Step::Read(_)) => false,
            Ok(Step::Ready(_)) => global is Some && exists is Some,
            Err(_) => true,
        },
{
}

/// In a launch with a purchase every fee step stands before every other
/// step, the launch stands before the purchase, which is the last step,
/// and the payer and the mint sign.
pub proof fn lemma_create_and_buy_shape(
    global: Option<GlobalAccount>,
    exists: Option<bool>,
    payer: Address,
    mint: Address,
    ipfs: TokenMetadataIPFS,
    amount_sol: u64,
    slippage_basis_points: Option<u64>,
    priority_fee: Option<PriorityFee>,
)
    requires
        create_and_buy_transaction(
            global,
            exists,
            payer,
            mint,
            ipfs,
            amount_sol,
            slippage_basis_points,
            priority_fee,
        ) matches Ok(Step::Ready(_)),
    ensures
        ({
            let transaction = create_and_buy_transaction(
                global,
                exists,
                payer,
                mint,
                ipfs,
                amount_sol,
                slippage_basis_points,
                priority_fee,
            )->Ok_0->Ready_0;
            &&& compute_budget_first(transaction.instructions)
            &&& transaction.payer == payer
            &&& transaction.signers == seq![payer, mint]
            &&& launches(transaction.instructions.drop_last(), mint)
            &&& transaction.instructions.last().buys(mint)
        }),
{
    let transaction = create_and_buy_transaction(
        global,
        exists,
        payer,
        mint,
        ipfs,
        amount_sol,
        slippage_basis_points,
        priority_fee,
    )->Ok_0->Ready_0;
    let fees = fee_or_default_instructions(priority_fee);
    let at = fees.len() as int;
    assert(transaction.instructions[at] == create_instruction(payer, mint, ipfs));
    assert(transaction.instructions.drop_last()[at].creates(mint));
}

/// In a purchase no step launches a token.
pub proof fn lemma_buy_launches_nothing(
    global: Option<GlobalAccount>,
    curve: Option<BondingCurveAccount>,
    exists: Option<bool>,
    payer: Address,
    mint: Address,
    amount_sol: u64,
    slippage_basis_points: Option<u64>,
    priority_fee: Option<PriorityFee>,
)
    requires
        buy_transaction(
            global,
            curve,
            exists,
            payer,
            mint,
            amount_sol,
            slippage_basis_points,
            priority_fee,
        ) matches Ok(Step::Ready(_)),
    ensures
        ({
            let transaction = buy_transaction(
                global,
                curve,
                exists,
                payer,
                mint,
                amount_sol,
                slippage_basis_points,
                priority_fee,
            )->Ok_0->Ready_0;
            &&& launches_nothing(transaction.instructions)
            &&& compute_budget_first(transaction.instructions)
            &&& transaction.instructions.last().buys(mint)
            &&& transaction.payer == payer
            &&& transaction.signers == seq![payer]
        }),
{
}

/// A bundle that can be built holds one transaction for each payer, in
/// the order of the payers, and each payer spends the amount at its own
/// index. The first launches the token and then buys it; every other
/// buys it and launches nothing. So the launch always runs before every
/// purchase.
pub proof fn lemma_bundle_shape(
    reads: ChainReads,
    payers: Seq<Address>,
    mint: Address,
    ipfs: TokenMetadataIPFS,
    amount_sols: Seq<u64>,
    count: nat,
)
    requires
        bundle_prefix(reads, payers, mint, ipfs, amount_sols, count) matches Ok(Step::Ready(_)),
    ensures
        bundle_shape(
            bundle_prefix(reads, payers, mint, ipfs, amount_sols, count)->Ok_0->Ready_0,
            payers,
            mint,
            amount_sols,
            count,
        ),
    decreases count,
{
    if count > 0 {
        let shorter = (count - 1) as nat;
        lemma_bundle_shape(reads, payers, mint, ipfs, amount_sols, shorter);
        if count == 1 {
            lemma_create_and_buy_shape(
                reads.global_account,
                reads.probed(0),
                payers[0],
                mint,
                ipfs,
                amount_sols[0],
                None,
                None,
            );
        } else {
            let amount = amount_sols[count - 1];
            lemma_buy_launches_nothing(
                reads.global_account,
                reads.bonding_curve_account,
                reads.probed(count - 1),
                payers[count - 1],
                mint,
                amount,
                None,
                None,
            );
            assert(with_slippage_buy(amount as int, 0) == amount) by (nonlinear_arith);
        }
    }
}

/// A bundle asks only for what has not been read: the protocol-wide
/// account, the bonding curve, or whether the token account of a payer
/// exists that has not been asked about yet.
pub proof fn lemma_bundle_asks_for_what_is_missing(
    reads: ChainReads,
    payers: Seq<Address>,
    mint: Address,
    ipfs: TokenMetadataIPFS,
    amount_sols: Seq<u64>,
    count: nat,
)
    requires
        count <= payers.len(),
    ensures
        match bundle_prefix(reads, payers, mint, ipfs, amount_sols, count) {
            Ok(Step::Read(Need::GlobalAccount)) => reads.global_account is None,
            Ok(Step::Read(Need::BondingCurveAccount)) => reads.bonding_curve_account is None,
            Ok(Step::Read(Need::AccountExists(_))) => reads.associated_accounts@.len() < count,
            Ok(Step::Read(_)) => false,
            Ok(Step::Ready(_)) => reads.associated_accounts@.len() >= count,
            Err(_) => true,
        },
    decreases count,
{
    if count > 0 {
        lemma_bundle_asks_for_what_is_missing(reads, payers, mint, ipfs, amount_sols, (count - 1) as nat);
        if count == 1 {
            lemma_create_and_buy_asks_for_what_is_missing(
                reads.global_account,
                reads.probed(0),
                payers[0],
                mint,
                ipfs,
                amount_sols[0],
                None,
                None,
            );
        } else {
            lemma_buy_asks_for_what_is_missing(
                reads.global_account,
                reads.bonding_curve_account,
                reads.probed(count - 1),
                payers[count - 1],
                mint,
                amount_sols[count - 1],
                None,
                None,
            );
        }
    }
}

/// Launches the token `mint` and buys it for every payer, all in one
/// bundle for the relay: the launch with the first payer's purchase
/// first, then one purchase for each further payer, in their order,
/// each for the amount at the payer's own index. The amounts are
/// checked before anything is read, and every transaction is built
/// before any is handed on.
pub fn create_and_buy_with_jito(
    reads: &ChainReads,
    payers: &Vec<Address>,
    mint: &Address,
    ipfs: &TokenMetadataIPFS,
    amount_sols: &Vec<u64>,
) -> (outcome: Result<Step<Vec<Transaction>>, TradeError>)
    requires
        bundle_fits(*reads, payers@, amount_sols@),
    ensures
        outcome_view(outcome) == bundle_transactions(*reads, payers@, *mint, *ipfs, amount_sols@),
        outcome matches Ok(Step::Ready(bundle)) ==> bundle_shape(
            bundle.deep_view(),
            payers@,
            *mint,
            amount_sols@,
            payers@.len(),
        ),
{
    if amount_sols.len() == 0 {
        return Err(TradeError::InvalidInput);
    }
    let mut checked: usize = 0;
    while checked < amount_sols.len()
        invariant
            checked <= amount_sols@.len(),
            forall|k: int| 0 <= k < checked ==> #[trigger] amount_sols@[k] != 0,
        decreases amount_sols@.len() - checked,
    {
        if amount_sols[checked] == 0 {
            return Err(TradeError::InvalidInput);
        }
        checked += 1;
    }
    assert(!has_empty_amount(amount_sols@));
    let ghost whole = bundle_transactions(*reads, payers@, *mint, *ipfs, amount_sols@);
    let mut transactions: Vec<Transaction> = Vec::new();
    let first = build_create_and_buy(
        reads.global_account,
        reads.associated_account(0),
        &payers[0],
        mint,
        ipfs,
        amount_sols[0],
        None,
        None,
    );
    proof {
        reveal_with_fuel(bundle_prefix, 2);
    }
    match first {
        Ok(Step::Ready(transaction)) => {
            transactions.push(transaction);
            assert(transactions.deep_view() =~= Seq::<TransactionView>::empty().push(
                transaction.deep_view(),
            ));
        },
        Ok(Step::Read(need)) => {
            proof {
                lemma_bundle_prefix_stops(*reads, payers@, *mint, *ipfs, amount_sols@, 1, payers@.len());
            }
            return Ok(Step::Read(need));
        },
        Err(error) => {
            proof {
                lemma_bundle_prefix_stops(*reads, payers@, *mint, *ipfs, amount_sols@, 1, payers@.len());
            }
            return Err(error);
        },
    }
    let mut index: usize = 1;
    while index < payers.len()
        invariant
            1 <= index <= payers@.len() == amount_sols@.len(),
            !has_empty_amount(amount_sols@),
            payers@.len() >= 2 ==> (reads.bonding_curve_account matches Some(curve)
                ==> curve.virtual_token_reserves > 0),
            bundle_prefix(*reads, payers@, *mint, *ipfs, amount_sols@, index as nat) == Ok::<
                Step<Seq<TransactionView>>,
                TradeError,
            >(Step::Ready(transactions.deep_view())),
        decreases payers@.len() - index,
    {
        let amount_sol: u64 = amount_sols[index];
        proof {
            assert(with_slippage_buy(amount_sol as int, 0) == amount_sol) by (nonlinear_arith);
        }
        let next = build_buy(
            reads.global_account,
            reads.bonding_curve_account,
            reads.associated_account(index),
            &payers[index],
            mint,
            amount_sol,
            None,
            None,
        );
        let ghost before = transactions.deep_view();
        match next {
            Ok(Step::Ready(transaction)) => {
                transactions.push(transaction);
                assert(transactions.deep_view() =~= before.push(transaction.deep_view()));
            },
            Ok(Step::Read(need)) => {
                proof {
                    lemma_bundle_prefix_stops(
                        *reads,
                        payers@,
                        *mint,
                        *ipfs,
                        amount_sols@,
                        (index + 1) as nat,
                        payers@.len(),
                    );
                }
                return Ok(Step::Read(need));
            },
            Err(error) => {
                proof {
                    lemma_bundle_prefix_stops(
                        *reads,
                        payers@,
                        *mint,
                        *ipfs,
                        amount_sols@,
                        (index + 1) as nat,
                        payers@.len(),
                    );
                }
                return Err(error);
            },
        }
        index += 1;
    }
    proof {
        lemma_bundle_shape(*reads, payers@, *mint, *ipfs, amount_sols@, payers@.len());
    }
    Ok(Step::Ready(transactions))
}

} // verus!

//! Buying tokens of a launched token: directly, or through the relay.
//!
//! A purchase reads, in this order: the protocol-wide account, the
//! token's bonding curve, and whether the payer already has an account
//! for the token. Its amounts are checked before anything is read.

use crate::accounts::BondingCurveAccount;
use crate::accounts::GlobalAccount;
use crate::address::Address;
use crate::constants::JITO_TIP_AMOUNT;
use crate::error::TradeError;
use crate::instruction::compute_budget_first;
use crate::instruction::Instruction;
use crate::instruction::InstructionView;
use crate::instruction::Route;
use crate::instruction::Submission;
use crate::instruction::SubmissionView;
use crate::instruction::Transaction;
use crate::instruction::TransactionView;
use crate::trade::common::associated_account_instructions;
use crate::trade::common::associated_token_address;
use crate::trade::common::calculate_with_slippage_buy;
use crate::trade::common::get_associated_token_address;
use crate::trade::common::lemma_buy_price_bounds;
use crate::trade::common::optional_fee_instructions;
use crate::trade::common::outcome_view;
use crate::trade::common::push_associated_account_instructions;
use crate::trade::common::push_fee_instructions;
use crate::trade::common::with_slippage_buy;
use crate::trade::common::ChainReads;
use crate::trade::common::Need;
use crate::trade::common::PriorityFee;
use crate::trade::common::Step;
use vstd::prelude::*;

verus! {

/// The slippage of a purchase: the caller's, or none.
pub open spec fn slippage_or_none(slippage_basis_points: Option<u64>) -> u64 {
    match slippage_basis_points {
        Some(basis_points) => basis_points,
        None => 0,
    }
}

/// Whether the numbers of a purchase can be computed: the cost bound
/// fits in 64 bits, and the curve, once it has been read for a purchase
/// of something, holds virtual tokens.
pub open spec fn buy_fits(
    curve: Option<BondingCurveAccount>,
    amount_sol: u64,
    slippage_basis_points: Option<u64>,
) -> bool {
    &&& with_slippage_buy(amount_sol as int, slippage_or_none(slippage_basis_points) as int)
        <= u64::MAX
    &&& amount_sol > 0 ==> (curve matches Some(curve) ==> curve.virtual_token_reserves > 0)
}

/// The transaction that buys tokens of `mint` for `amount_sol` lamports,
/// or what stands in its way. The fee steps a caller asked for come
/// first, then the creation of the payer's token account where it is
/// missing, then the purchase: as many tokens as the curve gives for the
/// amount, for at most the amount raised by the slippage.
pub open spec fn buy_transaction(
    global: Option<GlobalAccount>,
    curve: Option<BondingCurveAccount>,
    exists: Option<bool>,
    payer: Address,
    mint: Address,
    amount_sol: u64,
    slippage_basis_points: Option<u64>,
    priority_fee: Option<PriorityFee>,
) -> Result<Step<TransactionView>, TradeError> {
    if amount_sol == 0 {
        Err(TradeError::InvalidInput)
    } else if global is None {
        Ok(Step::Read(Need::GlobalAccount))
    } else if curve is None {
        Ok(Step::Read(Need::BondingCurveAccount))
    } else {
        match (associated_token_address(payer, mint), exists) {
            (None, _) => Err(TradeError::AccountNotFound),
            (Some(account), None) => Ok(Step::Read(Need::AccountExists(account))),
            (Some(_), Some(exists)) => Ok(
                Step::Ready(
                    TransactionView {
                        instructions: optional_fee_instructions(priority_fee)
                            + associated_account_instructions(payer, mint, exists) + seq![
                            InstructionView::Buy {
                                payer,
                                mint,
                                fee_recipient: global->Some_0.fee_recipient,
                                amount: curve->Some_0.buy_price(amount_sol) as u64,
                                max_sol_cost: with_slippage_buy(
                                    amount_sol as int,
                                    slippage_or_none(slippage_basis_points) as int,
                                ) as u64,
                            },
                        ],
                        payer,
                        signers: seq![payer],
                    },
                ),
            ),
        }
    }
}

/// Builds the purchase of one payer from what has been read for it.
pub(crate) fn build_buy(
    global: Option<GlobalAccount>,
    curve: Option<BondingCurveAccount>,
    exists: Option<bool>,
    payer: &Address,
    mint: &Address,
    amount_sol: u64,
    slippage_basis_points: Option<u64>,
    priority_fee: Option<PriorityFee>,
) -> (outcome: Result<Step<Transaction>, TradeError>)
    requires
        buy_fits(curve, amount_sol, slippage_basis_points),
    ensures
        outcome_view(outcome) == buy_transaction(
            global,
            curve,
            exists,
            *payer,
            *mint,
            amount_sol,
            slippage_basis_points,
            priority_fee,
        ),
{
    if amount_sol == 0 {
        return Err(TradeError::InvalidInput);
    }
    let global_account = match global {
        Some(account) => account,
        None => { return Ok(Step::Read(Need::GlobalAccount)); },
    };
    let bonding_curve_account = match curve {
        Some(account) => account,
        None => { return Ok(Step::Read(Need::BondingCurveAccount)); },
    };
    assert(bonding_curve_account.virtual_token_reserves > 0);
    let buy_amount = bonding_curve_account.get_buy_price(amount_sol);
    let slippage: u64 = match slippage_basis_points {
        Some(basis_points) => basis_points,
        None => 0,
    };
    let buy_amount_with_slippage = calculate_with_slippage_buy(amount_sol, slippage);

    let mut instructions: Vec<Instruction> = Vec::new();
    assert(instructions.deep_view() =~= Seq::<InstructionView>::empty());
    if let Some(fee) = priority_fee {
        push_fee_instructions(&mut instructions, fee);
    }
    assert(instructions.deep_view() =~= optional_fee_instructions(priority_fee));

    let account = match get_associated_token_address(payer, mint) {
        Some(account) => account,
        None => { return Err(TradeError::AccountNotFound); },
    };
    let exists = match exists {
        Some(exists) => exists,
        None => { return Ok(Step::Read(Need::AccountExists(account))); },
    };
    push_associated_account_instructions(&mut instructions, payer, mint, exists);
    let ghost before = instructions.deep_view();
    let buy = Instruction::Buy {
        payer: *payer,
        mint: *mint,
        fee_recipient: global_account.fee_recipient,
        amount: buy_amount,
        max_sol_cost: buy_amount_with_slippage,
    };
    instructions.push(buy);
    assert(instructions.deep_view() =~= before + seq![buy.deep_view()]);

    let mut signers: Vec<Address> = Vec::new();
    signers.push(*payer);
    assert(signers@ =~= seq![*payer]);
    Ok(Step::Ready(Transaction { instructions, payer: *payer, signers }))
}

/// The purchase of the first payer of `reads`, unsigned.
pub fn build_buy_transaction(
    reads: &ChainReads,
    payer: &Address,
    mint: &Address,
    amount_sol: u64,
    slippage_basis_points: Option<u64>,
    priority_fee: Option<PriorityFee>,
) -> (outcome: Result<Step<Transaction>, TradeError>)
    requires
        buy_fits(reads.bonding_curve_account, amount_sol, slippage_basis_points),
    ensures
        outcome_view(outcome) == buy_transaction(
            reads.global_account,
            reads.bonding_curve_account,
            reads.probed(0),
            *payer,
            *mint,
            amount_sol,
            slippage_basis_points,
            priority_fee,
        ),
{
    build_buy(
        reads.global_account,
        reads.bonding_curve_account,
        reads.associated_account(0),
        payer,
        mint,
        amount_sol,
        slippage_basis_points,
        priority_fee,
    )
}

/// A finished transaction on its way out by `route`; anything else as
/// it is.
pub open spec fn routed(outcome: Result<Step<TransactionView>, TradeError>, route: Route) -> Result<
    Step<SubmissionView>,
    TradeError,
> {
    match outcome {
        Ok(Step::Ready(transaction)) => Ok(Step::Ready(SubmissionView { transaction, route })),
        Ok(Step::Read(need)) => Ok(Step::Read(need)),
        Err(error) => Err(error),
    }
}

/// Puts a finished transaction on its way out by `route`.
pub(crate) fn route_transaction(outcome: Result<Step<Transaction>, TradeError>, route: Route) -> (routed: Result<
    Step<Submission>,
    TradeError,
>)
    ensures
        outcome_view(routed) == self::routed(outcome_view(outcome), route),
{
    match outcome {
        Ok(Step::Ready(transaction)) => Ok(Step::Ready(Submission { transaction, route })),
        Ok(Step::Read(need)) => Ok(Step::Read(need)),
        Err(error) => Err(error),
    }
}

/// Buys tokens of `mint` for `amount_sol` lamports: the purchase of
/// [`build_buy_transaction`], sent to the chain without waiting for its
/// confirmation.
pub fn buy(
    reads: &ChainReads,
    payer: &Address,
    mint: &Address,
    amount_sol: u64,
    slippage_basis_points: Option<u64>,
    priority_fee: Option<PriorityFee>,
) -> (outcome: Result<Step<Submission>, TradeError>)
    requires
        buy_fits(reads.bonding_curve_account, amount_sol, slippage_basis_points),
    ensures
        outcome_view(outcome) == routed(
            buy_transaction(
                reads.global_account,
                reads.bonding_curve_account,
                reads.probed(0),
                *payer,
                *mint,
                amount_sol,
                slippage_basis_points,
                priority_fee,
            ),
            Route::Send,
        ),
{
    let transaction = build_buy_transaction(
        reads,
        payer,
        mint,
        amount_sol,
        slippage_basis_points,
        priority_fee,
    );
    route_transaction(transaction, Route::Send)
}

/// The tip of a relayed trade: the caller's, or the default.
pub open spec fn tip_or_default(jito_fee: Option<u64>) -> u64 {
    match jito_fee {
        Some(lamports) => lamports,
        None => JITO_TIP_AMOUNT,
    }
}

/// Whether the numbers of a relayed purchase can be computed: where
/// there is something to buy and something to spend, the cost bound
/// fits in 64 bits.
pub open spec fn relayed_buy_fits(
    buy_token_amount: u64,
    max_sol_cost: u64,
    slippage_basis_points: Option<u64>,
) -> bool {
    buy_token_amount > 0 && max_sol_cost > 0 ==> with_slippage_buy(
        max_sol_cost as int,
        slippage_or_none(slippage_basis_points) as int,
    ) <= u64::MAX
}

/// The relayed purchase of exactly `buy_token_amount` tokens of `mint`
/// for at most `max_sol_cost` lamports raised by the slippage, or what
/// stands in its way. Nothing is priced on the curve and no fee step is
/// set; the last step pays the tip to the relay's account.
pub open spec fn relayed_buy(
    global: Option<GlobalAccount>,
    tip_account: Option<Address>,
    exists: Option<bool>,
    payer: Address,
    mint: Address,
    buy_token_amount: u64,
    max_sol_cost: u64,
    slippage_basis_points: Option<u64>,
    jito_fee: Option<u64>,
) -> Result<Step<SubmissionView>, TradeError> {
    if buy_token_amount == 0 || max_sol_cost == 0 {
        Err(TradeError::InvalidInput)
    } else if global is None {
        Ok(Step::Read(Need::GlobalAccount))
    } else if tip_account is None {
        Ok(Step::Read(Need::TipAccount))
    } else {
        match (associated_token_address(payer, mint), exists) {
            (None, _) => Err(TradeError::AccountNotFound),
            (Some(account), None) => Ok(Step::Read(Need::AccountExists(account))),
            (Some(_), Some(exists)) => Ok(
                Step::Ready(
                    SubmissionView {
                        transaction: TransactionView {
                            instructions: associated_account_instructions(payer, mint, exists) + seq![
                                InstructionView::Buy {
                                    payer,
                                    mint,
                                    fee_recipient: global->Some_0.fee_recipient,
                                    amount: buy_token_amount,
                                    max_sol_cost: with_slippage_buy(
                                        max_sol_cost as int,
                                        slippage_or_none(slippage_basis_points) as int,
                                    ) as u64,
                                },
                                InstructionView::Transfer {
                                    from: payer,
                                    to: tip_account->Some_0,
                                    lamports: tip_or_default(jito_fee),
                                },
                            ],
                            payer,
                            signers: seq![payer],
                        },
                        route: Route::Bundle,
                    },
                ),
            ),
        }
    }
}

/// Buys `buy_token_amount` tokens of `mint` through the relay, as a
/// bundle of one transaction that tips the relay `jito_fee` lamports.
pub fn buy_with_jito(
    reads: &ChainReads,
    payer: &Address,
    mint: &Address,
    buy_token_amount: u64,
    max_sol_cost: u64,
    slippage_basis_points: Option<u64>,
    jito_fee: Option<u64>,
) -> (outcome: Result<Step<Submission>, TradeError>)
    requires
        relayed_buy_fits(buy_token_amount, max_sol_cost, slippage_basis_points),
    ensures
        outcome_view(outcome) == relayed_buy(
            reads.global_account,
            reads.tip_account,
            reads.probed(0),
            *payer,
            *mint,
            buy_token_amount,
            max_sol_cost,
            slippage_basis_points,
            jito_fee,
        ),
{
    if buy_token_amount == 0 || max_sol_cost == 0 {
        return Err(TradeError::InvalidInput);
    }
    let global_account = match reads.global_account {
        Some(account) => account,
        None => { return Ok(Step::Read(Need::GlobalAccount)); },
    };
    let slippage: u64 = match slippage_basis_points {
        Some(basis_points) => basis_points,
        None => 0,
    };
    let buy_amount_with_slippage = calculate_with_slippage_buy(max_sol_cost, slippage);

    let mut instructions: Vec<Instruction> = Vec::new();
    assert(instructions.deep_view() =~= Seq::<InstructionView>::empty());
    let tip_account = match reads.tip_account {
        Some(account) => account,
        None => { return Ok(Step::Read(Need::TipAccount)); },
    };
    let account = match get_associated_token_address(payer, mint) {
        Some(account) => account,
        None => { return Err(TradeError::AccountNotFound); },
    };
    let exists = match reads.associated_account(0) {
        Some(exists) => exists,
        None => { return Ok(Step::Read(Need::AccountExists(account))); },
    };
    push_associated_account_instructions(&mut instructions, payer, mint, exists);
    let ghost before = instructions.deep_view();
    let buy = Instruction::Buy {
        payer: *payer,
        mint: *mint,
        fee_recipient: global_account.fee_recipient,
        amount: buy_token_amount,
        max_sol_cost: buy_amount_with_slippage,
    };
    instructions.push(buy);
    let lamports: u64 = match jito_fee {
        Some(lamports) => lamports,
        None => JITO_TIP_AMOUNT,
    };
    let tip = Instruction::Transfer { from: *payer, to: tip_account, lamports };
    instructions.push(tip);
    assert(instructions.deep_view() =~= before + seq![buy.deep_view(), tip.deep_view()]);

    let mut signers: Vec<Address> = Vec::new();
    signers.push(*payer);
    assert(signers@ =~= seq![*payer]);
    Ok(
        Step::Ready(
            Submission {
                transaction: Transaction { instructions, payer: *payer, signers },
                route: Route::Bundle,
            },
        ),
    )
}

/// A purchase of nothing is refused before anything is read, whatever
/// has been read already.
pub proof fn lemma_empty_buy_is_refused_first(
    global: Option<GlobalAccount>,
    curve: Option<BondingCurveAccount>,
    exists: Option<bool>,
    payer: Address,
    mint: Address,
    slippage_basis_points: Option<u64>,
    priority_fee: Option<PriorityFee>,
)
    ensures
        buy_transaction(global, curve, exists, payer, mint, 0, slippage_basis_points, priority_fee)
            == Err::<Step<TransactionView>, TradeError>(TradeError::InvalidInput),
{
}

/// A purchase asks only for what has not been read: each answer brings
/// it one step on, and after three answers at most it is built or has
/// failed. It never asks for a tip account or a balance.
pub proof fn lemma_buy_asks_for_what_is_missing(
    global: Option<GlobalAccount>,
    curve: Option<BondingCurveAccount>,
    exists: Option<bool>,
    payer: Address,
    mint: Address,
    amount_sol: u64,
    slippage_basis_points: Option<u64>,
    priority_fee: Option<PriorityFee>,
)
    ensures
        match buy_transaction(
            global,
            curve,
            exists,
            payer,
            mint,
            amount_sol,
            slippage_basis_points,
            priority_fee,
        ) {
            Ok(Step::Read(Need::GlobalAccount)) => global is None,
            Ok(Step::Read(Need::BondingCurveAccount)) => global is Some && curve is None,
            Ok(Step::Read(Need::AccountExists(account))) => {
                &&& global is Some
                &&& curve is Some
                &&& exists is None
                &&& associated_token_address(payer, mint) == Some(account)
            },
            Ok(Step::Read(_)) => false,
            Ok(Step::Ready(_)) => global is Some && curve is Some && exists is Some,
            Err(_) => true,
        },
{
}

/// In a purchase every fee step stands before every other step, the
/// payer is the one signer, and the purchase is the last step: it buys
/// no more than the curve really holds, for no less than the amount
/// offered.
pub proof fn lemma_buy_transaction_shape(
    global: Option<GlobalAccount>,
    curve: Option<BondingCurveAccount>,
    exists: Option<bool>,
    payer: Address,
    mint: Address,
    amount_sol: u64,
    slippage_basis_points: Option<u64>,
    priority_fee: Option<PriorityFee>,
)
    requires
        buy_fits(curve, amount_sol, slippage_basis_points),
        buy_transaction(
            global,
            curve,
            exists,
            payer,
            mint,
            amount_sol,
            slippage_basis_points,
            priority_fee,
        ) matches Ok(Step::Ready(_)),
    ensures
        ({
            let transaction = buy_transaction(
                global,
                curve,
                exists,
                payer,
                mint,
                amount_sol,
                slippage_basis_points,
                priority_fee,
            )->Ok_0->Ready_0;
            &&& compute_budget_first(transaction.instructions)
            &&& transaction.signers == seq![payer]
            &&& transaction.instructions.len() > 0
            &&& transaction.instructions.last() matches InstructionView::Buy {
                mint: bought,
                amount,
                max_sol_cost,
                ..
            }
            &&& bought == mint
            &&& amount <= curve->Some_0.real_token_reserves
            &&& max_sol_cost >= amount_sol
        }),
{
    let curve_account = curve->Some_0;
    lemma_buy_price_bounds(
        amount_sol as int,
        curve_account.virtual_sol_reserves as int,
        curve_account.virtual_token_reserves as int,
        curve_account.real_token_reserves as int,
    );
    crate::trade::common::lemma_slippage_bounds(
        amount_sol as int,
        slippage_or_none(slippage_basis_points) as int,
    );
}

/// A relayed purchase without tokens to buy or lamports to spend is
/// refused before anything is read, whatever has been read already.
pub proof fn lemma_empty_relayed_buy_is_refused_first(
    global: Option<GlobalAccount>,
    tip_account: Option<Address>,
    exists: Option<bool>,
    payer: Address,
    mint: Address,
    buy_token_amount: u64,
    max_sol_cost: u64,
    slippage_basis_points: Option<u64>,
    jito_fee: Option<u64>,
)
    requires
        buy_token_amount == 0 || max_sol_cost == 0,
    ensures
        relayed_buy(
            global,
            tip_account,
            exists,
            payer,
            mint,
            buy_token_amount,
            max_sol_cost,
            slippage_basis_points,
            jito_fee,
        ) == Err::<Step<SubmissionView>, TradeError>(TradeError::InvalidInput),
{
}

/// A relayed purchase asks only for what has not been read, and never
/// for the bonding curve or a balance.
pub proof fn lemma_relayed_buy_asks_for_what_is_missing(
    global: Option<GlobalAccount>,
    tip_account: Option<Address>,
    exists: Option<bool>,
    payer: Address,
    mint: Address,
    buy_token_amount: u64,
    max_sol_cost: u64,
    slippage_basis_points: Option<u64>,
    jito_fee: Option<u64>,
)
    ensures
        match relayed_buy(
            global,
            tip_account,
            exists,
            payer,
            mint,
            buy_token_amount,
            max_sol_cost,
            slippage_basis_points,
            jito_fee,
        ) {
            Ok(Step::Read(Need::GlobalAccount)) => global is None,
            Ok(Step::Read(Need::TipAccount)) => global is Some && tip_account is None,
            Ok(Step::Read(Need::AccountExists(account))) => {
                &&& global is Some
                &&& tip_account is Some
                &&& exists is None
                &&& associated_token_address(payer, mint) == Some(account)
            },
            Ok(Step::Read(_)) => false,
            Ok(Step::Ready(_)) => global is Some && tip_account is Some && exists is Some,
            Err(_) => true,
        },
{
}

/// A relayed purchase sets no fee, and its last two steps are the
/// purchase and then the tip: the payer pays the relay's account the
/// tip asked for, or the default one.
pub proof fn lemma_relayed_buy_shape(
    global: Option<GlobalAccount>,
    tip_account: Option<Address>,
    exists: Option<bool>,
    payer: Address,
    mint: Address,
    buy_token_amount: u64,
    max_sol_cost: u64,
    slippage_basis_points: Option<u64>,
    jito_fee: Option<u64>,
)
    requires
        relayed_buy(
            global,
            tip_account,
            exists,
            payer,
            mint,
            buy_token_amount,
            max_sol_cost,
            slippage_basis_points,
            jito_fee,
        ) matches Ok(Step::Ready(_)),
    ensures
        ({
            let submission = relayed_buy(
                global,
                tip_account,
                exists,
                payer,
                mint,
                buy_token_amount,
                max_sol_cost,
                slippage_basis_points,
                jito_fee,
            )->Ok_0->Ready_0;
            let steps = submission.transaction.instructions;
            &&& submission.route == Route::Bundle
            &&& forall|i: int| 0 <= i < steps.len() ==> !(#[trigger] steps[i]).is_compute_budget()
            &&& steps.len() >= 2
            &&& steps[steps.len() - 2].buys(mint)
            &&& steps.last() == InstructionView::Transfer {
                from: payer,
                to: tip_account->Some_0,
                lamports: tip_or_default(jito_fee),
            }
        }),
{
}

} // verus!

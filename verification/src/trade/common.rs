//! What every trade shares: bonding-curve pricing and slippage bounds,
//! the addresses that the launch program derives, the fee steps that
//! open a transaction, and the reads that a trade waits for.

use crate::accounts::bonding_curve_of;
use crate::accounts::global_of;
use crate::accounts::is_bonding_curve_data;
use crate::accounts::is_global_data;
use crate::accounts::BondingCurveAccount;
use crate::accounts::GlobalAccount;
use crate::address::address_of;
use crate::address::derived;
use crate::address::lemma_address_of;
use crate::address::Address;
use crate::amount::decimal_value;
use crate::amount::parse_amount;
use crate::cache::cached;
use crate::cache::AccountCache;
use crate::constants::associated_token_program;
use crate::constants::associated_token_program_id;
use crate::constants::bonding_curve_seed;
use crate::constants::bonding_curve_seed_bytes;
use crate::constants::global_seed;
use crate::constants::global_seed_bytes;
use crate::constants::metadata_seed;
use crate::constants::metadata_seed_bytes;
use crate::constants::mint_authority_seed;
use crate::constants::mint_authority_seed_bytes;
use crate::constants::mpl_token_metadata;
use crate::constants::mpl_token_metadata_id;
use crate::constants::pumpfun;
use crate::constants::pumpfun_id;
use crate::constants::token_program;
use crate::constants::token_program_id;
use crate::constants::DEFAULT_COMPUTE_UNIT_LIMIT;
use crate::constants::DEFAULT_COMPUTE_UNIT_PRICE;
use crate::constants::DEFAULT_SLIPPAGE;
use crate::error::TradeError;
use crate::instruction::Instruction;
use crate::instruction::InstructionView;
use crate::instruction::Route;
use crate::instruction::Submission;
use crate::instruction::SubmissionView;
use crate::instruction::Transaction;
use crate::instruction::TransactionView;
use vstd::arithmetic::div_mod::lemma_div_is_ordered_by_denominator;
use vstd::prelude::*;

verus! {

/// The reserves of a bonding curve that pricing reads.
#[derive(Debug, Clone, Copy, PartialEq, Eq)]
pub struct TradeInfo {
    pub virtual_sol_reserves: u64,
    pub virtual_token_reserves: u64,
    pub real_token_reserves: u64,
}

/// Tokens that the constant-product curve gives for `amount` lamports,
/// before the clamp to the real reserve. Negative only when the curve
/// holds no virtual tokens.
pub open spec fn curve_tokens_out(amount: int, virtual_sol: int, virtual_token: int) -> int {
    virtual_token - ((virtual_sol * virtual_token) / (virtual_sol + amount) + 1)
}

/// Tokens bought for `amount` lamports: the curve's output, at most the
/// real token reserve; nothing for an empty purchase.
pub open spec fn buy_price(amount: int, virtual_sol: int, virtual_token: int, real_token: int) -> int {
    if amount == 0 {
        0
    } else {
        let out = curve_tokens_out(amount, virtual_sol, virtual_token);
        if out < real_token { out } else { real_token }
    }
}

/// `amount` plus its share of `basis_points` ten-thousandths, rounded down.
pub open spec fn with_slippage_buy(amount: int, basis_points: int) -> int {
    amount + (amount * basis_points) / 10000
}

/// `amount` less its share of `basis_points` ten-thousandths, rounded down.
pub open spec fn with_slippage_sell(amount: int, basis_points: int) -> int {
    amount - (amount * basis_points) / 10000
}

/// With virtual tokens on the curve a purchase of at least one lamport
/// yields a token count: the quotient stays strictly below the reserve.
pub proof fn lemma_curve_tokens_out_bounds(amount: int, virtual_sol: int, virtual_token: int)
    requires
        amount > 0,
        virtual_sol >= 0,
        virtual_token > 0,
    ensures
        0 <= curve_tokens_out(amount, virtual_sol, virtual_token) < virtual_token,
        0 <= (virtual_sol * virtual_token) / (virtual_sol + amount) < virtual_token,
{
    let n = virtual_sol * virtual_token;
    let d = virtual_sol + amount;
    assert(0 <= n < virtual_token * d) by (nonlinear_arith)
        requires
            n == virtual_sol * virtual_token,
            d == virtual_sol + amount,
            amount > 0,
            virtual_sol >= 0,
            virtual_token > 0,
    ;
    assert(0 <= n / d < virtual_token) by (nonlinear_arith)
        requires
            0 <= n < virtual_token * d,
            d > 0,
    ;
}

/// The constant-product price on given reserves, the product taken in
/// double width.
pub fn curve_buy_price(amount: u64, virtual_sol: u64, virtual_token: u64, real_token: u64) -> (tokens: u64)
    requires
        amount > 0 ==> virtual_token > 0,
    ensures
        tokens == buy_price(amount as int, virtual_sol as int, virtual_token as int, real_token as int),
        tokens <= real_token,
{
    if amount == 0 {
        return 0;
    }
    proof {
        lemma_curve_tokens_out_bounds(amount as int, virtual_sol as int, virtual_token as int);
        assert(virtual_sol * virtual_token <= 0xffff_ffff_ffff_ffff * 0xffff_ffff_ffff_ffff)
            by (nonlinear_arith)
            requires
                virtual_sol <= 0xffff_ffff_ffff_ffff,
                virtual_token <= 0xffff_ffff_ffff_ffff,
        ;
    }
    let n: u128 = (virtual_sol as u128) * (virtual_token as u128);
    let i: u128 = (virtual_sol as u128) + (amount as u128);
    let r: u128 = n / i + 1;
    let s: u128 = (virtual_token as u128) - r;
    let s_u64: u64 = s as u64;
    if s_u64 < real_token {
        s_u64
    } else {
        real_token
    }
}

/// Tokens that `amount` lamports buy on the curve that `trade_info`
/// describes: the constant-product output, at most the real token
/// reserve; nothing for an empty purchase.
pub fn get_buy_price(amount: u64, trade_info: &TradeInfo) -> (tokens: u64)
    requires
        amount > 0 ==> trade_info.virtual_token_reserves > 0,
    ensures
        tokens == buy_price(
            amount as int,
            trade_info.virtual_sol_reserves as int,
            trade_info.virtual_token_reserves as int,
            trade_info.real_token_reserves as int,
        ),
        tokens <= trade_info.real_token_reserves,
{
    curve_buy_price(
        amount,
        trade_info.virtual_sol_reserves,
        trade_info.virtual_token_reserves,
        trade_info.real_token_reserves,
    )
}

/// Upper bound on the cost of a purchase for `amount_sol` lamports: the
/// amount raised by the caller's slippage, or by the default one.
pub fn get_buy_amount_with_slippage(amount_sol: u64, slippage_basis_points: Option<u64>) -> (bound: u64)
    requires
        with_slippage_buy(amount_sol as int, slippage_or_default(slippage_basis_points) as int)
            <= u64::MAX,
    ensures
        bound == with_slippage_buy(
            amount_sol as int,
            slippage_or_default(slippage_basis_points) as int,
        ),
        bound >= amount_sol,
{
    let slippage: u64 = match slippage_basis_points {
        Some(basis_points) => basis_points,
        None => DEFAULT_SLIPPAGE,
    };
    calculate_with_slippage_buy(amount_sol, slippage)
}

/// The slippage that a trade applies: the caller's, or the default.
pub open spec fn slippage_or_default(slippage_basis_points: Option<u64>) -> u64 {
    match slippage_basis_points {
        Some(basis_points) => basis_points,
        None => DEFAULT_SLIPPAGE,
    }
}

/// Upper bound on cost: `amount` raised by `basis_points` ten-thousandths.
/// The product is taken in double width, so the only limit is that the
/// bound itself fits.
pub fn calculate_with_slippage_buy(amount: u64, basis_points: u64) -> (bound: u64)
    requires
        with_slippage_buy(amount as int, basis_points as int) <= u64::MAX,
    ensures
        bound == with_slippage_buy(amount as int, basis_points as int),
        bound >= amount,
{
    proof {
        lemma_product_fits(amount, basis_points);
    }
    let product: u128 = (amount as u128) * (basis_points as u128);
    let share: u128 = product / 10000;
    let bound: u128 = (amount as u128) + share;
    bound as u64
}

/// Lower bound on proceeds: `amount` reduced by `basis_points`
/// ten-thousandths. The reduction may not exceed the amount.
pub fn calculate_with_slippage_sell(amount: u64, basis_points: u64) -> (bound: u64)
    requires
        with_slippage_sell(amount as int, basis_points as int) >= 0,
    ensures
        bound == with_slippage_sell(amount as int, basis_points as int),
        bound <= amount,
{
    proof {
        lemma_product_fits(amount, basis_points);
    }
    let product: u128 = (amount as u128) * (basis_points as u128);
    let share: u128 = product / 10000;
    let bound: u128 = (amount as u128) - share;
    bound as u64
}

/// The product of an amount and a slippage fits in double width.
proof fn lemma_product_fits(amount: u64, basis_points: u64)
    ensures
        0 <= amount * basis_points <= 0xffff_ffff_ffff_ffff * 0xffff_ffff_ffff_ffff,
        0 <= (amount * basis_points) / 10000,
{
    assert(0 <= amount * basis_points <= 0xffff_ffff_ffff_ffff * 0xffff_ffff_ffff_ffff)
        by (nonlinear_arith)
        requires
            0 <= amount <= 0xffff_ffff_ffff_ffff,
            0 <= basis_points <= 0xffff_ffff_ffff_ffff,
    ;
}

/// A purchase of nothing buys nothing, whatever the curve holds.
pub proof fn lemma_buy_price_of_zero(virtual_sol: int, virtual_token: int, real_token: int)
    ensures
        buy_price(0, virtual_sol, virtual_token, real_token) == 0,
{
}

/// On a curve with virtual tokens the price never exceeds the real token
/// reserve and never goes below zero.
pub proof fn lemma_buy_price_bounds(amount: int, virtual_sol: int, virtual_token: int, real_token: int)
    requires
        amount >= 0,
        virtual_sol >= 0,
        virtual_token > 0,
        real_token >= 0,
    ensures
        0 <= buy_price(amount, virtual_sol, virtual_token, real_token) <= real_token,
{
    if amount > 0 {
        lemma_curve_tokens_out_bounds(amount, virtual_sol, virtual_token);
    }
}

/// On a curve with virtual tokens a larger purchase never buys fewer
/// tokens.
pub proof fn lemma_buy_price_monotonic(
    smaller: int,
    larger: int,
    virtual_sol: int,
    virtual_token: int,
    real_token: int,
)
    requires
        0 <= smaller <= larger,
        virtual_sol >= 0,
        virtual_token > 0,
        real_token >= 0,
    ensures
        buy_price(smaller, virtual_sol, virtual_token, real_token) <= buy_price(
            larger,
            virtual_sol,
            virtual_token,
            real_token,
        ),
{
    lemma_buy_price_bounds(larger, virtual_sol, virtual_token, real_token);
    if smaller > 0 {
        let n = virtual_sol * virtual_token;
        assert(0 <= n) by (nonlinear_arith)
            requires
                n == virtual_sol * virtual_token,
                virtual_sol >= 0,
                virtual_token > 0,
        ;
        lemma_div_is_ordered_by_denominator(n, virtual_sol + smaller, virtual_sol + larger);
    }
}

/// The buy bound is never below the amount and the sell bound never
/// above it, for every slippage.
pub proof fn lemma_slippage_bounds(amount: int, basis_points: int)
    requires
        amount >= 0,
        basis_points >= 0,
    ensures
        with_slippage_buy(amount, basis_points) >= amount,
        with_slippage_sell(amount, basis_points) <= amount,
{
    assert(0 <= amount * basis_points) by (nonlinear_arith)
        requires
            amount >= 0,
            basis_points >= 0,
    ;
    assert(0 <= (amount * basis_points) / 10000) by (nonlinear_arith)
        requires
            0 <= amount * basis_points,
    ;
}

/// What a transaction offers for its execution: a cap on compute units
/// and a price per unit. Either may be left out.
#[derive(Debug, Clone, Copy, PartialEq, Eq)]
pub struct PriorityFee {
    pub limit: Option<u32>,
    pub price: Option<u64>,
}

impl Default for PriorityFee {
    fn default() -> (fee: PriorityFee)
        ensures
            fee == default_priority_fee(),
    {
        PriorityFee { limit: Some(DEFAULT_COMPUTE_UNIT_LIMIT), price: Some(DEFAULT_COMPUTE_UNIT_PRICE) }
    }
}

/// The fee of a transaction whose caller names none.
pub open spec fn default_priority_fee() -> PriorityFee {
    PriorityFee { limit: Some(DEFAULT_COMPUTE_UNIT_LIMIT), price: Some(DEFAULT_COMPUTE_UNIT_PRICE) }
}

/// The steps that set a fee: the limit, if there is one, then the price,
/// if there is one.
pub open spec fn fee_instructions(fee: PriorityFee) -> Seq<InstructionView> {
    let limit = match fee.limit {
        Some(units) => seq![InstructionView::SetComputeUnitLimit { units }],
        None => Seq::<InstructionView>::empty(),
    };
    let price = match fee.price {
        Some(micro_lamports) => seq![InstructionView::SetComputeUnitPrice { micro_lamports }],
        None => Seq::<InstructionView>::empty(),
    };
    limit + price
}

/// The steps that set the fee a caller asked for; none where the caller
/// asked for no fee.
pub open spec fn optional_fee_instructions(priority_fee: Option<PriorityFee>) -> Seq<InstructionView> {
    match priority_fee {
        Some(fee) => fee_instructions(fee),
        None => Seq::<InstructionView>::empty(),
    }
}

/// The steps that set the fee a caller asked for, or the default fee
/// where the caller asked for none.
pub open spec fn fee_or_default_instructions(priority_fee: Option<PriorityFee>) -> Seq<InstructionView> {
    match priority_fee {
        Some(fee) => fee_instructions(fee),
        None => fee_instructions(default_priority_fee()),
    }
}

/// Appends the steps of `fee` to `instructions`.
pub(crate) fn push_fee_instructions(instructions: &mut Vec<Instruction>, fee: PriorityFee)
    ensures
        final(instructions).deep_view() == old(instructions).deep_view() + fee_instructions(fee),
{
    if let Some(units) = fee.limit {
        instructions.push(Instruction::SetComputeUnitLimit { units });
    }
    if let Some(micro_lamports) = fee.price {
        instructions.push(Instruction::SetComputeUnitPrice { micro_lamports });
    }
    assert(instructions.deep_view() =~= old(instructions).deep_view() + fee_instructions(fee));
}

/// The opening steps of a transaction: the fee asked for, or the default
/// fee.
pub fn create_priority_fee_instructions(priority_fee: Option<PriorityFee>) -> (instructions: Vec<Instruction>)
    ensures
        instructions.deep_view() == fee_or_default_instructions(priority_fee),
        instructions@.len() <= 2,
{
    let mut instructions: Vec<Instruction> = Vec::with_capacity(2);
    let fee: PriorityFee = match priority_fee {
        Some(fee) => fee,
        None => PriorityFee::default(),
    };
    assert(instructions.deep_view() =~= Seq::<InstructionView>::empty());
    push_fee_instructions(&mut instructions, fee);
    assert(instructions.deep_view() =~= fee_instructions(fee));
    assert(instructions.deep_view().len() == instructions@.len());
    instructions
}

/// The address of the protocol-wide account.
pub open spec fn global_pda() -> Option<Address> {
    derived(seq![global_seed_bytes()], pumpfun_id())
}

/// The address of the authority that mints every launched token.
pub open spec fn mint_authority_pda() -> Option<Address> {
    derived(seq![mint_authority_seed_bytes()], pumpfun_id())
}

/// The address of the bonding curve of `mint`.
pub open spec fn bonding_curve_pda(mint: Address) -> Option<Address> {
    derived(seq![bonding_curve_seed_bytes(), mint@], pumpfun_id())
}

/// The address of the metadata of `mint`.
pub open spec fn metadata_pda(mint: Address) -> Option<Address> {
    derived(seq![metadata_seed_bytes(), mpl_token_metadata_id(), mint@], mpl_token_metadata_id())
}

/// The address of the account in which `wallet` holds tokens of `mint`.
pub open spec fn associated_token_address(wallet: Address, mint: Address) -> Option<Address> {
    derived(seq![wallet@, token_program_id(), mint@], associated_token_program_id())
}

/// The address of the protocol-wide account, if one can be derived.
pub fn get_global_pda() -> (address: Option<Address>)
    ensures
        address == global_pda(),
{
    let mut seeds: Vec<Vec<u8>> = Vec::new();
    seeds.push(global_seed());
    assert(seeds.deep_view() =~~= seq![global_seed_bytes()]);
    Address::derive(&seeds, &pumpfun())
}

/// The address of the authority that mints every launched token, if
/// one can be derived.
pub fn get_mint_authority_pda() -> (address: Option<Address>)
    ensures
        address == mint_authority_pda(),
{
    let mut seeds: Vec<Vec<u8>> = Vec::new();
    seeds.push(mint_authority_seed());
    assert(seeds.deep_view() =~~= seq![mint_authority_seed_bytes()]);
    Address::derive(&seeds, &pumpfun())
}

/// The address of the bonding curve of `mint`, if one can be derived.
pub fn get_bonding_curve_pda(mint: &Address) -> (address: Option<Address>)
    ensures
        address == bonding_curve_pda(*mint),
{
    let mut seeds: Vec<Vec<u8>> = Vec::new();
    seeds.push(bonding_curve_seed());
    seeds.push(mint.to_vec());
    assert(seeds.deep_view() =~~= seq![bonding_curve_seed_bytes(), mint@]);
    Address::derive(&seeds, &pumpfun())
}

/// The address of the metadata of `mint`, if one can be derived.
pub fn get_metadata_pda(mint: &Address) -> (address: Option<Address>)
    ensures
        address == metadata_pda(*mint),
{
    let program = mpl_token_metadata();
    let mut seeds: Vec<Vec<u8>> = Vec::new();
    seeds.push(metadata_seed());
    seeds.push(program.to_vec());
    seeds.push(mint.to_vec());
    assert(seeds.deep_view() =~~= seq![metadata_seed_bytes(), mpl_token_metadata_id(), mint@]);
    Address::derive(&seeds, &program)
}

/// The address of the account in which `wallet` holds tokens of `mint`:
/// the address that the associated-token program owns under the wallet,
/// the token program and the mint.
pub fn get_associated_token_address(wallet: &Address, mint: &Address) -> (address: Option<Address>)
    ensures
        address == associated_token_address(*wallet, *mint),
{
    let mut seeds: Vec<Vec<u8>> = Vec::new();
    seeds.push(wallet.to_vec());
    seeds.push(token_program().to_vec());
    seeds.push(mint.to_vec());
    assert(seeds.deep_view() =~~= seq![wallet@, token_program_id(), mint@]);
    Address::derive(&seeds, &associated_token_program())
}

/// Something that has to be read from the chain or the relay before a
/// trade can go on.
#[derive(Debug, Clone, Copy, PartialEq, Eq)]
pub enum Need {
    /// The protocol-wide account: see [`get_global_account`].
    GlobalAccount,
    /// The bonding curve of the token traded: see
    /// [`get_bonding_curve_account`].
    BondingCurveAccount,
    /// Whether an account exists at this address.
    AccountExists(Address),
    /// A tip account of the relay.
    TipAccount,
    /// The lamports held at this address.
    Balance(Address),
    /// The token amount held at this address.
    TokenBalance(Address),
}

/// Where an operation stands: it either names the next thing to read, to
/// be called again once that is known, or it is done.
#[derive(Debug, Clone, PartialEq, Eq)]
pub enum Step<T> {
    /// This has to be read first; then the operation is called again.
    Read(Need),
    /// The operation is done.
    Ready(T),
}

/// An outcome with the finished value, if there is one, as a
/// mathematical value.
pub open spec fn outcome_view<T: DeepView>(outcome: Result<Step<T>, TradeError>) -> Result<
    Step<T::V>,
    TradeError,
> {
    match outcome {
        Ok(Step::Ready(value)) => Ok(Step::Ready(value.deep_view())),
        Ok(Step::Read(need)) => Ok(Step::Read(need)),
        Err(error) => Err(error),
    }
}

/// What has been read on behalf of one trade so far. A trade starts with
/// nothing read and is called again with one more answer each time it
/// names a [`Need`].
#[derive(Debug, Clone, PartialEq, Eq)]
pub struct ChainReads {
    /// The protocol-wide account.
    pub global_account: Option<GlobalAccount>,
    /// The bonding curve of the token traded.
    pub bonding_curve_account: Option<BondingCurveAccount>,
    /// Whether the associated token account of each payer exists, in
    /// the order of the payers, as far as this has been asked.
    pub associated_accounts: Vec<bool>,
    /// The tip account that the relay's client selected.
    pub tip_account: Option<Address>,
}

impl ChainReads {
    /// Nothing read yet.
    pub fn new() -> (reads: ChainReads)
        ensures
            reads.global_account is None,
            reads.bonding_curve_account is None,
            reads.associated_accounts@.len() == 0,
            reads.tip_account is None,
    {
        ChainReads {
            global_account: None,
            bonding_curve_account: None,
            associated_accounts: Vec::new(),
            tip_account: None,
        }
    }

    /// Whether the associated account of the payer at `index` exists, if
    /// that has been asked.
    pub open spec fn probed(&self, index: int) -> Option<bool> {
        if 0 <= index < self.associated_accounts@.len() {
            Some(self.associated_accounts@[index])
        } else {
            None
        }
    }

    /// Whether the associated account of the payer at `index` exists, if
    /// that has been asked.
    pub fn associated_account(&self, index: usize) -> (exists: Option<bool>)
        ensures
            exists == self.probed(index as int),
    {
        if index < self.associated_accounts.len() {
            Some(self.associated_accounts[index])
        } else {
            None
        }
    }
}

/// The step that creates the account in which `payer` holds tokens of
/// `mint`, paid by `payer`; nothing where that account exists.
pub open spec fn associated_account_instructions(payer: Address, mint: Address, exists: bool) -> Seq<
    InstructionView,
> {
    if exists {
        Seq::<InstructionView>::empty()
    } else {
        seq![
            InstructionView::CreateAssociatedTokenAccount {
                funder: payer,
                wallet: payer,
                mint,
                token_program: address_of(token_program_id()),
            },
        ]
    }
}

/// Appends the step that creates the associated token account of `payer`
/// for `mint`, unless the account exists.
pub(crate) fn push_associated_account_instructions(
    instructions: &mut Vec<Instruction>,
    payer: &Address,
    mint: &Address,
    exists: bool,
)
    ensures
        final(instructions).deep_view() == old(instructions).deep_view()
            + associated_account_instructions(*payer, *mint, exists),
{
    if !exists {
        let program = token_program();
        proof {
            lemma_address_of(program@, program);
        }
        instructions.push(
            Instruction::CreateAssociatedTokenAccount {
                funder: *payer,
                wallet: *payer,
                mint: *mint,
                token_program: program,
            },
        );
    }
    assert(instructions.deep_view() =~= old(instructions).deep_view()
        + associated_account_instructions(*payer, *mint, exists));
}

/// What came of reading an account's data from the chain.
#[derive(Debug, Clone, PartialEq, Eq)]
pub enum AccountRead {
    /// Nothing has been read yet.
    Pending,
    /// The chain holds no account at the address.
    NotFound,
    /// The chain could not be reached.
    Failed,
    /// The data of the account.
    Data(Vec<u8>),
}

/// The answer of a cache to a lookup.
#[derive(Debug, Clone, Copy, PartialEq, Eq)]
pub enum Lookup<T> {
    /// The cache holds nothing for this address: its data has to be
    /// read from the chain, once, and handed in.
    Fetch(Address),
    /// The snapshot, from the cache or from the data just handed in.
    Found(T),
}

/// The snapshot of the protocol-wide account that a read brought, if it
/// brought data of the right form.
pub open spec fn decoded_global(read: AccountRead) -> Option<GlobalAccount> {
    match read {
        AccountRead::Data(data) if is_global_data(data@) => Some(global_of(data@)),
        _ => None,
    }
}

/// The snapshot of a bonding curve that a read brought, if it brought
/// data of the right form.
pub open spec fn decoded_bonding_curve(read: AccountRead) -> Option<BondingCurveAccount> {
    match read {
        AccountRead::Data(data) if is_bonding_curve_data(data@) => Some(bonding_curve_of(data@)),
        _ => None,
    }
}

/// What a lookup of `address` answers, given what the cache holds, what
/// has been read from the chain, and the snapshot that the read spells.
/// A snapshot in the cache is the answer whatever was read; only where
/// there is none does the read count.
pub open spec fn looked_up<T>(
    cache: Map<Address, T>,
    address: Option<Address>,
    read: AccountRead,
    decoded: Option<T>,
) -> Result<Lookup<T>, TradeError> {
    match address {
        None => Err(TradeError::AccountNotFound),
        Some(address) => match cached(cache, address) {
            Some(snapshot) => Ok(Lookup::Found(snapshot)),
            None => match read {
                AccountRead::Pending => Ok(Lookup::Fetch(address)),
                AccountRead::NotFound => Err(TradeError::AccountNotFound),
                AccountRead::Failed => Err(TradeError::TransportFailure),
                AccountRead::Data(_) => match decoded {
                    Some(snapshot) => Ok(Lookup::Found(snapshot)),
                    None => Err(TradeError::DeserializationFailed),
                },
            },
        },
    }
}

/// What the cache holds after a lookup: one more snapshot where the
/// lookup missed and the read brought one, else what it held before.
pub open spec fn cache_after<T>(
    cache: Map<Address, T>,
    address: Option<Address>,
    read: AccountRead,
    decoded: Option<T>,
) -> Map<Address, T> {
    match (address, decoded) {
        (Some(address), Some(snapshot)) if cached(cache, address) is None && read is Data => cache.insert(
            address,
            snapshot,
        ),
        _ => cache,
    }
}

/// The protocol-wide account, through the cache. A hit answers from the
/// cache and ignores `read`. A miss asks for the account's data while
/// `read` is pending; once the data is handed in it is decoded, stored
/// and returned.
pub fn get_global_account(cache: &mut AccountCache<GlobalAccount>, read: &AccountRead) -> (found: Result<
    Lookup<GlobalAccount>,
    TradeError,
>)
    ensures
        found == looked_up(old(cache)@, global_pda(), *read, decoded_global(*read)),
        final(cache)@ == cache_after(old(cache)@, global_pda(), *read, decoded_global(*read)),
{
    let address = match get_global_pda() {
        Some(address) => address,
        None => { return Err(TradeError::AccountNotFound); },
    };
    if let Some(snapshot) = cache.get(&address) {
        return Ok(Lookup::Found(snapshot));
    }
    match read {
        AccountRead::Pending => Ok(Lookup::Fetch(address)),
        AccountRead::NotFound => Err(TradeError::AccountNotFound),
        AccountRead::Failed => Err(TradeError::TransportFailure),
        AccountRead::Data(data) => match GlobalAccount::try_from_slice(data.as_slice()) {
            Ok(snapshot) => {
                cache.insert(address, snapshot);
                Ok(Lookup::Found(snapshot))
            },
            Err(error) => Err(error),
        },
    }
}

/// The bonding curve of `mint`, through the cache. A hit answers from
/// the cache and ignores `read`. A miss asks for the account's data
/// while `read` is pending; once the data is handed in it is decoded,
/// stored and returned. The snapshot is never refreshed.
pub fn get_bonding_curve_account(
    cache: &mut AccountCache<BondingCurveAccount>,
    mint: &Address,
    read: &AccountRead,
) -> (found: Result<Lookup<BondingCurveAccount>, TradeError>)
    ensures
        found == looked_up(old(cache)@, bonding_curve_pda(*mint), *read, decoded_bonding_curve(*read)),
        final(cache)@ == cache_after(
            old(cache)@,
            bonding_curve_pda(*mint),
            *read,
            decoded_bonding_curve(*read),
        ),
{
    let address = match get_bonding_curve_pda(mint) {
        Some(address) => address,
        None => { return Err(TradeError::AccountNotFound); },
    };
    if let Some(snapshot) = cache.get(&address) {
        return Ok(Lookup::Found(snapshot));
    }
    match read {
        AccountRead::Pending => Ok(Lookup::Fetch(address)),
        AccountRead::NotFound => Err(TradeError::AccountNotFound),
        AccountRead::Failed => Err(TradeError::TransportFailure),
        AccountRead::Data(data) => match BondingCurveAccount::try_from_slice(data.as_slice()) {
            Ok(snapshot) => {
                cache.insert(address, snapshot);
                Ok(Lookup::Found(snapshot))
            },
            Err(error) => Err(error),
        },
    }
}

/// A lookup that misses asks for exactly one read and leaves the cache
/// as it is. Once a snapshot has been handed in, every later lookup of
/// that address returns that same snapshot from the cache, whatever is
/// handed in with it, asks for no read and changes nothing.
pub proof fn lemma_lookup_reads_once<T>(
    cache: Map<Address, T>,
    address: Address,
    data: Vec<u8>,
    snapshot: T,
    later: AccountRead,
    later_decoded: Option<T>,
)
    requires
        !cache.contains_key(address),
    ensures
        looked_up(cache, Some(address), AccountRead::Pending, None) == Ok::<Lookup<T>, TradeError>(
            Lookup::Fetch(address),
        ),
        cache_after(cache, Some(address), AccountRead::Pending, None) == cache,
        looked_up(cache, Some(address), AccountRead::Data(data), Some(snapshot)) == Ok::<
            Lookup<T>,
            TradeError,
        >(Lookup::Found(snapshot)),
        ({
            let filled = cache_after(cache, Some(address), AccountRead::Data(data), Some(snapshot));
            &&& looked_up(filled, Some(address), later, later_decoded) == Ok::<Lookup<T>, TradeError>(
                Lookup::Found(snapshot),
            )
            &&& cache_after(filled, Some(address), later, later_decoded) == filled
        }),
{
}

/// A lookup changes nothing for any other address.
pub proof fn lemma_lookup_keeps_other_entries<T>(
    cache: Map<Address, T>,
    address: Option<Address>,
    read: AccountRead,
    decoded: Option<T>,
    other: Address,
)
    requires
        address != Some(other),
    ensures
        cached(cache_after(cache, address, read, decoded), other) == cached(cache, other),
{
}

/// A lookup that fails stores nothing.
pub proof fn lemma_failed_lookup_stores_nothing<T>(
    cache: Map<Address, T>,
    address: Option<Address>,
    read: AccountRead,
    decoded: Option<T>,
)
    requires
        looked_up(cache, address, read, decoded) is Err,
    ensures
        cache_after(cache, address, read, decoded) == cache,
{
}

/// What came of reading the lamports of an account.
#[derive(Debug, Clone, Copy, PartialEq, Eq)]
pub enum BalanceRead {
    /// Nothing has been read yet.
    Pending,
    /// The chain could not be reached.
    Failed,
    /// The lamports that the account holds.
    Lamports(u64),
}

/// What came of reading the token amount of a token account.
#[derive(Debug, Clone, PartialEq, Eq)]
pub enum TokenAmountRead {
    /// Nothing has been read yet.
    Pending,
    /// The chain could not be reached.
    Failed,
    /// The amount, in decimal digits.
    Amount(String),
}

/// The lamports of `account`, or what stands in the way.
pub open spec fn sol_balance(account: Address, read: BalanceRead) -> Result<Step<u64>, TradeError> {
    match read {
        BalanceRead::Pending => Ok(Step::Read(Need::Balance(account))),
        BalanceRead::Failed => Err(TradeError::TransportFailure),
        BalanceRead::Lamports(lamports) => Ok(Step::Ready(lamports)),
    }
}

/// The lamports that `account` holds, once they have been read.
pub fn get_sol_balance(account: &Address, read: BalanceRead) -> (balance: Result<Step<u64>, TradeError>)
    ensures
        balance == sol_balance(*account, read),
{
    match read {
        BalanceRead::Pending => Ok(Step::Read(Need::Balance(*account))),
        BalanceRead::Failed => Err(TradeError::TransportFailure),
        BalanceRead::Lamports(lamports) => Ok(Step::Ready(lamports)),
    }
}

/// The transfer of `amount` lamports from `payer` to `receive_wallet`,
/// or what stands in its way: an amount of zero is refused before the
/// balance is read, and an amount above the balance after it.
pub open spec fn sol_transfer(payer: Address, receive_wallet: Address, amount: u64, balance: BalanceRead) -> Result<
    Step<SubmissionView>,
    TradeError,
> {
    if amount == 0 {
        Err(TradeError::InvalidInput)
    } else {
        match sol_balance(payer, balance) {
            Err(error) => Err(error),
            Ok(Step::Read(need)) => Ok(Step::Read(need)),
            Ok(Step::Ready(lamports)) => if lamports < amount {
                Err(TradeError::InsufficientBalance)
            } else {
                Ok(
                    Step::Ready(
                        SubmissionView {
                            transaction: TransactionView {
                                instructions: seq![
                                    InstructionView::Transfer {
                                        from: payer,
                                        to: receive_wallet,
                                        lamports: amount,
                                    },
                                ],
                                payer,
                                signers: seq![payer],
                            },
                            route: Route::SendAndConfirm,
                        },
                    ),
                )
            },
        }
    }
}

/// A transfer of nothing is refused before the balance is read,
/// whatever has been read already; and no transfer is built for more
/// than the payer holds.
pub proof fn lemma_transfer_is_checked(payer: Address, receive_wallet: Address, amount: u64, balance: BalanceRead)
    ensures
        amount == 0 ==> sol_transfer(payer, receive_wallet, amount, balance) == Err::<
            Step<SubmissionView>,
            TradeError,
        >(TradeError::InvalidInput),
        sol_transfer(payer, receive_wallet, amount, balance) matches Ok(Step::Ready(_)) ==> balance matches BalanceRead::Lamports(
            lamports,
        ) && 0 < amount <= lamports,
{
}

/// Moves `amount` lamports from `payer` to `receive_wallet`, in one
/// transaction sent to the chain to be confirmed.
pub fn transfer_sol(payer: &Address, receive_wallet: &Address, amount: u64, balance: BalanceRead) -> (outcome:
    Result<Step<Submission>, TradeError>)
    ensures
        outcome_view(outcome) == sol_transfer(*payer, *receive_wallet, amount, balance),
{
    if amount == 0 {
        return Err(TradeError::InvalidInput);
    }
    let lamports = match get_sol_balance(payer, balance) {
        Ok(Step::Ready(lamports)) => lamports,
        Ok(Step::Read(need)) => { return Ok(Step::Read(need)); },
        Err(error) => { return Err(error); },
    };
    if lamports < amount {
        return Err(TradeError::InsufficientBalance);
    }
    let transfer = Instruction::Transfer { from: *payer, to: *receive_wallet, lamports: amount };
    let mut instructions: Vec<Instruction> = Vec::new();
    instructions.push(transfer);
    assert(instructions.deep_view() =~= seq![transfer.deep_view()]);
    let mut signers: Vec<Address> = Vec::new();
    signers.push(*payer);
    assert(signers@ =~= seq![*payer]);
    Ok(
        Step::Ready(
            Submission {
                transaction: Transaction { instructions, payer: *payer, signers },
                route: Route::SendAndConfirm,
            },
        ),
    )
}

/// The tokens of `mint` that `account` holds, or what stands in the
/// way. An owner without a token account holds nothing; the amount of
/// one with an account is what the chain's text spells.
pub open spec fn token_balance(
    account: Address,
    mint: Address,
    exists: Option<bool>,
    amount: TokenAmountRead,
) -> Result<Step<u64>, TradeError> {
    match (associated_token_address(account, mint), exists) {
        (None, _) => Err(TradeError::AccountNotFound),
        (Some(address), None) => Ok(Step::Read(Need::AccountExists(address))),
        (Some(_), Some(false)) => Ok(Step::Ready(0)),
        (Some(address), Some(true)) => match amount {
            TokenAmountRead::Pending => Ok(Step::Read(Need::TokenBalance(address))),
            TokenAmountRead::Failed => Err(TradeError::TransportFailure),
            TokenAmountRead::Amount(text) => match decimal_value(text@) {
                Some(tokens) => Ok(Step::Ready(tokens)),
                None => Err(TradeError::DeserializationFailed),
            },
        },
    }
}

/// The tokens of `mint` that `account` holds. It first asks whether the
/// token account exists and then, if it does, for its amount.
pub fn get_token_balance(account: &Address, mint: &Address, exists: Option<bool>, amount: &TokenAmountRead) -> (balance:
    Result<Step<u64>, TradeError>)
    ensures
        balance == token_balance(*account, *mint, exists, *amount),
{
    let address = match get_associated_token_address(account, mint) {
        Some(address) => address,
        None => { return Err(TradeError::AccountNotFound); },
    };
    match exists {
        None => Ok(Step::Read(Need::AccountExists(address))),
        Some(false) => Ok(Step::Ready(0)),
        Some(true) => match amount {
            TokenAmountRead::Pending => Ok(Step::Read(Need::TokenBalance(address))),
            TokenAmountRead::Failed => Err(TradeError::TransportFailure),
            TokenAmountRead::Amount(text) => match parse_amount(text.as_str()) {
                Some(tokens) => Ok(Step::Ready(tokens)),
                None => Err(TradeError::DeserializationFailed),
            },
        },
    }
}

} // verus!

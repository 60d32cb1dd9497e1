//! Pricing, transaction planning and bundle-relay bookkeeping for trades
//! against a bonding-curve token launch program.
//!
//! The library never touches the network. Every operation that the chain
//! or the relay has to answer is written as a function from what has been
//! read so far to either the next thing to read or the finished result,
//! so the order of reads and the content of each transaction are verified.

pub mod accounts;
pub mod address;
pub mod amount;
pub mod cache;
pub mod constants;
pub mod error;
pub mod instruction;
pub mod ipfs;
pub mod jito;
pub mod trade;
pub mod wire;

use crate::accounts::BondingCurveAccount;
use crate::accounts::GlobalAccount;
use crate::address::Address;
use crate::cache::AccountCache;
use crate::error::TradeError;
use crate::instruction::Submission;
use crate::instruction::SubmissionView;
use crate::ipfs::TokenMetadataIPFS;
use crate::jito::JitoClient;
use crate::trade::buy::buy_fits;
use crate::trade::buy::buy_transaction;
use crate::trade::buy::relayed_buy;
use crate::trade::buy::relayed_buy_fits;
use crate::trade::buy::routed;
use crate::trade::common::outcome_view;
use crate::trade::common::ChainReads;
use crate::trade::common::PriorityFee;
use crate::trade::common::Step;
use crate::trade::create::create_and_buy_fits;
use crate::trade::create::create_and_buy_transaction;
use crate::trade::create::create_submission;
use vstd::prelude::*;

verus! {

/// How settled the chain state has to be that a read returns.
#[derive(Debug, Clone, Copy, PartialEq, Eq, Structural)]
pub enum CommitmentLevel {
    Processed,
    Confirmed,
    Finalized,
}

/// One client of the launch program: where the chain is reached, who
/// pays, the relay if there is one, and the snapshots read so far. The
/// snapshots belong to the client and live as long as it does.
pub struct PumpFun {
    pub rpc_url: String,
    pub commitment: CommitmentLevel,
    pub payer: Address,
    pub jito_client: Option<JitoClient>,
    pub global_accounts: AccountCache<GlobalAccount>,
    pub bonding_curves: AccountCache<BondingCurveAccount>,
}

/// The commitment of a client: the caller's, or `Processed`.
pub open spec fn commitment_or_default(commitment: Option<CommitmentLevel>) -> CommitmentLevel {
    match commitment {
        Some(level) => level,
        None => CommitmentLevel::Processed,
    }
}

impl PumpFun {
    /// A client with nothing read yet, and with a relay client that
    /// knows no tip account if a relay is named.
    pub fn new(
        rpc_url: String,
        commitment: Option<CommitmentLevel>,
        payer: Address,
        jito_url: Option<String>,
    ) -> (client: PumpFun)
        ensures
            client.rpc_url@ == rpc_url@,
            client.commitment == commitment_or_default(commitment),
            client.payer == payer,
            client.global_accounts@ == Map::<Address, GlobalAccount>::empty(),
            client.bonding_curves@ == Map::<Address, BondingCurveAccount>::empty(),
            client.jito_client is Some <==> jito_url is Some,
            jito_url matches Some(url) ==> {
                &&& client.jito_client->Some_0.url() == url@
                &&& client.jito_client->Some_0.tips() == Seq::<Address>::empty()
                &&& !client.jito_client->Some_0.is_populated()
            },
    {
        let jito_client = match jito_url {
            Some(url) => Some(JitoClient::new(url.as_str(), None)),
            None => None,
        };
        PumpFun {
            rpc_url,
            commitment: match commitment {
                Some(level) => level,
                None => CommitmentLevel::Processed,
            },
            payer,
            jito_client,
            global_accounts: AccountCache::new(),
            bonding_curves: AccountCache::new(),
        }
    }

    /// The relay client, or the error of a client without one.
    pub fn relay(&self) -> (relay: Result<&JitoClient, TradeError>)
        ensures
            match self.jito_client {
                Some(client) => relay == Ok::<&JitoClient, TradeError>(&client),
                None => relay == Err::<&JitoClient, TradeError>(TradeError::MissingRelayClient),
            },
    {
        match &self.jito_client {
            Some(client) => Ok(client),
            None => Err(TradeError::MissingRelayClient),
        }
    }

    /// Launches the token `mint`, paid by the client's payer.
    pub fn create(&self, mint: &Address, ipfs: &TokenMetadataIPFS, priority_fee: Option<PriorityFee>) -> (submission:
        Submission)
        ensures
            submission.deep_view() == create_submission(self.payer, *mint, *ipfs, priority_fee),
    {
        trade::create::create(&self.payer, mint, ipfs, priority_fee)
    }

    /// Launches the token `mint` and buys for `amount_sol` lamports in
    /// one transaction, paid by the client's payer.
    pub fn create_and_buy(
        &self,
        reads: &ChainReads,
        mint: &Address,
        ipfs: &TokenMetadataIPFS,
        amount_sol: u64,
        slippage_basis_points: Option<u64>,
        priority_fee: Option<PriorityFee>,
    ) -> (outcome: Result<Step<Submission>, TradeError>)
        requires
            create_and_buy_fits(reads.global_account, amount_sol, slippage_basis_points),
        ensures
            outcome_view(outcome) == routed(
                create_and_buy_transaction(
                    reads.global_account,
                    reads.probed(0),
                    self.payer,
                    *mint,
                    *ipfs,
                    amount_sol,
                    slippage_basis_points,
                    priority_fee,
                ),
                instruction::Route::SendAndConfirm,
            ),
    {
        trade::create::create_and_buy(
            reads,
            &self.payer,
            mint,
            ipfs,
            amount_sol,
            slippage_basis_points,
            priority_fee,
        )
    }

    /// Buys tokens of `mint` for `amount_sol` lamports, paid by the
    /// client's payer.
    pub fn buy(
        &self,
        reads: &ChainReads,
        mint: &Address,
        amount_sol: u64,
        slippage_basis_points: Option<u64>,
        priority_fee: Option<PriorityFee>,
    ) -> (outcome: Result<Step<Submission>, TradeError>)
        requires
            buy_fits(reads.bonding_curve_account, amount_sol, slippage_basis_points),
        ensures
            outcome_view(outcome) == routed(
                buy_transaction(
                    reads.global_account,
                    reads.bonding_curve_account,
                    reads.probed(0),
                    self.payer,
                    *mint,
                    amount_sol,
                    slippage_basis_points,
                    priority_fee,
                ),
                instruction::Route::Send,
            ),
    {
        trade::buy::buy(reads, &self.payer, mint, amount_sol, slippage_basis_points, priority_fee)
    }

    /// Buys `buy_token_amount` tokens of `mint` through the relay, paid
    /// by the client's payer. A client without a relay refuses before
    /// anything else.
    pub fn buy_with_jito(
        &self,
        reads: &ChainReads,
        mint: &Address,
        buy_token_amount: u64,
        max_sol_cost: u64,
        slippage_basis_points: Option<u64>,
        jito_fee: Option<u64>,
    ) -> (outcome: Result<Step<Submission>, TradeError>)
        requires
            self.jito_client is Some ==> relayed_buy_fits(
                buy_token_amount,
                max_sol_cost,
                slippage_basis_points,
            ),
        ensures
            outcome_view(outcome) == if self.jito_client is None {
                Err::<Step<SubmissionView>, TradeError>(TradeError::MissingRelayClient)
            } else {
                relayed_buy(
                    reads.global_account,
                    reads.tip_account,
                    reads.probed(0),
                    self.payer,
                    *mint,
                    buy_token_amount,
                    max_sol_cost,
                    slippage_basis_points,
                    jito_fee,
                )
            },
    {
        if let Err(error) = self.relay() {
            return Err(error);
        }
        trade::buy::buy_with_jito(
            reads,
            &self.payer,
            mint,
            buy_token_amount,
            max_sol_cost,
            slippage_basis_points,
            jito_fee,
        )
    }
}

impl Clone for PumpFun {
    /// A second client for the same chain, payer and relay. It shares
    /// nothing with the first: it has read nothing yet, and its relay
    /// client knows no tip account.
    fn clone(&self) -> (client: PumpFun)
        ensures
            client.rpc_url@ == self.rpc_url@,
            client.commitment == self.commitment,
            client.payer == self.payer,
            client.global_accounts@ == Map::<Address, GlobalAccount>::empty(),
            client.bonding_curves@ == Map::<Address, BondingCurveAccount>::empty(),
            client.jito_client is Some <==> self.jito_client is Some,
            self.jito_client matches Some(relay) ==> {
                &&& client.jito_client->Some_0.url() == relay.url()
                &&& client.jito_client->Some_0.tips() == Seq::<Address>::empty()
                &&& !client.jito_client->Some_0.is_populated()
            },
    {
        let jito_client = match &self.jito_client {
            Some(relay) => Some(relay.clone()),
            None => None,
        };
        PumpFun {
            rpc_url: self.rpc_url.clone(),
            commitment: self.commitment,
            payer: self.payer,
            jito_client,
            global_accounts: AccountCache::new(),
            bonding_curves: AccountCache::new(),
        }
    }
}

} // verus!

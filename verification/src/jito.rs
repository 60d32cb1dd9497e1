//! The client of a bundle relay: the relay's tip accounts, and what is
//! asked of the relay.
//!
//! The client starts without tip accounts. It learns them when one is
//! first wanted, or when it is told to, and keeps what it learned; it
//! never forgets them and never asks again by itself. A copy of a client
//! starts without tip accounts.

use crate::address::parsed;
use crate::address::Address;
use crate::error::TradeError;
use crate::instruction::Transaction;
use rand::seq::IteratorRandom;
use vstd::prelude::*;

verus! {

/// An error of the relay or of the way to it: a failed status of the
/// transport, or the error that the relay answered with.
#[derive(Debug, Clone, PartialEq, Eq)]
pub struct ClientError {
    pub code: i64,
    pub message: String,
}

/// Why the relay's tip accounts could not be learned.
#[derive(Debug, Clone, PartialEq, Eq)]
pub enum JitoError {
    /// The request failed: the code and the text are those of the
    /// transport's status or of the relay's error, unchanged.
    Client(ClientError),
    /// The relay answered, but one of its texts is no address.
    AddressFormat,
}

/// What came back for one request to the relay.
#[derive(Debug, Clone, PartialEq, Eq)]
pub enum RelayReply<T> {
    /// The transport reported a status other than success.
    Status { code: u16, reason: String },
    /// The relay answered with an error.
    Error { code: i64, message: String },
    /// The relay answered with a result.
    Result(T),
}

/// A request to the relay. Each is sent once; whether to try again is
/// up to the caller.
#[derive(Debug, Clone, PartialEq, Eq)]
pub enum RelayRequest {
    /// Ask for the relay's tip accounts.
    GetTipAccounts,
    /// Hand in signed transactions to run one after another, all or
    /// none, in the order given.
    SendBundle(Vec<Transaction>),
}

/// The tip accounts of the relay.
#[derive(Debug, Clone, PartialEq, Eq)]
pub struct TipAccountResult {
    pub accounts: Vec<Address>,
}

/// What a client says when asked for a tip account.
#[derive(Debug, Clone, Copy, PartialEq, Eq)]
pub enum TipSelection {
    /// The account to tip.
    Selected(Address),
    /// The client knows no tip account: the relay has to be asked, and
    /// the client told, before it is asked again.
    Refresh,
}

/// The client of one relay.
#[derive(Debug)]
pub struct JitoClient {
    base_url: String,
    tip_accounts: Vec<Address>,
    populated: bool,
}

/// The name under which the relay knows a request.
pub open spec fn request_method(request: RelayRequest) -> Seq<char> {
    match request {
        RelayRequest::GetTipAccounts => "getTipAccounts"@,
        RelayRequest::SendBundle(_) => "sendBundle"@,
    }
}

/// The result of a reply, or its error with the code and the text that
/// came with it.
pub open spec fn reply_outcome<T>(reply: RelayReply<T>) -> Result<T, ClientError> {
    match reply {
        RelayReply::Status { code, reason } => Err(ClientError { code: code as i64, message: reason }),
        RelayReply::Error { code, message } => Err(ClientError { code, message }),
        RelayReply::Result(result) => Ok(result),
    }
}

/// Whether every text spells an address.
pub open spec fn all_parse(texts: Seq<String>) -> bool {
    forall|i: int| 0 <= i < texts.len() ==> parsed(#[trigger] texts[i]@) is Some
}

/// The addresses that the texts spell, in their order.
pub open spec fn parsed_accounts(texts: Seq<String>) -> Seq<Address> {
    Seq::new(texts.len(), |i: int| parsed(texts[i]@)->Some_0)
}

/// The tip accounts in a reply: the addresses that the relay's texts
/// spell, if the relay answered and every text spells one. A request
/// that failed gives the error of the reply, with its code and text.
pub open spec fn tip_accounts_of(reply: RelayReply<Vec<String>>) -> Result<Seq<Address>, JitoError> {
    match reply_outcome(reply) {
        Ok(texts) => if all_parse(texts@) {
            Ok(parsed_accounts(texts@))
        } else {
            Err(JitoError::AddressFormat)
        },
        Err(error) => Err(JitoError::Client(error)),
    }
}

/// The kind of error that a failed refresh is.
pub open spec fn jito_error_kind(error: JitoError) -> TradeError {
    match error {
        JitoError::Client(_) => TradeError::RelayError,
        JitoError::AddressFormat => TradeError::AddressFormatError,
    }
}

/// What a client with the tip accounts `tip_accounts` says when asked
/// for one, given the draw of an index among them. A draw that names an
/// account selects it. Without one, the client asks to be refreshed,
/// once: asked again after the refresh, it gives up.
pub open spec fn tip_selection(tip_accounts: Seq<Address>, refreshed: bool, draw: Option<usize>) -> Result<
    TipSelection,
    TradeError,
> {
    match draw {
        Some(index) if index < tip_accounts.len() => Ok(TipSelection::Selected(tip_accounts[index as int])),
        _ => if refreshed {
            Err(TradeError::NoTipAccountsAvailable)
        } else {
            Ok(TipSelection::Refresh)
        },
    }
}

/// A request for the tip accounts that failed is reported with the code
/// and the text that came back, whichever way it failed, so two failures
/// that differ in either are told apart.
pub proof fn lemma_failed_refresh_keeps_code_and_text(code: u16, reason: String, relay_code: i64, message: String)
    ensures
        tip_accounts_of(RelayReply::Status { code, reason }) == Err::<Seq<Address>, JitoError>(
            JitoError::Client(ClientError { code: code as i64, message: reason }),
        ),
        tip_accounts_of(RelayReply::Error { code: relay_code, message }) == Err::<
            Seq<Address>,
            JitoError,
        >(JitoError::Client(ClientError { code: relay_code, message })),
{
}

/// Every tip account that a client knows is selected by some draw, with
/// or without a refresh before: none is passed over for good.
pub proof fn lemma_every_tip_account_can_be_selected(tip_accounts: Seq<Address>, refreshed: bool, index: usize)
    requires
        index < tip_accounts.len(),
    ensures
        tip_selection(tip_accounts, refreshed, Some(index)) == Ok::<TipSelection, TradeError>(
            TipSelection::Selected(tip_accounts[index as int]),
        ),
{
}

/// A client that has just been refreshed never asks for another
/// refresh: it selects or it gives up.
pub proof fn lemma_refresh_is_asked_once(tip_accounts: Seq<Address>, draw: Option<usize>)
    ensures
        tip_selection(tip_accounts, true, draw) != Ok::<TipSelection, TradeError>(TipSelection::Refresh),
        tip_selection(tip_accounts, true, draw) is Err ==> tip_selection(tip_accounts, true, draw) == Err::<
            TipSelection,
            TradeError,
        >(TradeError::NoTipAccountsAvailable),
{
}

/// Reads a reply: non-success statuses and errors of the relay alike
/// become one kind of error that carries the code and the text.
pub fn read_reply<T>(reply: RelayReply<T>) -> (outcome: Result<T, ClientError>)
    ensures
        outcome == reply_outcome(reply),
{
    match reply {
        RelayReply::Status { code, reason } => Err(ClientError { code: code as i64, message: reason }),
        RelayReply::Error { code, message } => Err(ClientError { code, message }),
        RelayReply::Result(result) => Ok(result),
    }
}

impl JitoError {
    /// The kind of error that this is.
    pub fn kind(&self) -> (kind: TradeError)
        ensures
            kind == jito_error_kind(*self),
    {
        match self {
            JitoError::Client(_) => TradeError::RelayError,
            JitoError::AddressFormat => TradeError::AddressFormatError,
        }
    }
}

impl RelayRequest {
    /// The name under which the relay knows this request.
    pub fn method(&self) -> (name: &'static str)
        ensures
            name@ == request_method(*self),
    {
        match self {
            RelayRequest::GetTipAccounts => "getTipAccounts",
            RelayRequest::SendBundle(_) => "sendBundle",
        }
    }
}

/// Calls `IteratorRandom::choose` of `rand` on the indices below `len`,
/// with the thread's generator. Trusted: the index drawn is below `len`,
/// and none is drawn only where `len` is zero. Which index comes is left
/// open: two calls may differ.
#[verifier::external_body]
pub(crate) fn random_index(len: usize) -> (index: Option<usize>)
    ensures
        index matches Some(i) ==> i < len,
        index is None <==> len == 0,
{
    (0..len).choose(&mut rand::rng())
}

impl JitoClient {
    /// The address of the relay.
    pub closed spec fn url(&self) -> Seq<char> {
        self.base_url@
    }

    /// The tip accounts the client knows, in the order the relay gave.
    pub closed spec fn tips(&self) -> Seq<Address> {
        self.tip_accounts@
    }

    /// Whether the client has learned the relay's tip accounts.
    pub closed spec fn is_populated(&self) -> bool {
        self.populated
    }

    /// A client that has not learned the tip accounts knows none.
    #[verifier::type_invariant]
    spec fn well_formed(&self) -> bool {
        !self.populated ==> self.tip_accounts@.len() == 0
    }

    /// A client of the relay at `jito_url` that knows no tip account.
    pub fn new(jito_url: &str, _uuid: Option<String>) -> (client: JitoClient)
        ensures
            client.url() == jito_url@,
            client.tips() == Seq::<Address>::empty(),
            !client.is_populated(),
    {
        JitoClient { base_url: jito_url.to_owned(), tip_accounts: Vec::new(), populated: false }
    }

    /// The address of the relay.
    pub fn base_url(&self) -> (url: &str)
        ensures
            url@ == self.url(),
    {
        self.base_url.as_str()
    }

    /// The tip accounts the client knows.
    pub fn tip_accounts(&self) -> (accounts: &Vec<Address>)
        ensures
            accounts@ == self.tips(),
    {
        &self.tip_accounts
    }

    /// Whether the client has learned the relay's tip accounts.
    pub fn populated(&self) -> (yes: bool)
        ensures
            yes == self.is_populated(),
            !yes ==> self.tips().len() == 0,
    {
        proof {
            use_type_invariant(self);
        }
        self.populated
    }

    /// The tip accounts in the relay's reply to
    /// [`RelayRequest::GetTipAccounts`].
    pub fn get_tip_accounts(&self, reply: RelayReply<Vec<String>>) -> (accounts: Result<
        TipAccountResult,
        JitoError,
    >)
        ensures
            match tip_accounts_of(reply) {
                Ok(expected) => accounts is Ok && accounts->Ok_0.accounts@ == expected,
                Err(error) => accounts == Err::<TipAccountResult, JitoError>(error),
            },
    {
        let texts = match read_reply(reply) {
            Ok(texts) => texts,
            Err(error) => { return Err(JitoError::Client(error)); },
        };
        let mut accounts: Vec<Address> = Vec::new();
        let mut index: usize = 0;
        while index < texts.len()
            invariant
                tip_accounts_of(reply) == if all_parse(texts@) {
                    Ok::<Seq<Address>, JitoError>(parsed_accounts(texts@))
                } else {
                    Err::<Seq<Address>, JitoError>(JitoError::AddressFormat)
                },
                index <= texts@.len(),
                accounts@.len() == index,
                forall|i: int| 0 <= i < index ==> parsed(#[trigger] texts@[i]@) == Some(accounts@[i]),
            decreases texts@.len() - index,
        {
            match Address::parse(texts[index].as_str()) {
                Ok(address) => accounts.push(address),
                Err(_) => {
                    assert(parsed(texts@[index as int]@) is None);
                    return Err(JitoError::AddressFormat);
                },
            }
            index += 1;
        }
        assert(accounts@ =~= parsed_accounts(texts@));
        Ok(TipAccountResult { accounts })
    }

    /// Learns the tip accounts from the relay's reply. A reply that
    /// cannot be used leaves the client as it was, and a request that
    /// failed is reported with its code and text.
    pub fn init_tip_accounts(&mut self, reply: RelayReply<Vec<String>>) -> (done: Result<(), JitoError>)
        ensures
            final(self).url() == old(self).url(),
            old(self).is_populated() ==> final(self).is_populated(),
            match tip_accounts_of(reply) {
                Ok(accounts) => {
                    &&& done is Ok
                    &&& final(self).tips() == accounts
                    &&& final(self).is_populated()
                },
                Err(error) => {
                    &&& done == Err::<(), JitoError>(error)
                    &&& final(self).tips() == old(self).tips()
                    &&& final(self).is_populated() == old(self).is_populated()
                },
            },
    {
        proof {
            use_type_invariant(&*self);
        }
        let accounts = match self.get_tip_accounts(reply) {
            Ok(result) => result.accounts,
            Err(error) => { return Err(error); },
        };
        self.populated = true;
        self.tip_accounts = accounts;
        Ok(())
    }

    /// What the client says when asked for a tip account, given the
    /// index that was drawn among its accounts.
    pub fn select_tip_account(&self, refreshed: bool, draw: Option<usize>) -> (selection: Result<
        TipSelection,
        TradeError,
    >)
        ensures
            selection == tip_selection(self.tips(), refreshed, draw),
    {
        if let Some(index) = draw {
            if index < self.tip_accounts.len() {
                return Ok(TipSelection::Selected(self.tip_accounts[index]));
            }
        }
        if refreshed {
            Err(TradeError::NoTipAccountsAvailable)
        } else {
            Ok(TipSelection::Refresh)
        }
    }

    /// A tip account, drawn at random among those the client knows.
    /// Where it knows none it asks to be refreshed; `refreshed` says
    /// that this has just been done, and then it gives up instead.
    pub fn get_tip_account(&self, refreshed: bool) -> (selection: Result<TipSelection, TradeError>)
        ensures
            self.tips().len() > 0 ==> exists|i: int|
                0 <= i < self.tips().len() && selection == Ok::<TipSelection, TradeError>(
                    TipSelection::Selected(#[trigger] self.tips()[i]),
                ),
            self.tips().len() == 0 && !refreshed ==> selection == Ok::<TipSelection, TradeError>(
                TipSelection::Refresh,
            ),
            self.tips().len() == 0 && refreshed ==> selection == Err::<TipSelection, TradeError>(
                TradeError::NoTipAccountsAvailable,
            ),
    {
        let draw = random_index(self.tip_accounts.len());
        let selection = self.select_tip_account(refreshed, draw);
        proof {
            if let Some(index) = draw {
                assert(selection == Ok::<TipSelection, TradeError>(
                    TipSelection::Selected(self.tips()[index as int]),
                ));
            }
        }
        selection
    }

    /// The request that hands one transaction to the relay, as a bundle
    /// of one.
    pub fn send_transaction(&self, transaction: &Transaction) -> (request: RelayRequest)
        ensures
            request matches RelayRequest::SendBundle(bundle) && bundle.deep_view() == seq![
                transaction.deep_view(),
            ],
    {
        let mut bundle: Vec<Transaction> = Vec::new();
        bundle.push(transaction.clone());
        assert(bundle.deep_view() =~= seq![transaction.deep_view()]);
        RelayRequest::SendBundle(bundle)
    }

    /// The request that hands transactions to the relay as one bundle,
    /// in the order given.
    pub fn send_transactions(&self, transactions: &Vec<Transaction>) -> (request: RelayRequest)
        ensures
            request matches RelayRequest::SendBundle(bundle) && bundle.deep_view()
                == transactions.deep_view(),
    {
        let mut bundle: Vec<Transaction> = Vec::new();
        let mut index: usize = 0;
        while index < transactions.len()
            invariant
                index <= transactions@.len(),
                bundle@.len() == index,
                forall|i: int|
                    0 <= i < index ==> (#[trigger] bundle@[i]).deep_view()
                        == transactions@[i].deep_view(),
            decreases transactions@.len() - index,
        {
            bundle.push(transactions[index].clone());
            index += 1;
        }
        assert(bundle.deep_view() =~= transactions.deep_view());
        RelayRequest::SendBundle(bundle)
    }
}

impl Clone for JitoClient {
    /// A client of the same relay that knows no tip account.
    fn clone(&self) -> (client: JitoClient)
        ensures
            client.url() == self.url(),
            client.tips() == Seq::<Address>::empty(),
            !client.is_populated(),
    {
        JitoClient { base_url: self.base_url.clone(), tip_accounts: Vec::new(), populated: false }
    }
}

} // verus!

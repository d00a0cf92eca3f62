//! The request layer: what each request is answered with. It checks what the
//! ledger leaves to its callers, calls the core, and shapes the outcome.

use crate::blockchain::Transaction;
use crate::error::{DerivationError, LedgerError};
use crate::wallet::address::{is_address, is_valid_address};
use crate::wallet::ledger::{after_transfer, balance, receipt_text, total, transfer_allowed};
use crate::wallet::mnemonic::has_twelve_words;
use crate::wallet::{phrase_address, Ledger, INITIAL_BALANCE};
use vstd::prelude::*;
use vstd::string::*;

verus! {

/// For how many seconds before and after its timestamp a request to create
/// a wallet is answered.
pub const REQUEST_WINDOW: i64 = 300;

/// A request for a new wallet. Only the timestamp is looked at.
pub struct CreateWalletRequest {
    pub password_hash: String,
    pub salt: String,
    pub nonce: String,
    pub timestamp: i64,
}

/// A request for the address behind a recovery phrase.
pub struct ImportWalletRequest {
    pub mnemonic: String,
}

/// A request to move `amount` units from one address to another.
pub struct TransferRequest {
    pub from_address: String,
    pub to_address: String,
    pub amount: u64,
}

/// The status of an answer.
#[derive(Debug, Clone, Copy, PartialEq, Eq, Structural)]
pub enum Status {
    Success,
    BadRequest,
    InternalServerError,
}

/// What a successful answer carries.
#[derive(Debug)]
pub enum ResponseData {
    Wallet { address: String, mnemonic: String },
    Address { address: String },
    Transfer { tx_hash: String },
    Balance { balance: u128 },
    Transactions { transactions: Vec<Transaction> },
}

/// An answer: its status, and either data or the text of an error.
#[derive(Debug)]
pub struct ApiResponse {
    pub status: Status,
    pub success: bool,
    pub data: Option<ResponseData>,
    pub error: Option<String>,
}

impl ApiResponse {
    /// Whether this is the answer that carries `data`.
    pub open spec fn succeeds(&self) -> bool {
        &&& self.status == Status::Success
        &&& self.success
        &&& self.data is Some
        &&& self.error is None
    }

    /// Whether this is the failure with `status` and `message`.
    pub open spec fn fails_with(&self, status: Status, message: Seq<char>) -> bool {
        &&& self.status == status
        &&& !self.success
        &&& self.data is None
        &&& self.error matches Some(text) && text@ == message
    }

    /// Whether the answer carries this address and this recovery phrase.
    pub open spec fn carries_wallet(&self, address: Seq<char>, mnemonic: Seq<char>) -> bool {
        &&& self.succeeds()
        &&& self.data matches Some(ResponseData::Wallet { address: a, mnemonic: m }) && a@
            == address && m@ == mnemonic
    }

    /// Whether the answer carries this address.
    pub open spec fn carries_address(&self, address: Seq<char>) -> bool {
        &&& self.succeeds()
        &&& self.data matches Some(ResponseData::Address { address: a }) && a@ == address
    }

    /// Whether the answer carries this receipt.
    pub open spec fn carries_receipt(&self, tx_hash: Seq<char>) -> bool {
        &&& self.succeeds()
        &&& self.data matches Some(ResponseData::Transfer { tx_hash: h }) && h@ == tx_hash
    }

    /// Whether the answer carries this balance.
    pub open spec fn carries_balance(&self, balance: nat) -> bool {
        &&& self.succeeds()
        &&& self.data matches Some(ResponseData::Balance { balance: b }) && b == balance
    }

    /// Whether the answer carries this many transactions.
    pub open spec fn carries_transactions(&self, count: nat) -> bool {
        &&& self.succeeds()
        &&& self.data matches Some(ResponseData::Transactions { transactions: t }) && t@.len()
            == count
    }

    /// The answer that carries `data`.
    pub fn success(data: ResponseData) -> (reply: ApiResponse)
        ensures
            reply.succeeds(),
            reply.data == Some(data),
    {
        ApiResponse { status: Status::Success, success: true, data: Some(data), error: None }
    }

    /// The failure with `status` and `message`.
    pub fn failure(status: Status, message: String) -> (reply: ApiResponse)
        ensures
            reply.fails_with(status, message@),
    {
        ApiResponse { status, success: false, data: None, error: Some(message) }
    }
}

/// A request is expired when its timestamp lies more than the window before
/// or after the clock.
pub open spec fn request_expired(now: int, timestamp: int) -> bool {
    now - timestamp > REQUEST_WINDOW || timestamp - now > REQUEST_WINDOW
}

/// Whether a request with `timestamp` is expired at `now`, both in seconds.
pub fn is_expired(now: i64, timestamp: i64) -> (expired: bool)
    ensures
        expired == request_expired(now as int, timestamp as int),
{
    let distance: i128 = now as i128 - timestamp as i128;
    distance > REQUEST_WINDOW as i128 || distance < -(REQUEST_WINDOW as i128)
}

/// The answer to an attempt to create a wallet.
pub fn wallet_reply(wallet: Result<(String, String), DerivationError>) -> (reply: ApiResponse)
    ensures
        match wallet {
            Ok((address, mnemonic)) => reply.carries_wallet(address@, mnemonic@),
            Err(error) => reply.fails_with(Status::InternalServerError, error.text()),
        },
{
    match wallet {
        Ok((address, mnemonic)) => ApiResponse::success(ResponseData::Wallet { address, mnemonic }),
        Err(error) => ApiResponse::failure(Status::InternalServerError, error.to_string()),
    }
}

/// Creates a wallet for a request whose timestamp is within the window of
/// `now`, the clock in seconds, and answers with its address and recovery
/// phrase. An expired request is a bad request and creates nothing.
pub fn create_wallet(ledger: &mut Ledger, req: &CreateWalletRequest, now: i64) -> (reply:
    ApiResponse)
    requires
        old(ledger).wf(),
        total(old(ledger)@) + INITIAL_BALANCE <= u128::MAX,
    ensures
        final(ledger).wf(),
        request_expired(now as int, req.timestamp as int) ==> final(ledger)@ == old(ledger)@
            && reply.fails_with(Status::BadRequest, "Request expired"@),
        !request_expired(now as int, req.timestamp as int) ==> created(
            old(ledger)@,
            final(ledger)@,
            reply,
        ) || not_created(old(ledger)@, final(ledger)@, reply),
{
    if is_expired(now, req.timestamp) {
        return ApiResponse::failure(Status::BadRequest, String::from_str("Request expired"));
    }
    let wallet = crate::wallet::create_wallet(ledger, req.password_hash.as_str());
    wallet_reply(wallet)
}

/// The answer carries a wallet whose recovery phrase has twelve words and
/// leads to its address, and that address was credited.
pub open spec fn created(
    before: Map<Seq<char>, nat>,
    after: Map<Seq<char>, nat>,
    reply: ApiResponse,
) -> bool {
    exists|address: Seq<char>, mnemonic: Seq<char>|
        {
            &&& #[trigger] reply.carries_wallet(address, mnemonic)
            &&& is_address(address)
            &&& has_twelve_words(mnemonic)
            &&& phrase_address(mnemonic) == Some(address)
            &&& after == before.insert(address, INITIAL_BALANCE as nat)
        }
}

/// The answer is a failure of the server, and the ledger is as it was.
pub open spec fn not_created(
    before: Map<Seq<char>, nat>,
    after: Map<Seq<char>, nat>,
    reply: ApiResponse,
) -> bool {
    &&& after == before
    &&& exists|error: DerivationError| #[trigger]
        reply.fails_with(Status::InternalServerError, error.text())
}

/// Answers with the address of the wallet that the request's recovery phrase
/// belongs to; a phrase that is not valid is a bad request.
pub fn import_wallet(req: &ImportWalletRequest) -> (reply: ApiResponse)
    ensures
        match phrase_address(req.mnemonic@) {
            Some(address) => reply.carries_address(address) && is_address(address),
            None => reply.fails_with(Status::BadRequest, DerivationError::InvalidPhrase.text()),
        },
{
    match crate::wallet::import_wallet_from_mnemonic(req.mnemonic.as_str()) {
        Ok(address) => ApiResponse::success(ResponseData::Address { address }),
        Err(error) => ApiResponse::failure(Status::BadRequest, error.to_string()),
    }
}

/// Whether a transfer request passes the checks that come before the ledger:
/// both addresses have the form of an address.
pub open spec fn addresses_ok(req: TransferRequest) -> bool {
    is_address(req.from_address@) && is_address(req.to_address@)
}

/// Carries out a transfer request. Addresses that do not have the form of an
/// address and an amount of zero are bad requests; a sender that cannot pay is
/// a failure of the server. In each of these cases no balance changes.
pub fn transfer(ledger: &mut Ledger, req: &TransferRequest) -> (reply: ApiResponse)
    requires
        old(ledger).wf(),
    ensures
        final(ledger).wf(),
        !addresses_ok(*req) ==> final(ledger)@ == old(ledger)@ && reply.fails_with(
            Status::BadRequest,
            "Invalid address format"@,
        ),
        addresses_ok(*req) && req.amount == 0 ==> final(ledger)@ == old(ledger)@
            && reply.fails_with(Status::BadRequest, "Invalid amount"@),
        addresses_ok(*req) && req.amount > 0 && balance(old(ledger)@, req.from_address@)
            < req.amount ==> final(ledger)@ == old(ledger)@ && reply.fails_with(
            Status::InternalServerError,
            LedgerError::InsufficientBalance.text(),
        ),
        addresses_ok(*req) && transfer_allowed(
            old(ledger)@,
            req.from_address@,
            req.amount as nat,
        ) ==> final(ledger)@ == after_transfer(
            old(ledger)@,
            req.from_address@,
            req.to_address@,
            req.amount as nat,
        ) && reply.carries_receipt(
            receipt_text(req.from_address@, req.to_address@, req.amount as nat),
        ),
{
    if !is_valid_address(req.from_address.as_str()) || !is_valid_address(
        req.to_address.as_str(),
    ) {
        return ApiResponse::failure(
            Status::BadRequest,
            String::from_str("Invalid address format"),
        );
    }
    if req.amount == 0 {
        return ApiResponse::failure(Status::BadRequest, String::from_str("Invalid amount"));
    }
    match crate::wallet::transfer(
        ledger,
        req.from_address.as_str(),
        req.to_address.as_str(),
        req.amount,
    ) {
        Ok(tx_hash) => ApiResponse::success(ResponseData::Transfer { tx_hash }),
        Err(error) => ApiResponse::failure(Status::InternalServerError, error.to_string()),
    }
}

/// Answers with the balance of `address`, which is nothing for an address
/// that the ledger has never seen.
pub fn get_balance(ledger: &Ledger, address: &str) -> (reply: ApiResponse)
    ensures
        reply.carries_balance(balance(ledger@, address@)),
{
    let balance = crate::wallet::get_balance(ledger, address);
    ApiResponse::success(ResponseData::Balance { balance })
}

/// Answers with the transactions of an address: the node records none.
pub fn get_transaction_history(_address: &str) -> (reply: ApiResponse)
    ensures
        reply.carries_transactions(0),
{
    ApiResponse::success(ResponseData::Transactions { transactions: Vec::new() })
}

} // verus!

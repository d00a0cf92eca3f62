//! Error values of the node and of its two core components.

use vstd::prelude::*;
use vstd::string::*;

verus! {

/// A failure somewhere in the node, with a message from the part that failed.
#[derive(Debug)]
pub enum NodeError {
    BlockchainError(String),
    NetworkError(String),
    WalletError(String),
    ValidationError(String),
    StorageError(String),
}

/// What the node's operations return.
pub type NodeResult<T> = Result<T, NodeError>;

impl NodeError {
    /// The text shown for this error: the failing part, then the message.
    pub open spec fn text(&self) -> Seq<char> {
        match self {
            NodeError::BlockchainError(msg) => "Blockchain error: "@ + msg@,
            NodeError::NetworkError(msg) => "Network error: "@ + msg@,
            NodeError::WalletError(msg) => "Wallet error: "@ + msg@,
            NodeError::ValidationError(msg) => "Validation error: "@ + msg@,
            NodeError::StorageError(msg) => "Storage error: "@ + msg@,
        }
    }

    /// The error as text.
    pub fn to_string(&self) -> (s: String)
        ensures
            s@ == self.text(),
    {
        match self {
            NodeError::BlockchainError(msg) => String::from_str("Blockchain error: ").concat(
                msg.as_str(),
            ),
            NodeError::NetworkError(msg) => String::from_str("Network error: ").concat(
                msg.as_str(),
            ),
            NodeError::WalletError(msg) => String::from_str("Wallet error: ").concat(msg.as_str()),
            NodeError::ValidationError(msg) => String::from_str("Validation error: ").concat(
                msg.as_str(),
            ),
            NodeError::StorageError(msg) => String::from_str("Storage error: ").concat(
                msg.as_str(),
            ),
        }
    }
}

/// Why a wallet could not be created or imported.
#[derive(Debug, Clone, Copy, PartialEq, Eq, Structural)]
pub enum DerivationError {
    /// The recovery phrase has a wrong word count, an unknown word or a
    /// checksum that does not match.
    InvalidPhrase,
    /// The operating system handed out no random bytes.
    RandomSourceUnavailable,
}

impl DerivationError {
    /// The text shown for this error.
    pub open spec fn text(&self) -> Seq<char> {
        match self {
            DerivationError::InvalidPhrase => "Invalid recovery phrase"@,
            DerivationError::RandomSourceUnavailable => "Random source unavailable"@,
        }
    }

    /// The error as text.
    pub fn to_string(&self) -> (s: String)
        ensures
            s@ == self.text(),
    {
        match self {
            DerivationError::InvalidPhrase => String::from_str("Invalid recovery phrase"),
            DerivationError::RandomSourceUnavailable => String::from_str(
                "Random source unavailable",
            ),
        }
    }
}

/// Why a transfer was refused. A refused transfer changes no balance.
#[derive(Debug, Clone, Copy, PartialEq, Eq, Structural)]
pub enum LedgerError {
    /// The sender holds less than the amount; an account that the ledger has
    /// never seen holds nothing.
    InsufficientBalance,
    /// The amount is zero.
    InvalidAmount,
}

impl LedgerError {
    /// The text shown for this error.
    pub open spec fn text(&self) -> Seq<char> {
        match self {
            LedgerError::InsufficientBalance => "Insufficient balance"@,
            LedgerError::InvalidAmount => "Invalid amount"@,
        }
    }

    /// The error as text.
    pub fn to_string(&self) -> (s: String)
        ensures
            s@ == self.text(),
    {
        match self {
            LedgerError::InsufficientBalance => String::from_str("Insufficient balance"),
            LedgerError::InvalidAmount => String::from_str("Invalid amount"),
        }
    }
}

} // verus!

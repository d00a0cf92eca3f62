//! The core of a node that keeps wallets and a ledger.
//!
//! Two things are decided here. [`wallet`] derives an address from a recovery
//! phrase, or from fresh entropy by way of such a phrase, always through the
//! same steps; and it keeps the [`wallet::Ledger`], the one table of balances,
//! in which a transfer moves value from one address to another or changes
//! nothing at all. [`api`] is the layer in front of them: it says what each
//! request is answered with. [`network`] and [`blockchain`] hold the node's
//! other types.
//!
//! Amounts and balances are counts of whole units. An amount fits 64 bits; a
//! balance, which may be the sum of many amounts, has 128.
//!
//! Every function is verified against its contract. What is believed and not
//! proved is what the outside crates compute: the Keccak-256 digest
//! ([`digest::keccak256`]), hexadecimal text, the recovery phrase of an
//! entropy ([`wallet::mnemonic::entropy_phrase`]) and the seed of a phrase
//! ([`wallet::mnemonic::phrase_seed`]). The contracts name these results and
//! say exactly what is built from them.

pub mod api;
pub mod blockchain;
pub mod decimal;
pub mod digest;
pub mod error;
pub mod network;
pub mod wallet;

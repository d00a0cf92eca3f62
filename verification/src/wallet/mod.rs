//! Wallets: addresses derived from recovery phrases, and the ledger of what
//! each address holds.

pub mod address;
pub mod ledger;
pub mod mnemonic;

pub use ledger::{credit_initial, get_balance, transfer, Ledger};

use crate::error::DerivationError;
use address::{address_from_seed, is_address, seed_address};
use ledger::total;
use mnemonic::{
    encode_entropy, entropy_phrase, has_twelve_words, os_entropy, phrase_seed, stretch_phrase,
};
use vstd::pervasive::unreached;
use vstd::prelude::*;

verus! {

/// What a new wallet is credited with.
pub const INITIAL_BALANCE: u64 = 1000;

/// An address and what it holds.
#[derive(Debug, Clone)]
pub struct Account {
    pub address: String,
    pub balance: u128,
}

/// The address that a recovery phrase leads to, if the phrase is valid.
pub open spec fn phrase_address(phrase: Seq<char>) -> Option<Seq<char>> {
    match phrase_seed(phrase) {
        Some(seed) => Some(seed_address(seed)),
        None => None,
    }
}

/// The wallet that 128 bits of entropy lead to, address first and recovery
/// phrase second, if the phrase that encodes them is valid.
pub open spec fn entropy_wallet(entropy: Seq<u8>) -> Option<(Seq<char>, Seq<char>)> {
    match phrase_address(entropy_phrase(entropy)) {
        Some(address) => Some((address, entropy_phrase(entropy))),
        None => None,
    }
}

/// Importing the recovery phrase of the wallet that some entropy leads to
/// gives that wallet's address.
pub proof fn lemma_import_recovers_address(entropy: Seq<u8>)
    ensures
        entropy_wallet(entropy) matches Some((address, phrase)) ==> phrase_address(phrase) == Some(
            address,
        ),
{
}

/// Derives address and recovery phrase from `entropy`.
pub fn wallet_from_entropy(entropy: &[u8; 16]) -> (wallet: Result<(String, String), DerivationError>)
    ensures
        match entropy_wallet(entropy@) {
            Some((address, phrase)) => wallet matches Ok((a, p)) && a@ == address && p@ == phrase
                && is_address(address) && has_twelve_words(phrase),
            None => wallet == Err::<(String, String), DerivationError>(
                DerivationError::InvalidPhrase,
            ),
        },
{
    let phrase = match encode_entropy(entropy) {
        Ok(phrase) => phrase,
        Err(_) => unreached(),
    };
    match stretch_phrase(phrase.as_str()) {
        Ok(seed) => Ok((address_from_seed(seed.as_slice()), phrase)),
        Err(_) => Err(DerivationError::InvalidPhrase),
    }
}

/// The random source was unavailable: there is no wallet, and the table of
/// balances is as it was.
pub open spec fn unavailable(
    before: Map<Seq<char>, nat>,
    after: Map<Seq<char>, nat>,
    wallet: Result<(String, String), DerivationError>,
) -> bool {
    &&& wallet == Err::<(String, String), DerivationError>(
        DerivationError::RandomSourceUnavailable,
    )
    &&& after == before
}

/// What creating a wallet from `entropy` returns and does to the table of
/// balances: the wallet that the entropy leads to, with its address credited;
/// or, where the entropy leads to no wallet, an invalid phrase and the table
/// as it was.
pub open spec fn created_from(
    before: Map<Seq<char>, nat>,
    after: Map<Seq<char>, nat>,
    wallet: Result<(String, String), DerivationError>,
    entropy: Seq<u8>,
) -> bool {
    match entropy_wallet(entropy) {
        Some((address, phrase)) => {
            &&& wallet matches Ok((a, p)) && a@ == address && p@ == phrase
            &&& is_address(address)
            &&& has_twelve_words(phrase)
            &&& after == before.insert(address, INITIAL_BALANCE as nat)
        },
        None => {
            &&& wallet == Err::<(String, String), DerivationError>(DerivationError::InvalidPhrase)
            &&& after == before
        },
    }
}

/// Derives a wallet from `entropy` and credits its address with the initial
/// balance. Where no wallet comes of it, the ledger stays as it is.
pub fn create_wallet_from(ledger: &mut Ledger, entropy: &[u8; 16]) -> (wallet: Result<
    (String, String),
    DerivationError,
>)
    requires
        old(ledger).wf(),
        total(old(ledger)@) + INITIAL_BALANCE <= u128::MAX,
    ensures
        final(ledger).wf(),
        created_from(old(ledger)@, final(ledger)@, wallet, entropy@),
{
    match wallet_from_entropy(entropy) {
        Ok((address, phrase)) => {
            credit_initial(ledger, address.as_str(), INITIAL_BALANCE);
            Ok((address, phrase))
        },
        Err(error) => Err(error),
    }
}

/// Creates a wallet from what the random source gave: from the entropy, if
/// it gave any, as `create_wallet_from` does; and where it gave none, there
/// is no wallet, the random source was unavailable and the ledger stays as it
/// is.
pub fn create_wallet_with(ledger: &mut Ledger, drawn: &Result<[u8; 16], rand::Error>) -> (wallet:
    Result<(String, String), DerivationError>)
    requires
        old(ledger).wf(),
        total(old(ledger)@) + INITIAL_BALANCE <= u128::MAX,
    ensures
        final(ledger).wf(),
        match drawn {
            Ok(entropy) => created_from(old(ledger)@, final(ledger)@, wallet, entropy@),
            Err(_) => unavailable(old(ledger)@, final(ledger)@, wallet),
        },
{
    match drawn {
        Ok(entropy) => create_wallet_from(ledger, entropy),
        Err(_) => Err(DerivationError::RandomSourceUnavailable),
    }
}

/// Creates a wallet from fresh entropy of the operating system and credits
/// its address with the initial balance. The password hash plays no part.
///
/// It fails in two ways only, and then the ledger stays as it is: the random
/// source gave nothing; or the 128 bits that it gave lead to no wallet.
pub fn create_wallet(ledger: &mut Ledger, _password_hash: &str) -> (wallet: Result<
    (String, String),
    DerivationError,
>)
    requires
        old(ledger).wf(),
        total(old(ledger)@) + INITIAL_BALANCE <= u128::MAX,
    ensures
        final(ledger).wf(),
        unavailable(old(ledger)@, final(ledger)@, wallet) || exists|entropy: Seq<u8>|
            entropy.len() == 16 && #[trigger] created_from(
                old(ledger)@,
                final(ledger)@,
                wallet,
                entropy,
            ),
        match wallet {
            Ok((address, phrase)) => {
                &&& is_address(address@)
                &&& has_twelve_words(phrase@)
                &&& phrase_address(phrase@) == Some(address@)
                &&& exists|entropy: Seq<u8>|
                    entropy.len() == 16 && #[trigger] entropy_phrase(entropy) == phrase@
                &&& final(ledger)@ == old(ledger)@.insert(address@, INITIAL_BALANCE as nat)
            },
            Err(_) => final(ledger)@ == old(ledger)@,
        },
{
    let drawn = os_entropy();
    let wallet = create_wallet_with(ledger, &drawn);
    proof {
        if let Ok(entropy) = drawn {
            assert(created_from(old(ledger)@, ledger@, wallet, entropy@));
        }
    }
    wallet
}

/// The address of the wallet that `mnemonic` is the recovery phrase of.
pub fn import_wallet_from_mnemonic(mnemonic: &str) -> (address: Result<String, DerivationError>)
    ensures
        match phrase_address(mnemonic@) {
            Some(expected) => address matches Ok(a) && a@ == expected && is_address(expected),
            None => address == Err::<String, DerivationError>(DerivationError::InvalidPhrase),
        },
{
    match stretch_phrase(mnemonic) {
        Ok(seed) => Ok(address_from_seed(seed.as_slice())),
        Err(_) => Err(DerivationError::InvalidPhrase),
    }
}

} // verus!

//! Recovery phrases and the entropy behind them.

use bip39::{Language, Mnemonic};
use rand::rngs::OsRng;
use rand::RngCore;
use vstd::prelude::*;

verus! {

/// The error of `bip39`, carried through unread.
#[verifier::external_type_specification]
#[verifier::external_body]
pub struct ExMnemonicError(bip39::Error);

/// The error of `rand`, carried through unread.
#[verifier::external_type_specification]
#[verifier::external_body]
pub struct ExRandomError(rand::Error);

/// The English recovery phrase that encodes `entropy`: its words, each
/// followed by one space but the last.
pub uninterp spec fn entropy_phrase(entropy: Seq<u8>) -> Seq<char>;

/// The seed of a recovery phrase, stretched with an empty passphrase, or
/// `None` where the text is no valid English recovery phrase: a wrong number
/// of words, a word outside the word list, or a checksum that does not match.
pub uninterp spec fn phrase_seed(phrase: Seq<char>) -> Option<Seq<u8>>;

/// Whether `text` holds twelve words: eleven spaces stand between them.
pub open spec fn has_twelve_words(text: Seq<char>) -> bool {
    text.filter(|c: char| c == ' ').len() == 11
}

/// Calls `bip39::Mnemonic::from_entropy_in` for the English word list and
/// writes the mnemonic out with its `Display`. Trusted: on 128 bits the call
/// succeeds, the text is the phrase that `entropy_phrase` names, and it is
/// twelve words of the list with one space between two.
#[verifier::external_body]
pub(crate) fn encode_entropy(entropy: &[u8; 16]) -> (encoded: Result<String, bip39::Error>)
    ensures
        encoded is Ok,
        encoded matches Ok(phrase) ==> phrase@ == entropy_phrase(entropy@),
        encoded matches Ok(phrase) ==> has_twelve_words(phrase@),
{
    match Mnemonic::from_entropy_in(Language::English, entropy) {
        Ok(mnemonic) => Ok(mnemonic.to_string()),
        Err(error) => Err(error),
    }
}

/// Calls `bip39::Mnemonic::parse_in` for the English word list and, on the
/// mnemonic that it accepted, `to_seed` with an empty passphrase. Trusted:
/// the outcome is the one that `phrase_seed` names.
#[verifier::external_body]
pub(crate) fn stretch_phrase(phrase: &str) -> (stretched: Result<Vec<u8>, bip39::Error>)
    ensures
        stretched is Ok <==> phrase_seed(phrase@) is Some,
        stretched matches Ok(seed) ==> phrase_seed(phrase@) == Some(seed@),
{
    match Mnemonic::parse_in(Language::English, phrase) {
        Ok(mnemonic) => Ok(mnemonic.to_seed("").to_vec()),
        Err(error) => Err(error),
    }
}

/// Calls `try_fill_bytes` of `rand::rngs::OsRng` on sixteen bytes. Nothing is
/// claimed of the bytes: they differ from call to call.
#[verifier::external_body]
pub(crate) fn os_entropy() -> (drawn: Result<[u8; 16], rand::Error>) {
    let mut entropy = [0u8; 16];
    match OsRng.try_fill_bytes(&mut entropy) {
        Ok(()) => Ok(entropy),
        Err(error) => Err(error),
    }
}

} // verus!

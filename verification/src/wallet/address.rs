//! The text form of an address, and the address that belongs to a seed.

use crate::digest::{hex_encode, hex_lower, is_lower_hex, keccak256, keccak256_digest};
use vstd::prelude::*;
use vstd::slice::slice_subrange;
use vstd::string::*;

verus! {

/// An address is the tag `FAIC` and forty lower-case hexadecimal digits.
pub open spec fn is_address(text: Seq<char>) -> bool {
    &&& text.len() == 44
    &&& text[0] == 'F'
    &&& text[1] == 'A'
    &&& text[2] == 'I'
    &&& text[3] == 'C'
    &&& forall|i: int| 4 <= i < 44 ==> is_lower_hex(#[trigger] text[i])
}

/// The address of a seed: the seed is hashed to key material, the key
/// material is hashed again, and the first twenty bytes of that digest are
/// written in hexadecimal behind the tag.
pub open spec fn seed_address(seed: Seq<u8>) -> Seq<char> {
    seq!['F', 'A', 'I', 'C'] + hex_lower(keccak256(keccak256(seed)).subrange(0, 20))
}

fn is_lower_hex_char(c: char) -> (yes: bool)
    ensures
        yes == is_lower_hex(c),
{
    let code = c as u32;
    (48 <= code && code <= 57) || (97 <= code && code <= 102)
}

/// Whether `text` has the form of an address.
pub fn is_valid_address(text: &str) -> (valid: bool)
    ensures
        valid == is_address(text@),
{
    if text.unicode_len() != 44 {
        return false;
    }
    if text.get_char(0) != 'F' || text.get_char(1) != 'A' || text.get_char(2) != 'I'
        || text.get_char(3) != 'C' {
        return false;
    }
    let mut i: usize = 4;
    while i < 44
        invariant
            4 <= i <= 44,
            text@.len() == 44,
            forall|j: int| 4 <= j < i ==> is_lower_hex(#[trigger] text@[j]),
        decreases 44 - i,
    {
        if !is_lower_hex_char(text.get_char(i)) {
            return false;
        }
        i += 1;
    }
    true
}

/// The address of `seed`.
pub fn address_from_seed(seed: &[u8]) -> (address: String)
    ensures
        address@ == seed_address(seed@),
        is_address(address@),
{
    let key = keccak256_digest(seed);
    let hash = keccak256_digest(key.as_slice());
    let head = slice_subrange(hash.as_slice(), 0, 20);
    let digits = hex_encode(head);
    proof {
        reveal_strlit("FAIC");
    }
    String::from_str("FAIC").concat(digits.as_str())
}

} // verus!

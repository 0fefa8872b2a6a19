//! Transaction hashes and their canonical text.

use vstd::prelude::*;

verus! {

/// A transaction hash: 32 bytes. It is also the identifier by which a
/// transaction is fetched.
pub type TxHash = [u8; 32];

/// The sixteen lower-case hexadecimal digits, by value.
pub open spec fn hex_digits() -> Seq<char> {
    seq!['0', '1', '2', '3', '4', '5', '6', '7', '8', '9', 'a', 'b', 'c', 'd', 'e', 'f']
}

/// The digit at place `i` of the hexadecimal text of `bytes`: two digits per
/// byte, the high half first.
pub open spec fn hex_digit_at(bytes: Seq<u8>, i: int) -> char {
    if i % 2 == 0 {
        hex_digits()[bytes[i / 2] as int / 16]
    } else {
        hex_digits()[bytes[i / 2] as int % 16]
    }
}

/// The canonical text of a hash: `0x`, then two lower-case hexadecimal digits
/// for each byte, in order.
pub open spec fn canonical_text(bytes: Seq<u8>) -> Seq<char> {
    seq!['0', 'x'] + Seq::new(2 * bytes.len(), |i: int| hex_digit_at(bytes, i))
}

/// Trusted: `Debug` formatting of `ethers::types::H256`.
///
/// The contract claims that the formatted text is `0x` followed by each of the
/// 32 bytes as two lower-case hexadecimal digits, which is what the `Debug`
/// impl of the hash type writes (it formats with `{:#x}`, and the lower-hex
/// impl writes `0x` and then `{:02x}` of every byte).
#[verifier::external_body]
pub(crate) fn h256_debug_text(hash: &TxHash) -> (text: String)
    ensures
        text@ == canonical_text(hash@),
{
    format!("{:?}", ethers::types::H256(*hash))
}

} // verus!

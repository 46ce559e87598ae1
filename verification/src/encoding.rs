//! Bytes written as text.

use vstd::prelude::*;

verus! {

/// The digit of a six-bit value.
pub open spec fn base64_digit(value: int) -> char {
    "ABCDEFGHIJKLMNOPQRSTUVWXYZabcdefghijklmnopqrstuvwxyz0123456789+/"@[value]
}

/// A byte, or zero behind the last one.
pub open spec fn byte_or_zero(bytes: Seq<u8>, at: int) -> int {
    if at < bytes.len() {
        bytes[at] as int
    } else {
        0
    }
}

/// A character of the padded text: four of them stand for three bytes.
pub open spec fn base64_char(bytes: Seq<u8>, at: int) -> char {
    let group = 3 * (at / 4);
    let first = byte_or_zero(bytes, group);
    let second = byte_or_zero(bytes, group + 1);
    let third = byte_or_zero(bytes, group + 2);
    if at % 4 == 0 {
        base64_digit(first / 4)
    } else if at % 4 == 1 {
        base64_digit(first % 4 * 16 + second / 16)
    } else if at % 4 == 2 {
        if group + 1 < bytes.len() {
            base64_digit(second % 16 * 4 + third / 64)
        } else {
            '='
        }
    } else if group + 2 < bytes.len() {
        base64_digit(third % 64)
    } else {
        '='
    }
}

/// Bytes in the standard base64 alphabet, with padding.
pub open spec fn base64_of(bytes: Seq<u8>) -> Seq<char> {
    Seq::new((4 * ((bytes.len() + 2) / 3)) as nat, |at: int| base64_char(bytes, at))
}

/// Writes bytes in base64.
///
/// This is `Engine::encode` of the crate `base64` with its engine `STANDARD`: the alphabet that ends
/// in `+/`, and padding to full groups of four characters. The contract claims that the text is the
/// one that `base64_of` describes. `encode` panics where the length of the text does not fit into
/// `usize`; no such input is admitted.
#[verifier::external_body]
pub(crate) fn encode_base64(bytes: &Vec<u8>) -> (res: String)
    requires
        bytes@.len() <= usize::MAX / 4,
    ensures
        res@ == base64_of(bytes@),
{
    base64::Engine::encode(&base64::engine::general_purpose::STANDARD, bytes)
}

} // verus!

//! Checking a downloaded model file's SHA-256 digest against the registry's expected value.

use vstd::prelude::*;

use crate::text::{eq_ignore_ascii_case, eq_ignore_ascii_case_spec};

verus! {

/// The lowercase hexadecimal digit for `n < 16`.
pub open spec fn hex_digit(n: nat) -> char {
    if n < 10 {
        (0x30 + n) as char
    } else {
        (0x61 + n - 10) as char
    }
}

/// Bytes as lowercase hexadecimal text, two digits per byte, high nibble first.
pub open spec fn lower_hex(b: Seq<u8>) -> Seq<char>
    decreases b.len(),
{
    if b.len() == 0 {
        seq![]
    } else {
        lower_hex(b.drop_last()) + seq![hex_digit((b.last() / 16) as nat), hex_digit((b.last() % 16) as nat)]
    }
}

/// `hex::encode`: the bytes as lowercase hexadecimal text, two digits per byte in order.
#[verifier::external_body]
fn hex_encode(bytes: &[u8]) -> (r: String)
    ensures
        r@ == lower_hex(bytes@),
{
    hex::encode(bytes)
}

/// Whether a computed digest matches the expected hexadecimal text (ASCII case ignored).
pub fn digest_matches(digest: &[u8], expected_hex: &str) -> (r: bool)
    ensures
        r == eq_ignore_ascii_case_spec(lower_hex(digest@), expected_hex@),
{
    let actual = hex_encode(digest);
    eq_ignore_ascii_case(actual.as_str(), expected_hex)
}

} // verus!

//! Lower-case hexadecimal text of byte strings.

use vstd::prelude::*;

verus! {

/// The character that writes the hexadecimal digit `d` in lower case, for
/// `d` below sixteen.
pub open spec fn hex_digit_char(d: nat) -> char {
    if d < 10 {
        ('0' as nat + d) as char
    } else {
        ('a' as nat + d - 10) as char
    }
}

/// Whether `c` is a lower-case hexadecimal digit.
pub open spec fn is_hex_digit(c: char) -> bool {
    '0' <= c <= '9' || 'a' <= c <= 'f'
}

/// The hexadecimal text of `bytes`: two lower-case digits for each byte, the
/// high half first, in the order of the bytes and with no prefix.
pub open spec fn lower_hex(bytes: Seq<u8>) -> Seq<char> {
    Seq::new(
        2 * bytes.len(),
        |i: int|
            if i % 2 == 0 {
                hex_digit_char((bytes[i / 2] / 16) as nat)
            } else {
                hex_digit_char((bytes[i / 2] % 16) as nat)
            },
    )
}

/// Whether `text` is the hexadecimal text of some bytes: lower-case
/// hexadecimal digits only, and an even number of them.
pub open spec fn is_hex_text(text: Seq<char>) -> bool {
    &&& text.len() % 2 == 0
    &&& forall|i: int| 0 <= i < text.len() ==> is_hex_digit(#[trigger] text[i])
}

/// The hexadecimal text of bytes is twice as long as the bytes and holds
/// hexadecimal digits only.
pub proof fn lemma_lower_hex_shape(bytes: Seq<u8>)
    ensures
        lower_hex(bytes).len() == 2 * bytes.len(),
        is_hex_text(lower_hex(bytes)),
{
}

/// Renders `bytes` in lower-case hexadecimal.
///
/// Trusted: the text is that of `substreams::Hex(bytes).to_string()`, which
/// writes each byte as its two-digit entry of a table from `"00"` to `"ff"`
/// and the empty text for no bytes.
#[verifier::external_body]
pub(crate) fn hex_string(bytes: &[u8]) -> (text: String)
    ensures
        text@ == lower_hex(bytes@),
{
    substreams::Hex(bytes).to_string()
}

} // verus!

//! Unsigned integers of any size, as events carry them.

use vstd::prelude::*;
use crate::decimal::decimal_digits;

verus! {

/// The number that `bytes` write in base 256, most significant byte first.
/// Leading zero bytes do not count, and no bytes write zero.
pub open spec fn be_value(bytes: Seq<u8>) -> nat
    decreases bytes.len(),
{
    if bytes.len() == 0 {
        0
    } else {
        be_value(bytes.drop_last()) * 256 + bytes.last() as nat
    }
}

/// An unsigned integer held as its big-endian bytes: a token amount or a
/// token identifier of a decoded event. Its view is the number; `==`
/// compares the bytes, so that a leading zero byte tells two values apart.
#[derive(Clone, Debug, PartialEq, Eq)]
pub struct BigUint {
    pub bytes_be: Vec<u8>,
}

impl View for BigUint {
    type V = nat;

    open spec fn view(&self) -> nat {
        be_value(self.bytes_be@)
    }
}

impl BigUint {
    /// The number in decimal.
    pub fn to_decimal(&self) -> (text: String)
        ensures
            text@ == decimal_digits(self@),
    {
        decimal_of_be_bytes(self.bytes_be.as_slice())
    }
}

/// Renders in decimal the number that `bytes` write in big-endian order.
///
/// Trusted: the text is that of
/// `substreams::scalar::BigInt::from_unsigned_bytes_be(bytes).to_string()`.
/// The first call reads the bytes as a non-negative number, zero for no
/// bytes; the second writes a non-negative number as its decimal digits,
/// without sign or leading zero, and zero as `"0"`.
#[verifier::external_body]
pub(crate) fn decimal_of_be_bytes(bytes: &[u8]) -> (text: String)
    ensures
        text@ == decimal_digits(be_value(bytes@)),
{
    substreams::scalar::BigInt::from_unsigned_bytes_be(bytes).to_string()
}

} // verus!

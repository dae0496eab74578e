//! Hexadecimal decoding, specified exactly and performed by the `hex` crate.

use vstd::prelude::*;

verus! {

/// A character that `hex::decode` accepts: a decimal digit or a hexadecimal
/// letter of either case.
pub open spec fn is_hex_digit(c: char) -> bool {
    ||| ('0' as int) <= (c as int) <= ('9' as int)
    ||| ('a' as int) <= (c as int) <= ('f' as int)
    ||| ('A' as int) <= (c as int) <= ('F' as int)
}

/// The numeric value of one hexadecimal digit.
pub open spec fn hex_digit_val(c: char) -> int {
    if ('0' as int) <= (c as int) <= ('9' as int) {
        (c as int) - ('0' as int)
    } else if ('a' as int) <= (c as int) <= ('f' as int) {
        (c as int) - ('a' as int) + 10
    } else if ('A' as int) <= (c as int) <= ('F' as int) {
        (c as int) - ('A' as int) + 10
    } else {
        0
    }
}

/// The byte written as the digit pair `hi`, `lo`.
pub open spec fn hex_pair_val(hi: char, lo: char) -> u8 {
    (hex_digit_val(hi) * 16 + hex_digit_val(lo)) as u8
}

/// Whether a string is decodable hexadecimal: even length, digits only.
pub open spec fn hex_ok(s: Seq<char>) -> bool {
    &&& s.len() % 2 == 0
    &&& forall|i: int| 0 <= i < s.len() ==> is_hex_digit(#[trigger] s[i])
}

/// The bytes a decodable hexadecimal string stands for, one byte per digit
/// pair, high digit first.
pub open spec fn hex_decode_seq(s: Seq<char>) -> Seq<u8> {
    Seq::new(s.len() / 2, |i: int| hex_pair_val(s[2 * i], s[2 * i + 1]))
}

/// Relies on `hex::decode`: it succeeds exactly on even-length strings made
/// of hexadecimal digits (either case), and then returns one byte per digit
/// pair, high digit first. On failure the error's description is handed back.
#[verifier::external_body]
pub(crate) fn hex_decode(s: &str) -> (r: Result<Vec<u8>, String>)
    ensures
        r is Ok <==> hex_ok(s@),
        (r matches Ok(v) ==> v@ == hex_decode_seq(s@)),
{
    hex::decode(s).map_err(|e| format!("{}", e))
}

} // verus!

//! Hexadecimal digits and turning characters into a `String`.

use vstd::prelude::*;
use crate::types::hex_digit_value;

verus! {

/// The hexadecimal digit for `n` (0 to 15), in upper or lower case.
pub open spec fn hex_digit(n: int, upper: bool) -> char {
    if n < 10 {
        (48 + n) as char
    } else if upper {
        (55 + n) as char
    } else {
        (87 + n) as char
    }
}

/// A hexadecimal digit is `0`–`9` for values below ten and a letter from
/// `a`/`A` on for the rest; in upper case it reads back as its value.
pub proof fn lemma_hex_digit_reads_back(n: int)
    requires
        0 <= n < 16,
    ensures
        hex_digit_value(hex_digit(n, true)) == n,
        n < 10 ==> hex_digit(n, false) == hex_digit(n, true) && hex_digit(n, true) as int == '0' as int + n,
        n >= 10 ==> hex_digit(n, true) as int == 'A' as int + (n - 10)
            && hex_digit(n, false) as int == 'a' as int + (n - 10),
{
}

/// The hexadecimal digit for `n` (0 to 15), in upper or lower case.
pub fn hex_digit_char(n: u8, upper: bool) -> (c: char)
    requires
        n < 16,
    ensures
        c == hex_digit(n as int, upper),
{
    if n < 10 {
        (48u8 + n) as char
    } else if upper {
        (55u8 + n) as char
    } else {
        (87u8 + n) as char
    }
}

/// `std`'s `String::from_iter` over owned characters: the string holds
/// exactly the given characters, in order.
#[verifier::external_body]
pub(crate) fn string_from_chars(chars: Vec<char>) -> (s: String)
    ensures
        s@ == chars@,
{
    String::from_iter(chars)
}

} // verus!

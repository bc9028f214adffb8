use vstd::prelude::*;
use vstd::utf8::{valid_utf8, decode_utf8};

verus! {

/// `std::string::String::from_utf8`: the text that `bytes` encode when they are valid UTF-8
/// (the library's documentation), nothing otherwise.
#[verifier::external_body]
pub(crate) fn string_from_utf8(bytes: Vec<u8>) -> (r: Option<String>)
    ensures
        r is Some <==> valid_utf8(bytes@),
        r matches Some(s) ==> s@ == decode_utf8(bytes@),
{
    String::from_utf8(bytes).ok()
}

/// The character of decimal digit `d`.
pub open spec fn digit_char(d: nat) -> char {
    if d == 0 {
        '0'
    } else if d == 1 {
        '1'
    } else if d == 2 {
        '2'
    } else if d == 3 {
        '3'
    } else if d == 4 {
        '4'
    } else if d == 5 {
        '5'
    } else if d == 6 {
        '6'
    } else if d == 7 {
        '7'
    } else if d == 8 {
        '8'
    } else {
        '9'
    }
}

/// The decimal digits of `n`, most significant first, without leading zeros.
pub open spec fn decimal(n: nat) -> Seq<char>
    decreases n,
{
    if n < 10 {
        seq![digit_char(n)]
    } else {
        decimal(n / 10).push(digit_char(n % 10))
    }
}

/// The decimal text of an integer: a minus sign before the digits of a negative number.
pub open spec fn signed_decimal(n: int) -> Seq<char> {
    if n < 0 {
        seq!['-'] + decimal((-n) as nat)
    } else {
        decimal(n as nat)
    }
}

/// `u32::to_string` (its `Display`): the decimal digits of `x`.
#[verifier::external_body]
pub(crate) fn u32_to_text(x: u32) -> (r: String)
    ensures
        r@ == decimal(x as nat),
{
    x.to_string()
}

/// `i32::to_string` (its `Display`): the decimal digits of `x`, after a minus sign when negative.
#[verifier::external_body]
pub(crate) fn i32_to_text(x: i32) -> (r: String)
    ensures
        r@ == signed_decimal(x as int),
{
    x.to_string()
}

} // verus!

//! Building text: characters, words and numbers appended to a string.

use vstd::prelude::*;
use vstd::string::StringExecFns;

verus! {

/// `String::push` appends the given character to the end of the string.
pub assume_specification[ String::push ](s: &mut String, ch: char)
    ensures
        final(s)@ == old(s)@.push(ch),
;

/// The ten decimal digits.
pub open spec fn digits() -> Seq<char> {
    seq!['0', '1', '2', '3', '4', '5', '6', '7', '8', '9']
}

/// A number in decimal notation, without leading zeros.
pub open spec fn decimal(n: nat) -> Seq<char>
    decreases n,
{
    if n < 10 {
        seq![digits()[n as int]]
    } else {
        decimal(n / 10).push(digits()[(n % 10) as int])
    }
}

/// A number of tenths in decimal notation: the whole part, and after a point
/// the tenths where there are any. Ten tenths are `1`, fifteen are `1.5`.
pub open spec fn decimal_tenths(tenths: nat) -> Seq<char> {
    if tenths % 10 == 0 {
        decimal(tenths / 10)
    } else {
        decimal(tenths / 10).push('.').push(digits()[(tenths % 10) as int])
    }
}

/// The digit that stands for `d`.
pub fn digit(d: u32) -> (c: char)
    requires
        d < 10,
    ensures
        c == digits()[d as int],
{
    if d == 0 {
        '0'
    } else if d == 1 {
        '1'
    } else if d == 2 {
        '2'
    } else if d == 3 {
        '3'
    } else if d == 4 {
        '4'
    } else if d == 5 {
        '5'
    } else if d == 6 {
        '6'
    } else if d == 7 {
        '7'
    } else if d == 8 {
        '8'
    } else {
        '9'
    }
}

/// Appends `n` in decimal notation.
pub fn push_decimal(s: &mut String, n: u32)
    ensures
        final(s)@ == old(s)@ + decimal(n as nat),
    decreases n,
{
    if n >= 10 {
        push_decimal(s, n / 10);
    }
    s.push(digit(n % 10));
    assert(s@ =~= old(s)@ + decimal(n as nat));
}

/// Appends a number of tenths in decimal notation.
pub fn push_tenths(s: &mut String, tenths: u32)
    ensures
        final(s)@ == old(s)@ + decimal_tenths(tenths as nat),
{
    push_decimal(s, tenths / 10);
    let rest: u32 = tenths % 10;
    if rest != 0 {
        s.push('.');
        s.push(digit(rest));
    }
    assert(s@ =~= old(s)@ + decimal_tenths(tenths as nat));
}

/// Appends a word.
pub fn push_word(s: &mut String, word: &str)
    ensures
        final(s)@ == old(s)@ + word@,
{
    s.append(word);
}

/// `n` in decimal notation.
pub fn decimal_string(n: u32) -> (s: String)
    ensures
        s@ == decimal(n as nat),
{
    let mut s: String = String::new();
    push_decimal(&mut s, n);
    assert(s@ =~= decimal(n as nat));
    s
}

} // verus!

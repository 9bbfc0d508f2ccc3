//! Numbers as text: the digits of a number in base ten and in base sixteen.

use vstd::prelude::*;
use vstd::string::*;

verus! {

/// The sixteen digits, in order of their value; the letters are lower case.
pub open spec fn digits() -> Seq<char> {
    seq!['0', '1', '2', '3', '4', '5', '6', '7', '8', '9', 'a', 'b', 'c', 'd', 'e', 'f']
}

/// `n` in decimal notation: most significant digit first, without leading
/// zeros; zero is written as one digit.
pub open spec fn decimal(n: nat) -> Seq<char>
    decreases n,
{
    if n < 10 {
        seq![digits()[n as int]]
    } else {
        decimal(n / 10).push(digits()[(n % 10) as int])
    }
}

/// `n` in hexadecimal notation, with lower-case letters: most significant
/// digit first, without leading zeros; zero is written as one digit.
pub open spec fn hexadecimal(n: nat) -> Seq<char>
    decreases n,
{
    if n < 16 {
        seq![digits()[n as int]]
    } else {
        hexadecimal(n / 16).push(digits()[(n % 16) as int])
    }
}

/// The value of a digit; a character that is no digit has none.
pub open spec fn digit_value(c: char) -> Option<nat> {
    if exists|d: nat| d < 16 && digits()[d as int] == c {
        Some(choose|d: nat| d < 16 && digits()[d as int] == c)
    } else {
        None
    }
}

/// The number that `s` writes in base `base`, most significant digit first,
/// if every character of `s` is a digit of that base.
pub open spec fn number(s: Seq<char>, base: nat) -> Option<nat>
    decreases s.len(),
{
    if s.len() == 0 {
        Some(0)
    } else {
        match (number(s.drop_last(), base), digit_value(s.last())) {
            (Some(front), Some(last)) if last < base => Some(front * base + last),
            _ => None,
        }
    }
}

/// Each of the sixteen digits has its place in [`digits`] as its value.
pub proof fn lemma_digit_value(d: nat)
    requires
        d < 16,
    ensures
        digit_value(digits()[d as int]) == Some(d),
{
    let c = digits()[d as int];
    let found = choose|e: nat| e < 16 && digits()[e as int] == c;
    assert(found == d);
}

/// Decimal notation reads back: `decimal(n)` writes `n` and no other number,
/// and begins with a zero only where `n` is zero.
pub proof fn lemma_decimal_reads_back(n: nat)
    ensures
        number(decimal(n), 10) == Some(n),
        decimal(n).len() >= 1,
        decimal(n)[0] == '0' <==> n == 0,
    decreases n,
{
    lemma_digit_value(n % 10);
    if n >= 10 {
        lemma_decimal_reads_back(n / 10);
        assert(decimal(n).drop_last() =~= decimal(n / 10));
    } else {
        assert(decimal(n).drop_last() =~= Seq::<char>::empty());
    }
}

/// Hexadecimal notation reads back: `hexadecimal(n)` writes `n` and no other
/// number, and begins with a zero only where `n` is zero.
pub proof fn lemma_hexadecimal_reads_back(n: nat)
    ensures
        number(hexadecimal(n), 16) == Some(n),
        hexadecimal(n).len() >= 1,
        hexadecimal(n)[0] == '0' <==> n == 0,
    decreases n,
{
    lemma_digit_value(n % 16);
    if n >= 16 {
        lemma_hexadecimal_reads_back(n / 16);
        assert(hexadecimal(n).drop_last() =~= hexadecimal(n / 16));
    } else {
        assert(hexadecimal(n).drop_last() =~= Seq::<char>::empty());
    }
}

/// The digit of value `d` as a string of one character.
fn digit(d: u32) -> (s: &'static str)
    requires
        d < 16,
    ensures
        s@ == seq![digits()[d as int]],
{
    proof {
        reveal_strlit("0");
        reveal_strlit("1");
        reveal_strlit("2");
        reveal_strlit("3");
        reveal_strlit("4");
        reveal_strlit("5");
        reveal_strlit("6");
        reveal_strlit("7");
        reveal_strlit("8");
        reveal_strlit("9");
        reveal_strlit("a");
        reveal_strlit("b");
        reveal_strlit("c");
        reveal_strlit("d");
        reveal_strlit("e");
        reveal_strlit("f");
    }
    match d {
        0 => "0",
        1 => "1",
        2 => "2",
        3 => "3",
        4 => "4",
        5 => "5",
        6 => "6",
        7 => "7",
        8 => "8",
        9 => "9",
        10 => "a",
        11 => "b",
        12 => "c",
        13 => "d",
        14 => "e",
        _ => "f",
    }
}

/// Appends `n`, in decimal notation, to `out`.
pub fn push_decimal(out: &mut String, n: u32)
    ensures
        final(out)@ == old(out)@ + decimal(n as nat),
    decreases n,
{
    if n >= 10 {
        push_decimal(out, n / 10);
    }
    out.append(digit(n % 10));
}

/// Appends `n`, in hexadecimal notation with lower-case letters, to `out`.
pub fn push_hexadecimal(out: &mut String, n: u32)
    ensures
        final(out)@ == old(out)@ + hexadecimal(n as nat),
    decreases n,
{
    if n >= 16 {
        push_hexadecimal(out, n / 16);
    }
    out.append(digit(n % 16));
}

} // verus!

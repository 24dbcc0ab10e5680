//! Decimal text of a weight.
use vstd::prelude::*;
use vstd::string::*;

verus! {

/// The character of one decimal digit.
pub open spec fn digit_char(d: nat) -> char {
    if d == 0 {
        '0'
    } else if d == 1 {
        '1'
    } else if d == 2 {
        '2'
    } else if d == 3 {
        '3'
    } else if d == 4 {
        '4'
    } else if d == 5 {
        '5'
    } else if d == 6 {
        '6'
    } else if d == 7 {
        '7'
    } else if d == 8 {
        '8'
    } else {
        '9'
    }
}

/// The value of a decimal digit's character; zero for any other character.
pub open spec fn digit_value(c: char) -> nat {
    if c == '1' {
        1
    } else if c == '2' {
        2
    } else if c == '3' {
        3
    } else if c == '4' {
        4
    } else if c == '5' {
        5
    } else if c == '6' {
        6
    } else if c == '7' {
        7
    } else if c == '8' {
        8
    } else if c == '9' {
        9
    } else {
        0
    }
}

/// The decimal text of a number: most significant digit first, no sign, no
/// leading zero but for zero itself.
pub open spec fn decimal_text(n: nat) -> Seq<char>
    decreases n,
{
    if n < 10 {
        seq![digit_char(n)]
    } else {
        decimal_text(n / 10).push(digit_char(n % 10))
    }
}

/// The number that a sequence of digits denotes, read as decimal.
pub open spec fn decimal_value(text: Seq<char>) -> nat
    decreases text.len(),
{
    if text.len() == 0 {
        0
    } else {
        10 * decimal_value(text.drop_last()) + digit_value(text.last())
    }
}

/// Reading the decimal text of a number gives the number back, so two
/// different weights never share a text.
pub proof fn lemma_decimal_text_reads_back(n: nat)
    ensures
        decimal_value(decimal_text(n)) == n,
        decimal_text(n).len() >= 1,
    decreases n,
{
    if n < 10 {
        let t = decimal_text(n);
        assert(t.drop_last().len() == 0);
        assert(decimal_value(t.drop_last()) == 0);
        assert(t.last() == digit_char(n));
    } else {
        lemma_decimal_text_reads_back(n / 10);
        let t = decimal_text(n);
        assert(t.drop_last() =~= decimal_text(n / 10));
        assert(t.last() == digit_char(n % 10));
    }
}

/// Whether a character is a decimal digit.
pub open spec fn is_digit(c: char) -> bool {
    c == '0' || c == '1' || c == '2' || c == '3' || c == '4' || c == '5' || c == '6' || c == '7'
        || c == '8' || c == '9'
}

/// The decimal text of a number holds digits only, and starts with `0` for
/// zero alone.
pub proof fn lemma_decimal_text_is_canonical(n: nat)
    ensures
        forall|i: int| 0 <= i < decimal_text(n).len() ==> is_digit(#[trigger] decimal_text(n)[i]),
        decimal_text(n).len() >= 1,
        decimal_text(n)[0] == '0' <==> n == 0,
    decreases n,
{
    if n >= 10 {
        lemma_decimal_text_is_canonical(n / 10);
    }
}

/// The text of one decimal digit.
fn digit_text(d: u32) -> (text: &'static str)
    requires
        d < 10,
    ensures
        text@ =~= seq![digit_char(d as nat)],
{
    proof {
        reveal_strlit("0");
        reveal_strlit("1");
        reveal_strlit("2");
        reveal_strlit("3");
        reveal_strlit("4");
        reveal_strlit("5");
        reveal_strlit("6");
        reveal_strlit("7");
        reveal_strlit("8");
        reveal_strlit("9");
    }
    match d {
        0 => "0",
        1 => "1",
        2 => "2",
        3 => "3",
        4 => "4",
        5 => "5",
        6 => "6",
        7 => "7",
        8 => "8",
        _ => "9",
    }
}

/// Writes a weight as decimal text.
pub fn weight_text(weight: u32) -> (text: String)
    ensures
        text@ == decimal_text(weight as nat),
    decreases weight,
{
    if weight < 10 {
        let mut text = String::new();
        text.append(digit_text(weight));
        assert(text@ =~= decimal_text(weight as nat));
        text
    } else {
        let mut text = weight_text(weight / 10);
        text.append(digit_text(weight % 10));
        assert(text@ =~= decimal_text(weight as nat));
        text
    }
}

} // verus!

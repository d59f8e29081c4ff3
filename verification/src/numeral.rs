//! Decimal numerals, and the three numbers of a version joined by dots.

use vstd::prelude::*;

verus! {

/// The character for the digit `d`; `'9'` stands for every `d` above eight.
pub open spec fn digit_char(d: nat) -> char {
    if d == 0 {
        '0'
    } else if d == 1 {
        '1'
    } else if d == 2 {
        '2'
    } else if d == 3 {
        '3'
    } else if d == 4 {
        '4'
    } else if d == 5 {
        '5'
    } else if d == 6 {
        '6'
    } else if d == 7 {
        '7'
    } else if d == 8 {
        '8'
    } else {
        '9'
    }
}

/// The decimal numeral of `n`: no sign, no leading zero, `"0"` for zero.
pub open spec fn decimal(n: nat) -> Seq<char>
    decreases n,
{
    if n < 10 {
        seq![digit_char(n)]
    } else {
        decimal(n / 10).push(digit_char(n % 10))
    }
}

/// The numeral of one digit.
fn digit_str(d: u64) -> (r: &'static str)
    requires
        d < 10,
    ensures
        r@ == seq![digit_char(d as nat)],
{
    proof {
        reveal_strlit("0");
        reveal_strlit("1");
        reveal_strlit("2");
        reveal_strlit("3");
        reveal_strlit("4");
        reveal_strlit("5");
        reveal_strlit("6");
        reveal_strlit("7");
        reveal_strlit("8");
        reveal_strlit("9");
    }
    if d == 0 {
        "0"
    } else if d == 1 {
        "1"
    } else if d == 2 {
        "2"
    } else if d == 3 {
        "3"
    } else if d == 4 {
        "4"
    } else if d == 5 {
        "5"
    } else if d == 6 {
        "6"
    } else if d == 7 {
        "7"
    } else if d == 8 {
        "8"
    } else {
        "9"
    }
}

/// Renders `n` as its decimal numeral.
pub fn decimal_string(n: u64) -> (r: String)
    ensures
        r@ == decimal(n as nat),
    decreases n,
{
    if n < 10 {
        digit_str(n).to_owned()
    } else {
        let mut out = decimal_string(n / 10);
        out.append(digit_str(n % 10));
        out
    }
}

/// Whether `c` is one of the ten decimal digits.
pub open spec fn is_digit(c: char) -> bool {
    '0' <= c <= '9'
}

/// A decimal numeral is not empty and holds digits only.
pub proof fn lemma_decimal_digits(n: nat)
    ensures
        decimal(n).len() >= 1,
        forall|i: int| 0 <= i < decimal(n).len() ==> is_digit(#[trigger] decimal(n)[i]),
    decreases n,
{
    if n >= 10 {
        lemma_decimal_digits(n / 10);
    }
}

/// The numeral of a number other than zero does not begin with a zero.
pub proof fn lemma_decimal_no_leading_zero(n: nat)
    requires
        n > 0,
    ensures
        decimal(n)[0] != '0',
    decreases n,
{
    if n >= 10 {
        lemma_decimal_no_leading_zero(n / 10);
        lemma_decimal_digits(n / 10);
    }
}

/// The digit that `c` stands for; nine for every `c` that is not a digit.
pub open spec fn digit_value(c: char) -> nat {
    if c == '0' {
        0
    } else if c == '1' {
        1
    } else if c == '2' {
        2
    } else if c == '3' {
        3
    } else if c == '4' {
        4
    } else if c == '5' {
        5
    } else if c == '6' {
        6
    } else if c == '7' {
        7
    } else if c == '8' {
        8
    } else {
        9
    }
}

/// The number that the digits of `s` spell in base ten.
pub open spec fn numeral_value(s: Seq<char>) -> nat
    decreases s.len(),
{
    if s.len() == 0 {
        0
    } else {
        numeral_value(s.drop_last()) * 10 + digit_value(s.last())
    }
}

/// A decimal numeral spells the number it was made from.
pub proof fn lemma_decimal_value(n: nat)
    ensures
        numeral_value(decimal(n)) == n,
    decreases n,
{
    let s = decimal(n);
    if n < 10 {
        assert(numeral_value(s.drop_last()) == 0);
    } else {
        lemma_decimal_value(n / 10);
        assert(s.drop_last() == decimal(n / 10));
    }
}

/// Different numbers have different decimal numerals.
pub proof fn lemma_decimal_injective(a: nat, b: nat)
    requires
        decimal(a) == decimal(b),
    ensures
        a == b,
{
    lemma_decimal_value(a);
    lemma_decimal_value(b);
}

/// Whether `s` does not go on with a digit: it is empty or begins with
/// another character.
pub open spec fn ends_numeral(s: Seq<char>) -> bool {
    s.len() == 0 || !is_digit(s[0])
}

/// A text that begins with a decimal numeral, followed by something that is
/// no digit, begins with one numeral only: the number and the rest are
/// determined.
pub proof fn lemma_numeral_prefix(a: nat, rest_a: Seq<char>, b: nat, rest_b: Seq<char>)
    requires
        decimal(a) + rest_a == decimal(b) + rest_b,
        ends_numeral(rest_a),
        ends_numeral(rest_b),
    ensures
        a == b,
        rest_a == rest_b,
{
    let da = decimal(a);
    let db = decimal(b);
    let whole = da + rest_a;
    lemma_decimal_digits(a);
    lemma_decimal_digits(b);
    // Where one numeral ends, the other cannot go on: the text holds a digit
    // there on the one side and none on the other.
    if da.len() < db.len() {
        let at = da.len() as int;
        assert(whole[at] == rest_a[0]);
        assert(whole[at] == db[at]);
    }
    if db.len() < da.len() {
        let at = db.len() as int;
        assert(whole[at] == rest_b[0]);
        assert(whole[at] == da[at]);
    }
    assert(da =~= whole.subrange(0, da.len() as int));
    assert(db =~= whole.subrange(0, db.len() as int));
    assert(rest_a =~= whole.subrange(da.len() as int, whole.len() as int));
    assert(rest_b =~= whole.subrange(db.len() as int, whole.len() as int));
    lemma_decimal_injective(a, b);
}

/// `major.minor.patch` in decimal.
pub open spec fn triple_text(major: u64, minor: u64, patch: u64) -> Seq<char> {
    decimal(major as nat) + seq!['.'] + decimal(minor as nat) + seq!['.'] + decimal(patch as nat)
}

/// A text that begins with a numeral and a dot determines the number and
/// what follows the dot.
proof fn lemma_numeral_dot(a: nat, after_a: Seq<char>, b: nat, after_b: Seq<char>)
    requires
        decimal(a) + seq!['.'] + after_a == decimal(b) + seq!['.'] + after_b,
    ensures
        a == b,
        after_a == after_b,
{
    let rest_a = seq!['.'] + after_a;
    let rest_b = seq!['.'] + after_b;
    assert(decimal(a) + seq!['.'] + after_a =~= decimal(a) + rest_a);
    assert(decimal(b) + seq!['.'] + after_b =~= decimal(b) + rest_b);
    assert(rest_a[0] == '.' && rest_b[0] == '.');
    lemma_numeral_prefix(a, rest_a, b, rest_b);
    assert(after_a =~= rest_a.subrange(1, rest_a.len() as int));
    assert(after_b =~= rest_b.subrange(1, rest_b.len() as int));
}

/// A text that begins with three numerals joined by dots, followed by
/// something that is no digit, determines the three numbers and the rest.
pub proof fn lemma_triple_prefix(
    a: (u64, u64, u64),
    rest_a: Seq<char>,
    b: (u64, u64, u64),
    rest_b: Seq<char>,
)
    requires
        triple_text(a.0, a.1, a.2) + rest_a == triple_text(b.0, b.1, b.2) + rest_b,
        ends_numeral(rest_a),
        ends_numeral(rest_b),
    ensures
        a == b,
        rest_a == rest_b,
{
    let patch_a = decimal(a.2 as nat) + rest_a;
    let patch_b = decimal(b.2 as nat) + rest_b;
    let minor_a = decimal(a.1 as nat) + seq!['.'] + patch_a;
    let minor_b = decimal(b.1 as nat) + seq!['.'] + patch_b;
    assert(triple_text(a.0, a.1, a.2) + rest_a =~= decimal(a.0 as nat) + seq!['.'] + minor_a);
    assert(triple_text(b.0, b.1, b.2) + rest_b =~= decimal(b.0 as nat) + seq!['.'] + minor_b);
    lemma_numeral_dot(a.0 as nat, minor_a, b.0 as nat, minor_b);
    lemma_numeral_dot(a.1 as nat, patch_a, b.1 as nat, patch_b);
    lemma_numeral_prefix(a.2 as nat, rest_a, b.2 as nat, rest_b);
}

} // verus!

use vstd::prelude::*;

verus! {

/// The character of a decimal digit.
pub open spec fn digit_char(d: nat) -> char {
    if d == 0 { '0' }
    else if d == 1 { '1' }
    else if d == 2 { '2' }
    else if d == 3 { '3' }
    else if d == 4 { '4' }
    else if d == 5 { '5' }
    else if d == 6 { '6' }
    else if d == 7 { '7' }
    else if d == 8 { '8' }
    else { '9' }
}

/// The decimal text of a natural number, most significant digit first,
/// without leading zeros (zero is written "0").
pub open spec fn decimal(n: nat) -> Seq<char>
    decreases n,
{
    if n < 10 {
        seq![digit_char(n)]
    } else {
        decimal(n / 10).push(digit_char(n % 10))
    }
}

/// The decimal text of an integer: a minus sign before the digits of its
/// magnitude when it is negative.
pub open spec fn signed_decimal(i: int) -> Seq<char> {
    if i < 0 {
        seq!['-'] + decimal((-i) as nat)
    } else {
        decimal(i as nat)
    }
}

/// The value of a decimal digit character (`'0'` to `'9'`).
pub open spec fn digit_value(c: char) -> int {
    if c == '0' { 0 }
    else if c == '1' { 1 }
    else if c == '2' { 2 }
    else if c == '3' { 3 }
    else if c == '4' { 4 }
    else if c == '5' { 5 }
    else if c == '6' { 6 }
    else if c == '7' { 7 }
    else if c == '8' { 8 }
    else if c == '9' { 9 }
    else { -1 }
}

/// Whether every character of `s` is a decimal digit.
pub open spec fn all_digits(s: Seq<char>) -> bool {
    forall|i: int| 0 <= i < s.len() ==> 0 <= #[trigger] digit_value(s[i]) <= 9
}

/// The number that a string of decimal digits reads as.
pub open spec fn digits_value(s: Seq<char>) -> int
    decreases s.len(),
{
    if s.len() == 0 {
        0
    } else {
        digits_value(s.drop_last()) * 10 + digit_value(s.last())
    }
}

/// The decimal text of `n` is all digits and reads back as `n`.
pub proof fn lemma_decimal_reads_back(n: nat)
    ensures
        all_digits(decimal(n)),
        digits_value(decimal(n)) == n,
    decreases n,
{
    if n < 10 {
        assert(decimal(n).drop_last() =~= Seq::<char>::empty());
        assert(digits_value(Seq::<char>::empty()) == 0);
    } else {
        lemma_decimal_reads_back(n / 10);
        let d = decimal(n);
        assert(d.drop_last() =~= decimal(n / 10));
        assert(digit_value(digit_char(n % 10)) == n % 10);
        assert((n / 10) * 10 + n % 10 == n) by (nonlinear_arith);
        assert forall|i: int| 0 <= i < d.len() implies 0 <= #[trigger] digit_value(d[i]) <= 9 by {
            if i < d.len() - 1 {
                assert(d[i] == decimal(n / 10)[i]);
            }
        }
    }
}

/// Whether `s` is the text of an integer: one or more decimal digits,
/// optionally after a minus sign.
pub open spec fn is_integer_text(s: Seq<char>) -> bool {
    ||| s.len() > 0 && all_digits(s)
    ||| s.len() > 1 && s[0] == '-' && all_digits(s.skip(1))
}

/// The integer that such a text reads as.
pub open spec fn integer_text_value(s: Seq<char>) -> int {
    if s.len() > 0 && s[0] == '-' {
        -digits_value(s.skip(1))
    } else {
        digits_value(s)
    }
}

/// The signed decimal text of `i` is the text of an integer, and it reads
/// back as `i`.
pub proof fn lemma_signed_decimal_reads_back(i: int)
    ensures
        is_integer_text(signed_decimal(i)),
        integer_text_value(signed_decimal(i)) == i,
{
    let m: nat = if i < 0 { (-i) as nat } else { i as nat };
    lemma_decimal_reads_back(m);
    let d = decimal(m);
    assert(d.len() > 0);
    assert(0 <= digit_value(d[0]) <= 9);
    if i < 0 {
        assert(signed_decimal(i).skip(1) =~= d);
    }
}

/// Different integers have different signed decimal texts.
pub proof fn lemma_signed_decimal_injective(i: int, j: int)
    requires
        signed_decimal(i) == signed_decimal(j),
    ensures
        i == j,
{
    let a = if i < 0 { -i } else { i };
    let b = if j < 0 { -j } else { j };
    lemma_decimal_reads_back(a as nat);
    lemma_decimal_reads_back(b as nat);
    if i < 0 && j < 0 {
        assert(signed_decimal(i).skip(1) =~= decimal(a as nat));
        assert(signed_decimal(j).skip(1) =~= decimal(b as nat));
    } else if i < 0 {
        assert(signed_decimal(i)[0] == '-');
        assert(0 <= digit_value(decimal(b as nat)[0]) <= 9);
    } else if j < 0 {
        assert(signed_decimal(j)[0] == '-');
        assert(0 <= digit_value(decimal(a as nat)[0]) <= 9);
    }
}

fn digit_str(d: u64) -> (s: &'static str)
    requires
        d < 10,
    ensures
        s@ == seq![digit_char(d as nat)],
{
    proof {
        reveal_strlit("0");
        reveal_strlit("1");
        reveal_strlit("2");
        reveal_strlit("3");
        reveal_strlit("4");
        reveal_strlit("5");
        reveal_strlit("6");
        reveal_strlit("7");
        reveal_strlit("8");
        reveal_strlit("9");
    }
    if d == 0 { "0" }
    else if d == 1 { "1" }
    else if d == 2 { "2" }
    else if d == 3 { "3" }
    else if d == 4 { "4" }
    else if d == 5 { "5" }
    else if d == 6 { "6" }
    else if d == 7 { "7" }
    else if d == 8 { "8" }
    else { "9" }
}

/// Appends the decimal text of `n` to `out`.
pub fn push_decimal(out: &mut String, n: u64)
    ensures
        final(out)@ == old(out)@ + decimal(n as nat),
    decreases n,
{
    if n < 10 {
        out.append(digit_str(n));
    } else {
        push_decimal(out, n / 10);
        out.append(digit_str(n % 10));
    }
}

/// Appends the decimal text of `i`, with a minus sign when negative, to `out`.
pub fn push_signed_decimal(out: &mut String, i: isize)
    ensures
        final(out)@ == old(out)@ + signed_decimal(i as int),
{
    if i < 0 {
        proof {
            reveal_strlit("-");
        }
        out.append("-");
        let below: isize = -(i + 1);
        let magnitude: u64 = below as u64 + 1;
        push_decimal(out, magnitude);
    } else {
        push_decimal(out, i as u64);
    }
}

} // verus!

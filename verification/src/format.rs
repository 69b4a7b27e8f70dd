use vstd::prelude::*;
use vstd::string::*;

verus! {

/// The character that stands for the decimal digit `d`.
pub open spec fn digit_char(d: nat) -> char {
    seq!['0', '1', '2', '3', '4', '5', '6', '7', '8', '9'][d as int]
}

/// The decimal representation of `n`, most significant digit first,
/// without leading zeros (`0` is written as a single digit).
pub open spec fn decimal(n: nat) -> Seq<char>
    decreases n,
{
    if n < 10 {
        seq![digit_char(n)]
    } else {
        decimal(n / 10).push(digit_char(n % 10))
    }
}

/// Exactly three digits for `n < 1000`, padded with leading zeros.
pub open spec fn three_digits(n: nat) -> Seq<char> {
    seq![digit_char((n / 100) % 10), digit_char((n / 10) % 10), digit_char(n % 10)]
}

/// The decimal representation of `n` with a comma between each group of
/// three digits, counted from the right: `1234567` is `1,234,567`.
pub open spec fn separated(n: nat) -> Seq<char>
    decreases n,
{
    if n < 1000 {
        decimal(n)
    } else {
        separated(n / 1000) + seq![','] + three_digits(n % 1000)
    }
}

/// Whether a character is not the group separator.
pub open spec fn not_comma(c: char) -> bool {
    c != ','
}


/// The number that a string of decimal digits stands for.
pub open spec fn digits_value(s: Seq<char>) -> int
    decreases s.len(),
{
    if s.len() == 0 {
        0
    } else {
        digits_value(s.drop_last()) * 10 + (s.last() as int - '0' as int)
    }
}

proof fn lemma_digit_char_value(d: nat)
    requires
        d < 10,
    ensures
        digit_char(d) as int - '0' as int == d,
        '0' <= digit_char(d) <= '9',
{
    assert(seq!['0', '1', '2', '3', '4', '5', '6', '7', '8', '9'][d as int] == digit_char(d));
}

/// The decimal form of `n` is made of digits, starts with a digit other
/// than zero unless `n` is zero, and reads back as `n`.
pub proof fn lemma_decimal_reads_back(n: nat)
    ensures
        digits_value(decimal(n)) == n,
        decimal(n).len() >= 1,
        forall|i: int| 0 <= i < decimal(n).len() ==> '0' <= #[trigger] decimal(n)[i] <= '9',
        n != 0 ==> decimal(n)[0] != '0',
        n == 0 ==> decimal(n) == seq!['0'],
    decreases n,
{
    lemma_digit_char_value(n % 10);
    if n < 10 {
        assert(decimal(n).drop_last() =~= Seq::<char>::empty());
        assert(n % 10 == n);
        assert(digits_value(decimal(n)) == digits_value(decimal(n).drop_last()) * 10
            + (decimal(n).last() as int - '0' as int));
        assert(digits_value(Seq::<char>::empty()) == 0);
    } else {
        lemma_decimal_reads_back(n / 10);
        assert(decimal(n).drop_last() =~= decimal(n / 10));
        assert(decimal(n).last() == digit_char(n % 10));
        assert(digits_value(decimal(n)) == digits_value(decimal(n).drop_last()) * 10
            + (decimal(n).last() as int - '0' as int));
        assert(n == (n / 10) * 10 + n % 10);
        assert(decimal(n)[0] == decimal(n / 10)[0]);
    }
}

/// The one-character string for the digit `d`.
fn digit_str(d: u64) -> (s: &'static str)
    requires
        d < 10,
    ensures
        s@ == seq![digit_char(d as nat)],
{
    if d == 0 {
        proof { reveal_strlit("0"); }
        "0"
    } else if d == 1 {
        proof { reveal_strlit("1"); }
        "1"
    } else if d == 2 {
        proof { reveal_strlit("2"); }
        "2"
    } else if d == 3 {
        proof { reveal_strlit("3"); }
        "3"
    } else if d == 4 {
        proof { reveal_strlit("4"); }
        "4"
    } else if d == 5 {
        proof { reveal_strlit("5"); }
        "5"
    } else if d == 6 {
        proof { reveal_strlit("6"); }
        "6"
    } else if d == 7 {
        proof { reveal_strlit("7"); }
        "7"
    } else if d == 8 {
        proof { reveal_strlit("8"); }
        "8"
    } else {
        proof { reveal_strlit("9"); }
        "9"
    }
}

/// Appends the decimal representation of `n` to `out`.
pub fn push_decimal(out: &mut String, n: u64)
    ensures
        final(out)@ == old(out)@ + decimal(n as nat),
    decreases n,
{
    if n >= 10 {
        push_decimal(out, n / 10);
    }
    out.append(digit_str(n % 10));
    proof {
        assert(old(out)@ + decimal(n as nat) =~= out@);
    }
}

/// Appends `n < 1000` as exactly three digits to `out`.
fn push_three_digits(out: &mut String, n: u64)
    requires
        n < 1000,
    ensures
        final(out)@ == old(out)@ + three_digits(n as nat),
{
    out.append(digit_str((n / 100) % 10));
    out.append(digit_str((n / 10) % 10));
    out.append(digit_str(n % 10));
    assert(out@ =~= old(out)@ + three_digits(n as nat));
}

/// Appends the comma-separated representation of `n` to `out`.
pub fn push_separated(out: &mut String, n: u64)
    ensures
        final(out)@ == old(out)@ + separated(n as nat),
    decreases n,
{
    if n < 1000 {
        push_decimal(out, n);
    } else {
        push_separated(out, n / 1000);
        proof { reveal_strlit(","); }
        out.append(",");
        push_three_digits(out, n % 1000);
        assert(out@ =~= old(out)@ + separated(n as nat));
    }
}

/// The decimal representation of `n` as a string.
pub fn decimal_string(n: u64) -> (s: String)
    ensures
        s@ == decimal(n as nat),
{
    let mut s = String::new();
    push_decimal(&mut s, n);
    assert(s@ =~= decimal(n as nat));
    s
}

/// The decimal representation of `n` with thousands separated by commas,
/// as the balance pane writes UTXO counts.
pub fn separated_string(n: u64) -> (s: String)
    ensures
        s@ == separated(n as nat),
{
    let mut s = String::new();
    push_separated(&mut s, n);
    assert(s@ =~= separated(n as nat));
    s
}

proof fn lemma_filter_keeps_all(s: Seq<char>)
    requires
        forall|i: int| 0 <= i < s.len() ==> not_comma(#[trigger] s[i]),
    ensures
        s.filter(|c: char| not_comma(c)) == s,
    decreases s.len(),
{
    reveal_with_fuel(Seq::filter, 1);
    if s.len() > 0 {
        lemma_filter_keeps_all(s.drop_last());
        assert(s.drop_last().push(s.last()) =~= s);
    }
}

proof fn lemma_decimal_no_comma(n: nat)
    ensures
        forall|i: int| 0 <= i < decimal(n).len() ==> not_comma(#[trigger] decimal(n)[i]),
        decimal(n).filter(|c: char| not_comma(c)) == decimal(n),
    decreases n,
{
    if n >= 10 {
        lemma_decimal_no_comma(n / 10);
    }
    lemma_filter_keeps_all(decimal(n));
}

proof fn lemma_decimal_split(n: nat)
    requires
        n >= 1000,
    ensures
        decimal(n) == decimal(n / 1000) + three_digits(n % 1000),
{
    let q = n / 1000;
    let r = n % 1000;
    assert(n == 1000 * q + r && 0 <= r < 1000) by (nonlinear_arith)
        requires q == n / 1000, r == n % 1000;
    assert(n / 10 == 100 * q + r / 10) by (nonlinear_arith)
        requires n == 1000 * q + r, 0 <= r < 1000, q >= 0;
    assert(n / 100 == 10 * q + r / 100) by (nonlinear_arith)
        requires n == 1000 * q + r, 0 <= r < 1000, q >= 0;
    assert((n / 10) / 10 == n / 100) by (nonlinear_arith)
        requires n >= 0;
    assert((n / 100) / 10 == q) by (nonlinear_arith)
        requires n / 100 == 10 * q + r / 100, 0 <= r < 1000, q >= 0;
    assert(n % 10 == r % 10) by (nonlinear_arith)
        requires n == 1000 * q + r, 0 <= r < 1000, q >= 0;
    assert((n / 10) % 10 == (r / 10) % 10) by (nonlinear_arith)
        requires n / 10 == 100 * q + r / 10, 0 <= r < 1000, q >= 0;
    assert((n / 100) % 10 == (r / 100) % 10) by (nonlinear_arith)
        requires n / 100 == 10 * q + r / 100, 0 <= r < 1000, q >= 0;
    assert(q >= 1);
    assert(decimal(n) == decimal(n / 10).push(digit_char(n % 10)));
    assert(decimal(n / 10) == decimal((n / 10) / 10).push(digit_char((n / 10) % 10)));
    assert(decimal(n / 100) == decimal((n / 100) / 10).push(digit_char((n / 100) % 10)));
    assert(decimal(n) =~= decimal(q) + three_digits(r));
}

/// Removing the commas from the separated form of `n` gives back its
/// decimal form: the separators change how a number reads, never its digits.
pub proof fn lemma_separated_digits(n: nat)
    ensures
        separated(n).filter(|c: char| not_comma(c)) == decimal(n),
    decreases n,
{
    let p = |c: char| not_comma(c);
    if n < 1000 {
        lemma_decimal_no_comma(n);
    } else {
        lemma_separated_digits(n / 1000);
        lemma_decimal_split(n);
        reveal_with_fuel(Seq::filter, 4);
        Seq::filter_distributes_over_add(separated(n / 1000) + seq![','], three_digits(n % 1000), p);
        Seq::filter_distributes_over_add(separated(n / 1000), seq![','], p);
        assert(seq![','].filter(p) =~= Seq::<char>::empty()) by {
            assert(seq![','].drop_last() =~= Seq::<char>::empty());
        }
        let t = three_digits(n % 1000);
        lemma_filter_keeps_all(t);
    }
}

} // verus!

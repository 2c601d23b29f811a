//! Decimal text: reading an unsigned number from a token and writing one out.

use vstd::prelude::*;

verus! {

/// Taken on trust from the documentation of the standard library:
/// `String::push` appends the character to the end of the string and leaves
/// the characters before it as they were.
pub assume_specification[ String::push ](s: &mut String, ch: char)
    ensures
        final(s)@ == old(s)@.push(ch),
;

/// The character that writes the digit `d`.
pub open spec fn digit_char(d: nat) -> char
    recommends
        d < 10,
{
    if d == 0 {
        '0'
    } else if d == 1 {
        '1'
    } else if d == 2 {
        '2'
    } else if d == 3 {
        '3'
    } else if d == 4 {
        '4'
    } else if d == 5 {
        '5'
    } else if d == 6 {
        '6'
    } else if d == 7 {
        '7'
    } else if d == 8 {
        '8'
    } else {
        '9'
    }
}

/// Whether `c` is one of the ten ASCII digits.
pub open spec fn is_digit(c: char) -> bool {
    '0' <= c <= '9'
}

/// The number that the digit `c` stands for.
pub open spec fn digit_value(c: char) -> nat {
    (c as u32 - '0' as u32) as nat
}

/// `n` in decimal, most significant digit first, without leading zeros.
pub open spec fn decimal(n: nat) -> Seq<char>
    decreases n,
{
    if n < 10 {
        seq![digit_char(n)]
    } else {
        decimal(n / 10).push(digit_char(n % 10))
    }
}

fn digit_to_char(d: u64) -> (c: char)
    requires
        d < 10,
    ensures
        c == digit_char(d as nat),
{
    if d == 0 {
        '0'
    } else if d == 1 {
        '1'
    } else if d == 2 {
        '2'
    } else if d == 3 {
        '3'
    } else if d == 4 {
        '4'
    } else if d == 5 {
        '5'
    } else if d == 6 {
        '6'
    } else if d == 7 {
        '7'
    } else if d == 8 {
        '8'
    } else {
        '9'
    }
}

/// Appends `n` in decimal to `out`.
pub fn push_decimal(out: &mut String, n: u64)
    ensures
        final(out)@ == old(out)@ + decimal(n as nat),
    decreases n,
{
    if n >= 10 {
        push_decimal(out, n / 10);
    }
    out.push(digit_to_char(n % 10));
    assert(final(out)@ =~= old(out)@ + decimal(n as nat));
}

/// `n` in decimal, at least two characters wide: a single digit gets a
/// zero in front.
pub open spec fn padded2(n: nat) -> Seq<char> {
    if n < 10 {
        seq!['0'] + decimal(n)
    } else {
        decimal(n)
    }
}

/// A number under a hundred is written in exactly two digits.
pub proof fn lemma_padded2_two_digits(n: nat)
    requires
        n < 100,
    ensures
        padded2(n) == seq![digit_char(n / 10), digit_char(n % 10)],
{
    reveal_with_fuel(decimal, 2);
    assert(padded2(n) =~= seq![digit_char(n / 10), digit_char(n % 10)]);
}

/// Appends `n` in decimal, at least two characters wide, to `out`.
pub fn push_padded2(out: &mut String, n: u32)
    ensures
        final(out)@ == old(out)@ + padded2(n as nat),
{
    if n < 10 {
        out.push('0');
    }
    push_decimal(out, n as u64);
    assert(final(out)@ =~= old(out)@ + padded2(n as nat));
}

/// `n` in decimal, as a string of its own.
pub fn decimal_string(n: u64) -> (out: String)
    ensures
        out@ == decimal(n as nat),
{
    let mut out = String::new();
    push_decimal(&mut out, n);
    assert(out@ =~= decimal(n as nat));
    out
}

/// The key of a page, a row, a column or a step where a configuration is
/// written out with texts for keys: the number in decimal.
pub fn key_text(key: usize) -> (out: String)
    ensures
        out@ == decimal(key as nat),
{
    decimal_string(key as u64)
}

/// `s` with an underscore in the place of every slash.
pub open spec fn underscored(s: Seq<char>) -> Seq<char> {
    Seq::new(s.len(), |i: int| if s[i] == '/' { '_' } else { s[i] })
}

/// Appends `s` to `out`, with an underscore in the place of every slash.
pub fn push_underscored(out: &mut String, s: &str)
    ensures
        final(out)@ == old(out)@ + underscored(s@),
{
    for c in it: s.chars()
        invariant
            it.seq() == s@,
            out@ == old(out)@ + underscored(s@).take(it.index()),
    {
        if c == '/' {
            out.push('_');
        } else {
            out.push(c);
        }
        assert(underscored(s@).take(it.index() + 1) =~= underscored(s@).take(it.index()).push(
            underscored(s@)[it.index()],
        ));
        assert(out@ =~= old(out)@ + underscored(s@).take(it.index() + 1));
    }
    assert(underscored(s@).take(s@.len() as int) =~= underscored(s@));
}

/// The digits of a token: the token itself, without the one `+` that may
/// stand in front of them.
pub open spec fn number_digits(s: Seq<char>) -> Seq<char> {
    if s.len() > 0 && s[0] == '+' {
        s.drop_first()
    } else {
        s
    }
}

/// Whether every character of `d` is a digit.
pub open spec fn all_digits(d: Seq<char>) -> bool {
    forall|i: int| 0 <= i < d.len() ==> is_digit(#[trigger] d[i])
}

/// The number that the digits `d` write in decimal; leading zeros count for
/// nothing.
pub open spec fn digits_value(d: Seq<char>) -> nat
    decreases d.len(),
{
    if d.len() == 0 {
        0
    } else {
        digits_value(d.drop_last()) * 10 + digit_value(d.last())
    }
}

/// What a token reads as: an optional `+`, then at least one digit and
/// nothing else, with a value that fits in 32 bits.
pub open spec fn parsed_u32(s: Seq<char>) -> Option<u32> {
    let d = number_digits(s);
    if d.len() > 0 && all_digits(d) && digits_value(d) <= u32::MAX {
        Some(digits_value(d) as u32)
    } else {
        None
    }
}

/// A number never gets smaller when more digits follow.
pub proof fn lemma_digits_value_grows(d: Seq<char>, k: int)
    requires
        0 <= k <= d.len(),
    ensures
        digits_value(d.take(k)) <= digits_value(d),
    decreases d.len(),
{
    if k < d.len() {
        lemma_digits_value_grows(d.drop_last(), k);
        assert(d.drop_last().take(k) =~= d.take(k));
    } else {
        assert(d.take(k) =~= d);
    }
}

/// The decimal digits of a number are digits, and they write that number.
pub proof fn lemma_decimal_digits(n: nat)
    ensures
        decimal(n).len() > 0,
        all_digits(decimal(n)),
        digits_value(decimal(n)) == n,
    decreases n,
{
    if n < 10 {
        assert(decimal(n).drop_last() =~= Seq::<char>::empty());
        assert(digits_value(decimal(n).drop_last()) == 0);
    } else {
        lemma_decimal_digits(n / 10);
        assert(decimal(n).drop_last() =~= decimal(n / 10));
    }
}

/// What is written in decimal reads back as the same number, also where a
/// zero was put in front of it.
pub proof fn lemma_decimal_reads_back(n: u32)
    ensures
        parsed_u32(decimal(n as nat)) == Some(n),
        parsed_u32(padded2(n as nat)) == Some(n),
{
    lemma_decimal_digits(n as nat);
    let d = decimal(n as nat);
    assert(is_digit(d[0]));
    assert(number_digits(d) == d);
    if n < 10 {
        let p = padded2(n as nat);
        assert(p =~= seq!['0', digit_char(n as nat)]);
        assert(number_digits(p) == p);
        assert(p.drop_last() =~= seq!['0']);
        assert(p.drop_last().drop_last() =~= Seq::<char>::empty());
        reveal_with_fuel(digits_value, 3);
    }
}

/// Reads a token as an unsigned 32-bit number.
pub fn parse_u32(s: &str) -> (r: Option<u32>)
    ensures
        r == parsed_u32(s@),
{
    let ghost d = number_digits(s@);
    let ghost skip: int = s@.len() - d.len();
    let mut value: u64 = 0;
    let mut first = true;
    let mut any = false;
    for c in it: s.chars()
        invariant
            it.seq() == s@,
            d == number_digits(s@),
            skip == s@.len() - d.len(),
            first <==> it.index() == 0,
            any <==> it.index() > skip,
            any ==> value == digits_value(d.take(it.index() - skip)),
            !any ==> value == 0,
            value <= u32::MAX,
            forall|i: int| 0 <= i < it.index() - skip ==> is_digit(#[trigger] d[i]),
    {
        let ghost count: int = if any { it.index() - skip } else { 0 };
        if first && c == '+' {
            first = false;
        } else {
            first = false;
            assert(c == d[count]);
            if !(c >= '0' && c <= '9') {
                return None;
            }
            let digit: u64 = (c as u32 - '0' as u32) as u64;
            assert(d.take(count + 1).drop_last() =~= d.take(count));
            assert(d.take(count + 1).last() == c);
            assert(value == digits_value(d.take(count)));
            let next: u64 = value * 10 + digit;
            if next > 0xffff_ffff {
                proof {
                    lemma_digits_value_grows(d, count + 1);
                }
                return None;
            }
            value = next;
            any = true;
        }
    }
    assert(any ==> d.take(d.len() as int) =~= d);
    if any {
        Some(value as u32)
    } else {
        None
    }
}

} // verus!

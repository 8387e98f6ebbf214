//! Text building blocks: joining with a separator and decimal rendering of numbers.
use vstd::prelude::*;

verus! {

/// The parts joined in order, with `sep` between each two neighbours.
pub open spec fn seq_join(parts: Seq<Seq<char>>, sep: Seq<char>) -> Seq<char>
    decreases parts.len(),
{
    if parts.len() == 0 {
        Seq::empty()
    } else if parts.len() == 1 {
        parts[0]
    } else {
        seq_join(parts.drop_last(), sep) + sep + parts.last()
    }
}

/// The character of a decimal digit.
pub open spec fn digit_char(d: nat) -> char
    recommends
        d < 10,
{
    ((48 + d) as u32) as char
}

/// Decimal notation of `n`, without leading zeros ("0" for zero).
pub open spec fn decimal(n: nat) -> Seq<char>
    decreases n,
{
    if n < 10 {
        seq![digit_char(n)]
    } else {
        decimal(n / 10).push(digit_char(n % 10))
    }
}

/// Decimal notation of `n`, left-padded with zeros to at least two characters.
pub open spec fn decimal_pad2(n: nat) -> Seq<char> {
    if n < 10 {
        seq!['0', digit_char(n)]
    } else {
        decimal(n)
    }
}

/// Appends one character to a string: `String::push`.
/// std documents that the character is added at the end and nothing else changes.
#[verifier::external_body]
pub(crate) fn push_char(s: &mut String, c: char)
    ensures
        final(s)@ == old(s)@.push(c),
{
    s.push(c);
}

/// The character of a decimal digit.
pub fn digit(d: u64) -> (c: char)
    requires
        d < 10,
    ensures
        c == digit_char(d as nat),
{
    let b: u8 = 48u8 + (d as u8);
    b as char
}

/// Appends the decimal notation of `n` to `s`.
pub fn push_decimal(s: &mut String, n: u64)
    ensures
        final(s)@ == old(s)@ + decimal(n as nat),
    decreases n,
{
    if n < 10 {
        push_char(s, digit(n));
        assert(seq![digit_char(n as nat)] == decimal(n as nat));
    } else {
        push_decimal(s, n / 10);
        push_char(s, digit(n % 10));
    }
}

/// Appends the decimal notation of `n`, padded with zeros to at least two characters.
pub fn push_decimal_pad2(s: &mut String, n: u64)
    ensures
        final(s)@ == old(s)@ + decimal_pad2(n as nat),
{
    if n < 10 {
        push_char(s, '0');
        push_char(s, digit(n));
        assert(old(s)@.push('0').push(digit_char(n as nat)) =~= old(s)@ + seq!['0', digit_char(n as nat)]);
    } else {
        push_decimal(s, n);
    }
}

/// Decimal notation of `n` as a string.
pub fn decimal_string(n: u64) -> (r: String)
    ensures
        r@ == decimal(n as nat),
{
    let mut s = String::new();
    push_decimal(&mut s, n);
    assert(s@ =~= decimal(n as nat));
    s
}

/// Joins `parts` in order with `sep` between each two neighbours.
pub fn join_strings(parts: &Vec<String>, sep: &str) -> (r: String)
    ensures
        r@ == seq_join(parts@.map_values(|p: String| p@), sep@),
{
    let ghost views = parts@.map_values(|p: String| p@);
    let mut res = String::new();
    let mut i: usize = 0;
    while i < parts.len()
        invariant
            i <= parts.len(),
            views == parts@.map_values(|p: String| p@),
            res@ == seq_join(views.take(i as int), sep@),
        decreases parts.len() - i,
    {
        assert(views.take(i + 1).drop_last() =~= views.take(i as int));
        if i == 0 {
            res.append(parts[i].as_str());
            assert(res@ =~= views.take(1)[0]);
        } else {
            res.append(sep);
            res.append(parts[i].as_str());
            assert(views.take(i + 1).last() == parts@[i as int]@);
            assert(res@ =~= seq_join(views.take(i + 1), sep@));
        }
        i = i + 1;
    }
    assert(views.take(parts.len() as int) =~= views);
    res
}

/// The number that a string of decimal digits stands for.
pub open spec fn decimal_value(s: Seq<char>) -> nat
    decreases s.len(),
{
    if s.len() == 0 {
        0
    } else {
        decimal_value(s.drop_last()) * 10 + ((s.last() as int - 48) as nat)
    }
}

/// A digit's character stands for the digit.
pub proof fn lemma_digit_char_value(d: nat)
    requires
        d < 10,
    ensures
        digit_char(d) as int - 48 == d,
{
    assert(((48 + d) as u32) as char as int == 48 + d);
}

/// Reading back the decimal notation of a number gives the number.
pub proof fn lemma_decimal_roundtrip(n: nat)
    ensures
        decimal_value(decimal(n)) == n,
        decimal(n).len() >= 1,
    decreases n,
{
    lemma_digit_char_value(n % 10);
    if n < 10 {
        let s = seq![digit_char(n)];
        assert(s.drop_last() =~= Seq::<char>::empty());
        assert(decimal_value(s) == decimal_value(s.drop_last()) * 10 + ((s.last() as int - 48) as nat));
    } else {
        lemma_decimal_roundtrip(n / 10);
        let s = decimal(n);
        assert(s.drop_last() =~= decimal(n / 10));
        assert(s.last() == digit_char(n % 10));
        assert(decimal_value(s) == decimal_value(s.drop_last()) * 10 + ((s.last() as int - 48) as nat));
        assert((n / 10) * 10 + n % 10 == n);
    }
}

/// The padded notation of a number under 100 has exactly two characters and reads
/// back as the number.
pub proof fn lemma_decimal_pad2(n: nat)
    requires
        n < 100,
    ensures
        decimal_pad2(n).len() == 2,
        decimal_value(decimal_pad2(n)) == n,
{
    lemma_digit_char_value(n % 10);
    lemma_digit_char_value(n / 10);
    if n < 10 {
        let s = seq!['0', digit_char(n)];
        let z = seq!['0'];
        assert(s.drop_last() =~= z);
        assert(z.drop_last() =~= Seq::<char>::empty());
        assert(decimal_value(z) == decimal_value(z.drop_last()) * 10 + ((z.last() as int - 48) as nat));
        assert(decimal_value(s) == decimal_value(s.drop_last()) * 10 + ((s.last() as int - 48) as nat));
    } else {
        lemma_decimal_roundtrip(n);
        lemma_decimal_roundtrip(n / 10);
        assert(decimal(n / 10) =~= seq![digit_char(n / 10)]);
        assert(decimal(n).drop_last() =~= decimal(n / 10));
    }
}

} // verus!

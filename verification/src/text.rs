//! Decimal and hexadecimal renderings of numbers, as the standard library's
//! `Display` and `LowerHex` write them.

use vstd::prelude::*;

verus! {

/// The character for one digit below sixteen: `0`-`9`, then `a`-`f`.
pub open spec fn digit_char(d: nat) -> char {
    if d < 10 {
        (d + 48) as char
    } else {
        (d + 87) as char
    }
}

/// `n` in decimal, without leading zeros (`"0"` for zero).
pub open spec fn dec_text(n: nat) -> Seq<char>
    decreases n,
{
    if n < 10 {
        seq![digit_char(n)]
    } else {
        dec_text(n / 10).push(digit_char(n % 10))
    }
}

/// `n` in lower-case hexadecimal, without leading zeros (`"0"` for zero).
pub open spec fn hex_text(n: nat) -> Seq<char>
    decreases n,
{
    if n < 16 {
        seq![digit_char(n)]
    } else {
        hex_text(n / 16).push(digit_char(n % 16))
    }
}

/// Appends one character to a string (`String::push`).
#[verifier::external_body]
pub(crate) fn push_char(s: &mut String, c: char)
    ensures
        final(s)@ == old(s)@.push(c),
{
    s.push(c);
}

fn digit(d: u32) -> (c: char)
    requires
        d < 16,
    ensures
        c == digit_char(d as nat),
{
    let b: u8 = d as u8;
    if b < 10 {
        (b + 48) as char
    } else {
        (b + 87) as char
    }
}

/// Appends `n` in decimal.
pub fn push_decimal(s: &mut String, n: u32)
    ensures
        final(s)@ == old(s)@ + dec_text(n as nat),
    decreases n,
{
    if n >= 10 {
        push_decimal(s, n / 10);
    }
    let c = digit(n % 10);
    push_char(s, c);
    assert(old(s)@ + dec_text(n as nat) =~= s@) by {
        reveal_with_fuel(dec_text, 2);
    }
}

/// Appends `n` in lower-case hexadecimal.
pub fn push_hex(s: &mut String, n: u32)
    ensures
        final(s)@ == old(s)@ + hex_text(n as nat),
    decreases n,
{
    if n >= 16 {
        push_hex(s, n / 16);
    }
    let c = digit(n % 16);
    push_char(s, c);
    assert(old(s)@ + hex_text(n as nat) =~= s@) by {
        reveal_with_fuel(hex_text, 2);
    }
}

} // verus!

verus! {

/// `a` followed by `b`.
pub fn concat(a: &str, b: &str) -> (res: String)
    ensures
        res@ == a@ + b@,
{
    let mut s = a.to_string();
    s.append(b);
    s
}

/// A prefix of a text stays its prefix whatever follows it.
pub proof fn lemma_prefix_of_concat(p: Seq<char>, rest: Seq<char>)
    ensures
        p.is_prefix_of(p + rest),
{
    assert((p + rest).subrange(0, p.len() as int) =~= p);
}

} // verus!

verus! {

/// A decimal digit character.
pub open spec fn is_dec_digit(c: char) -> bool {
    48 <= c as int <= 57
}

/// The number that a string of decimal digits spells.
pub open spec fn dec_value(s: Seq<char>) -> int
    decreases s.len(),
{
    if s.len() == 0 {
        0
    } else {
        dec_value(s.drop_last()) * 10 + (s.last() as int - 48)
    }
}

/// The decimal text of a number is made of digits only, and spells that
/// number.
pub proof fn lemma_dec_text_digits(n: nat)
    ensures
        forall|i: int| 0 <= i < dec_text(n).len() ==> is_dec_digit(#[trigger] dec_text(n)[i]),
        dec_value(dec_text(n)) == n,
        dec_text(n).len() > 0,
    decreases n,
{
    let d = n % 10;
    assert(digit_char(d) as int == d + 48);
    if n >= 10 {
        lemma_dec_text_digits(n / 10);
        let t = dec_text(n);
        assert(t.drop_last() =~= dec_text(n / 10));
        assert(t.last() == digit_char(d));
        assert((n / 10) * 10 + d == n);
        assert(dec_value(t) == dec_value(t.drop_last()) * 10 + (t.last() as int - 48));
        assert(dec_value(t) == n);
    } else {
        let t = dec_text(n);
        assert(t.drop_last() =~= Seq::<char>::empty());
        assert(dec_value(t) == dec_value(t.drop_last()) * 10 + (t.last() as int - 48));
        assert(dec_value(t) == n);
    }
}

/// Two numbers with the same decimal text are equal.
pub proof fn lemma_dec_text_injective(m: nat, n: nat)
    requires
        dec_text(m) == dec_text(n),
    ensures
        m == n,
{
    lemma_dec_text_digits(m);
    lemma_dec_text_digits(n);
}

/// Where `x` and `x2` hold no `c`, `x + [c] + y == x2 + [c] + y2` splits the
/// same way on both sides.
pub proof fn lemma_split_at_first(x: Seq<char>, y: Seq<char>, x2: Seq<char>, y2: Seq<char>, c: char)
    requires
        !x.contains(c),
        !x2.contains(c),
        x + seq![c] + y == x2 + seq![c] + y2,
    ensures
        x == x2,
        y == y2,
{
    let t = x + seq![c] + y;
    if x.len() < x2.len() {
        assert(t[x.len() as int] == c);
        assert(x2[x.len() as int] == c);
    } else if x2.len() < x.len() {
        assert(t[x2.len() as int] == c);
        assert(x[x2.len() as int] == c);
    }
    assert(x =~= t.subrange(0, x.len() as int));
    assert(x2 =~= t.subrange(0, x.len() as int));
    assert(y =~= t.subrange(x.len() as int + 1, t.len() as int));
    assert(y2 =~= t.subrange(x.len() as int + 1, t.len() as int));
}


/// A lower-case hexadecimal digit character.
pub open spec fn is_hex_digit(c: char) -> bool {
    48 <= c as int <= 57 || 97 <= c as int <= 102
}

/// The value of one hexadecimal digit character.
pub open spec fn hex_digit_value(c: char) -> int {
    if c as int <= 57 {
        c as int - 48
    } else {
        c as int - 87
    }
}

/// The number that a string of hexadecimal digits spells.
pub open spec fn hex_value(s: Seq<char>) -> int
    decreases s.len(),
{
    if s.len() == 0 {
        0
    } else {
        hex_value(s.drop_last()) * 16 + hex_digit_value(s.last())
    }
}

/// The hexadecimal text of a number is made of hexadecimal digits only, and
/// spells that number.
pub proof fn lemma_hex_text_digits(n: nat)
    ensures
        forall|i: int| 0 <= i < hex_text(n).len() ==> is_hex_digit(#[trigger] hex_text(n)[i]),
        hex_value(hex_text(n)) == n,
        hex_text(n).len() > 0,
    decreases n,
{
    let d = n % 16;
    if d < 10 {
        assert(digit_char(d) as int == d + 48);
    } else {
        assert(digit_char(d) as int == d + 87);
    }
    let t = hex_text(n);
    if n >= 16 {
        lemma_hex_text_digits(n / 16);
        assert(t.drop_last() =~= hex_text(n / 16));
        assert(t.last() == digit_char(d));
        assert((n / 16) * 16 + d == n);
        assert(hex_value(t) == hex_value(t.drop_last()) * 16 + hex_digit_value(t.last()));
    } else {
        assert(t.drop_last() =~= Seq::<char>::empty());
        assert(hex_value(t) == hex_value(t.drop_last()) * 16 + hex_digit_value(t.last()));
    }
}

/// Two numbers with the same hexadecimal text are equal.
pub proof fn lemma_hex_text_injective(m: nat, n: nat)
    requires
        hex_text(m) == hex_text(n),
    ensures
        m == n,
{
    lemma_hex_text_digits(m);
    lemma_hex_text_digits(n);
}

/// Where `y` and `y2` hold no `c`, `x + [c] + y == x2 + [c] + y2` splits the
/// same way on both sides.
pub proof fn lemma_split_at_last(x: Seq<char>, y: Seq<char>, x2: Seq<char>, y2: Seq<char>, c: char)
    requires
        !y.contains(c),
        !y2.contains(c),
        x + seq![c] + y == x2 + seq![c] + y2,
    ensures
        x == x2,
        y == y2,
{
    let t = x + seq![c] + y;
    if y.len() < y2.len() {
        let k = t.len() - y.len() - 1;
        assert(t[k] == c);
        assert(y2[k - x2.len() - 1] == c);
    } else if y2.len() < y.len() {
        let k = t.len() - y2.len() - 1;
        assert(t[k] == c);
        assert(y[k - x.len() - 1] == c);
    }
    assert(y.len() == y2.len());
    assert(t.len() == x.len() + 1 + y.len());
    assert((x2 + seq![c] + y2).len() == x2.len() + 1 + y2.len());
    assert(x.len() == x2.len());
    assert(x =~= t.subrange(0, x.len() as int));
    assert(x2 =~= t.subrange(0, x.len() as int));
    assert(y =~= t.subrange(x.len() as int + 1, t.len() as int));
    assert(y2 =~= t.subrange(x.len() as int + 1, t.len() as int));
}

} // verus!

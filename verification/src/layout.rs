//! Fixed-width text layout: zero-padded decimal numbers and strings
//! padded or cut to a number of characters.
use vstd::prelude::*;

use crate::text::push_char;

verus! {

/// The character of the decimal digit `d`.
pub open spec fn digit_char(d: nat) -> char {
    (d + 48) as char
}

/// The decimal digits of `n`, most significant first, with no leading zero
/// (`0` is the single digit `0`).
pub open spec fn decimal(n: nat) -> Seq<char>
    decreases n,
{
    if n < 10 {
        seq![digit_char(n)]
    } else {
        decimal(n / 10).push(digit_char(n % 10))
    }
}

/// `c` repeated `count` times.
pub open spec fn repeated(c: char, count: nat) -> Seq<char> {
    Seq::new(count, |_i: int| c)
}

/// `n` in decimal, with zeros in front up to `width` digits, as the
/// `{:0width$}` format writes an unsigned integer.
pub open spec fn zero_padded(n: nat, width: nat) -> Seq<char> {
    let d = decimal(n);
    if d.len() < width {
        repeated('0', (width - d.len()) as nat) + d
    } else {
        d
    }
}

/// `s` made exactly `width` characters long: cut after `width` characters,
/// or filled with spaces on the right, as formatting with `{:width$}` and
/// then `{:.width$}` does.
pub open spec fn fitted(s: Seq<char>, width: nat) -> Seq<char> {
    if s.len() >= width {
        s.take(width as int)
    } else {
        s + repeated(' ', (width - s.len()) as nat)
    }
}

/// `n` has at least one decimal digit and no more than `n + 1`.
proof fn lemma_decimal_len(n: nat)
    ensures
        1 <= decimal(n).len() <= n + 1,
    decreases n,
{
    if n >= 10 {
        lemma_decimal_len(n / 10);
    }
}

/// The number of decimal digits of `n`.
fn decimal_len(n: usize) -> (r: usize)
    ensures
        r == decimal(n as nat).len(),
    decreases n,
{
    proof {
        lemma_decimal_len(n as nat);
    }
    if n < 10 {
        1
    } else {
        let k = decimal_len(n / 10);
        proof {
            lemma_decimal_len((n / 10) as nat);
        }
        k + 1
    }
}

/// Appends the decimal digits of `n` to `s`.
fn push_decimal(s: &mut String, n: usize)
    ensures
        final(s)@ == old(s)@ + decimal(n as nat),
    decreases n,
{
    if n >= 10 {
        push_decimal(s, n / 10);
    }
    let d: u8 = (n % 10) as u8;
    push_char(s, (d + 48u8) as char);
    assert(s@ =~= old(s)@ + decimal(n as nat));
}

/// Appends `n` in decimal, with zeros in front up to `width` digits.
pub fn push_zero_padded(s: &mut String, n: usize, width: usize)
    ensures
        final(s)@ == old(s)@ + zero_padded(n as nat, width as nat),
{
    let len = decimal_len(n);
    if len < width {
        let zeros = width - len;
        let mut i: usize = 0;
        while i < zeros
            invariant
                i <= zeros,
                s@ == old(s)@ + repeated('0', i as nat),
            decreases zeros - i,
        {
            push_char(s, '0');
            i = i + 1;
            assert(s@ =~= old(s)@ + repeated('0', i as nat));
        }
    }
    push_decimal(s, n);
    assert(s@ =~= old(s)@ + zero_padded(n as nat, width as nat));
}

/// Appends `text` made exactly `width` characters long: cut after `width`
/// characters, or filled with spaces on the right.
pub fn push_fitted(s: &mut String, text: &str, width: usize)
    ensures
        final(s)@ == old(s)@ + fitted(text@, width as nat),
{
    let len = text.unicode_len();
    let mut i: usize = 0;
    while i < width
        invariant
            i <= width,
            len == text@.len(),
            s@ == old(s)@ + fitted(text@, width as nat).take(i as int),
        decreases width - i,
    {
        if i < len {
            let c = text.get_char(i);
            push_char(s, c);
        } else {
            push_char(s, ' ');
        }
        assert(fitted(text@, width as nat).take(i + 1) =~= fitted(text@, width as nat).take(
            i as int,
        ).push(fitted(text@, width as nat)[i as int]));
        i = i + 1;
    }
    assert(fitted(text@, width as nat).take(width as int) =~= fitted(text@, width as nat));
}

/// The number a sequence of decimal digits stands for, most significant
/// digit first.
pub open spec fn digits_value(s: Seq<char>) -> int
    decreases s.len(),
{
    if s.len() == 0 {
        0
    } else {
        digits_value(s.drop_last()) * 10 + (s.last() as int - 48)
    }
}

/// Whether every character of `s` is a decimal digit.
pub open spec fn all_digits(s: Seq<char>) -> bool {
    forall|i: int| 0 <= i < s.len() ==> '0' <= #[trigger] s[i] <= '9'
}

proof fn lemma_decimal_value(n: nat)
    ensures
        digits_value(decimal(n)) == n,
        all_digits(decimal(n)),
    decreases n,
{
    assert(digit_char(n % 10) as int == n % 10 + 48);
    if n >= 10 {
        lemma_decimal_value(n / 10);
        assert(decimal(n).drop_last() =~= decimal(n / 10));
        assert(decimal(n).last() == digit_char(n % 10));
        assert(digits_value(decimal(n)) == (n / 10) * 10 + n % 10);
        assert((n / 10) * 10 + n % 10 == n) by (nonlinear_arith);
    } else {
        assert(decimal(n).drop_last() =~= Seq::<char>::empty());
        assert(digits_value(Seq::<char>::empty()) == 0);
        assert(digits_value(decimal(n)) == n);
    }
}

proof fn lemma_leading_zeros_value(k: nat, d: Seq<char>)
    ensures
        digits_value(repeated('0', k) + d) == digits_value(d),
    decreases d.len(), k,
{
    if d.len() == 0 {
        assert(repeated('0', k) + d =~= repeated('0', k));
        if k > 0 {
            assert(repeated('0', k).drop_last() =~= repeated('0', (k - 1) as nat) + Seq::<char>::empty());
            lemma_leading_zeros_value((k - 1) as nat, Seq::<char>::empty());
            assert(repeated('0', (k - 1) as nat) + Seq::<char>::empty() =~= repeated('0', (k - 1) as nat));
        }
    } else {
        assert((repeated('0', k) + d).drop_last() =~= repeated('0', k) + d.drop_last());
        lemma_leading_zeros_value(k, d.drop_last());
    }
}

/// A zero-padded number is at least `width` decimal digits long, is exactly
/// `width` long when the number has no more digits than that, and reads back
/// as the number.
pub proof fn lemma_zero_padded_value(n: nat, width: nat)
    ensures
        digits_value(zero_padded(n, width)) == n,
        all_digits(zero_padded(n, width)),
        zero_padded(n, width).len() >= width,
        zero_padded(n, width).len() >= 1,
        decimal(n).len() <= width ==> zero_padded(n, width).len() == width,
{
    lemma_decimal_value(n);
    lemma_decimal_len(n);
    let d = decimal(n);
    if d.len() < width {
        lemma_leading_zeros_value((width - d.len()) as nat, d);
        let z = zero_padded(n, width);
        assert forall|i: int| 0 <= i < z.len() implies '0' <= #[trigger] z[i] <= '9' by {
            if i >= width - d.len() {
                assert(z[i] == d[i - (width - d.len())]);
            }
        }
    }
}

/// The decimal digits of a number below 1000, zero-padded to three, are its
/// hundreds, tens and units digits.
pub proof fn lemma_zero_padded_three(n: nat)
    requires
        n < 1000,
    ensures
        zero_padded(n, 3) == seq![digit_char(n / 100), digit_char((n / 10) % 10), digit_char(n % 10)],
{
    reveal_with_fuel(decimal, 3);
    assert(zero_padded(n, 3) =~= seq![digit_char(n / 100), digit_char((n / 10) % 10), digit_char(n % 10)]);
}

/// A fitted text is exactly as wide as asked, and keeps as much of the
/// text as fits, in order.
pub proof fn lemma_fitted_width(s: Seq<char>, width: nat)
    ensures
        fitted(s, width).len() == width,
        s.len() <= width ==> fitted(s, width).take(s.len() as int) == s,
        s.len() >= width ==> fitted(s, width) == s.take(width as int),
        forall|i: int| s.len() <= i < width ==> #[trigger] fitted(s, width)[i] == ' ',
{
    if s.len() <= width {
        assert(fitted(s, width).take(s.len() as int) =~= s);
    }
}

/// A number below `10^width`, for widths two and three, is written in
/// exactly `width` characters.
pub proof fn lemma_zero_padded_width(n: nat, width: nat)
    requires
        (width == 2 && n < 100) || (width == 3 && n < 1000),
    ensures
        zero_padded(n, width).len() == width,
{
    assert(decimal(n).len() <= width) by {
        reveal_with_fuel(decimal, 3);
    }
}

} // verus!

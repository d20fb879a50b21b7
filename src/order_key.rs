//! The priority encoder: a priority becomes a fixed-width, zero-padded
//! decimal key, so that comparing keys as text compares the priorities.
use vstd::prelude::*;

use crate::text::push_char;

verus! {

/// The number of decimal digits of `n` (one for zero).
pub open spec fn decimal_width(n: nat) -> nat
    decreases n,
{
    if n < 10 {
        1
    } else {
        1 + decimal_width(n / 10)
    }
}

/// Ten to the power `k`.
pub open spec fn pow10(k: nat) -> nat
    decreases k,
{
    if k == 0 {
        1
    } else {
        10 * pow10((k - 1) as nat)
    }
}

/// The width of every key: the digits of the largest `usize`.
pub open spec fn key_width_spec() -> nat {
    decimal_width(usize::MAX as nat)
}

/// The character of a decimal digit.
pub open spec fn digit_char(d: nat) -> char {
    if d == 0 {
        '0'
    } else if d == 1 {
        '1'
    } else if d == 2 {
        '2'
    } else if d == 3 {
        '3'
    } else if d == 4 {
        '4'
    } else if d == 5 {
        '5'
    } else if d == 6 {
        '6'
    } else if d == 7 {
        '7'
    } else if d == 8 {
        '8'
    } else {
        '9'
    }
}

/// The last `w` decimal digits of `n`, most significant first.
pub open spec fn decimal_digits(n: nat, w: nat) -> Seq<char>
    decreases w,
{
    if w == 0 {
        Seq::empty()
    } else {
        decimal_digits(n / 10, (w - 1) as nat).push(digit_char(n % 10))
    }
}

/// The key of a priority: its decimal digits, left-padded with zeros to
/// the key width.
pub open spec fn order_key(priority: nat) -> Seq<char> {
    decimal_digits(priority, key_width_spec())
}

/// `a` comes strictly before `b` in lexicographic order of code points.
pub open spec fn lex_less(a: Seq<char>, b: Seq<char>) -> bool {
    (exists|i: int|
        0 <= i < a.len() && i < b.len() && #[trigger] a.take(i) == b.take(i) && (a[i] as u32)
            < (b[i] as u32)) || (a.len() < b.len() && a == b.take(a.len() as int))
}

/// Every key of `decimal_digits(n, w)` has exactly `w` characters.
pub proof fn lemma_digits_len(n: nat, w: nat)
    ensures
        decimal_digits(n, w).len() == w,
    decreases w,
{
    if w > 0 {
        lemma_digits_len(n / 10, (w - 1) as nat);
    }
}

proof fn lemma_below_pow10(n: nat)
    ensures
        n < pow10(decimal_width(n)),
    decreases n,
{
    assert(pow10(1) == 10) by {
        assert(pow10(0) == 1);
    }
    if n >= 10 {
        let k = decimal_width(n / 10);
        lemma_below_pow10(n / 10);
        assert(pow10(k + 1) == 10 * pow10(k));
        assert(n < 10 * pow10(k)) by (nonlinear_arith)
            requires
                n / 10 < pow10(k),
        ;
    }
}

proof fn lemma_digit_chars_ordered(a: nat, b: nat)
    requires
        a < b < 10,
    ensures
        (digit_char(a) as u32) < (digit_char(b) as u32),
{
}

proof fn lemma_digits_ordered(p1: nat, p2: nat, w: nat)
    requires
        p1 < p2 < pow10(w),
    ensures
        exists|i: int|
            0 <= i < w && #[trigger] decimal_digits(p1, w).take(i) == decimal_digits(p2, w).take(
                i,
            ) && (decimal_digits(p1, w)[i] as u32) < (decimal_digits(p2, w)[i] as u32),
    decreases w,
{
    let v = (w - 1) as nat;
    let (q1, q2) = (p1 / 10, p2 / 10);
    assert(q2 < pow10(v));
    lemma_digits_len(q1, v);
    lemma_digits_len(q2, v);
    let (d1, d2) = (decimal_digits(p1, w), decimal_digits(p2, w));
    if q1 < q2 {
        lemma_digits_ordered(q1, q2, v);
        let i = choose|i: int|
            0 <= i < v && #[trigger] decimal_digits(q1, v).take(i) == decimal_digits(q2, v).take(
                i,
            ) && (decimal_digits(q1, v)[i] as u32) < (decimal_digits(q2, v)[i] as u32);
        assert(d1.take(i) == decimal_digits(q1, v).take(i));
        assert(d2.take(i) == decimal_digits(q2, v).take(i));
        assert(d1.take(i) == d2.take(i));
    } else {
        assert(p1 % 10 < p2 % 10);
        lemma_digit_chars_ordered(p1 % 10, p2 % 10);
        assert(d1.take(v as int) == decimal_digits(q1, v));
        assert(d2.take(v as int) == decimal_digits(q2, v));
        assert(d1.take(v as int) == d2.take(v as int));
    }
}

/// Keys order as their priorities: for priorities `p1 < p2`, the key of
/// `p1` comes strictly before the key of `p2` in lexicographic order, and
/// both keys have the same length.
pub proof fn lemma_order_key_monotone(p1: usize, p2: usize)
    requires
        p1 < p2,
    ensures
        lex_less(order_key(p1 as nat), order_key(p2 as nat)),
        order_key(p1 as nat).len() == order_key(p2 as nat).len(),
        order_key(p1 as nat).len() == key_width_spec(),
{
    lemma_below_pow10(usize::MAX as nat);
    lemma_digits_len(p1 as nat, key_width_spec());
    lemma_digits_len(p2 as nat, key_width_spec());
    lemma_digits_ordered(p1 as nat, p2 as nat, key_width_spec());
}

fn digit(d: usize) -> (c: char)
    requires
        d < 10,
    ensures
        c == digit_char(d as nat),
{
    match d {
        0 => '0',
        1 => '1',
        2 => '2',
        3 => '3',
        4 => '4',
        5 => '5',
        6 => '6',
        7 => '7',
        8 => '8',
        _ => '9',
    }
}

/// The width of every key: the number of decimal digits of `usize::MAX`.
pub fn key_width() -> (w: usize)
    ensures
        w as nat == key_width_spec(),
{
    let mut n: usize = usize::MAX;
    let mut w: usize = 1;
    while n >= 10
        invariant
            1 <= w,
            w + decimal_width(n as nat) == 1 + key_width_spec(),
            w as nat + n as nat <= usize::MAX as nat + 1,
        decreases n,
    {
        n = n / 10;
        w = w + 1;
    }
    w
}

/// The ordering key of `priority`: exactly `key_width()` decimal digits.
pub fn encode(priority: usize) -> (key: String)
    ensures
        key@ == order_key(priority as nat),
{
    let width = key_width();
    let mut digits: Vec<char> = Vec::new();
    let mut k: usize = 0;
    while k < width
        invariant
            k <= width,
            digits@.len() == k,
        decreases width - k,
    {
        digits.push('0');
        k = k + 1;
    }
    let mut n: usize = priority;
    let mut i: usize = width;
    while i > 0
        invariant
            i <= width,
            width as nat == key_width_spec(),
            digits@.len() == width,
            decimal_digits(n as nat, i as nat) + digits@.subrange(i as int, width as int)
                == order_key(priority as nat),
        decreases i,
    {
        let ghost before = digits@.subrange(i as int, width as int);
        i = i - 1;
        digits.set(i, digit(n % 10));
        assert(digits@.subrange(i as int, width as int) == seq![digit_char((n % 10) as nat)]
            + before);
        n = n / 10;
    }
    assert(digits@ == digits@.subrange(0, width as int));
    let mut key = String::new();
    let mut j: usize = 0;
    while j < width
        invariant
            j <= width,
            digits@.len() == width,
            key@ == digits@.take(j as int),
        decreases width - j,
    {
        push_char(&mut key, digits[j]);
        assert(digits@.take(j + 1) == digits@.take(j as int).push(digits@[j as int]));
        j = j + 1;
    }
    assert(digits@.take(width as int) == digits@);
    key
}

} // verus!

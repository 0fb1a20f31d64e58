use vstd::prelude::*;

verus! {

/// The char of a decimal digit.
pub open spec fn digit_char(d: nat) -> char
    recommends
        d < 10,
{
    (48 + d) as char
}

/// The decimal representation of `n`, without leading zeros ("0" for zero).
pub open spec fn decimal(n: nat) -> Seq<char>
    decreases n,
{
    if n < 10 {
        seq![digit_char(n)]
    } else {
        decimal(n / 10).push(digit_char(n % 10))
    }
}

/// `fill` repeated `n` times.
pub open spec fn repeat(fill: char, n: nat) -> Seq<char>
    decreases n,
{
    if n == 0 {
        seq![]
    } else {
        repeat(fill, (n - 1) as nat).push(fill)
    }
}

/// `s` right-aligned in a field of `width` chars, filled on the left with `fill`
/// (as `{:>width$}` or `{:0width$}` format it).
pub open spec fn pad_left(s: Seq<char>, width: nat, fill: char) -> Seq<char> {
    if s.len() < width {
        repeat(fill, (width - s.len()) as nat) + s
    } else {
        s
    }
}

/// `s` left-aligned in a field of `width` chars, filled on the right with spaces
/// (as `{:width$}` formats a string).
pub open spec fn pad_right(s: Seq<char>, width: nat) -> Seq<char> {
    if s.len() < width {
        s + repeat(' ', (width - s.len()) as nat)
    } else {
        s
    }
}

/// `n` in decimal, zero-padded on the left to `width` digits (as `{:0width$}`).
pub open spec fn zero_padded(n: nat, width: nat) -> Seq<char> {
    pad_left(decimal(n), width, '0')
}

/// Appends one char to a string (`String::push`).
#[verifier::external_body]
pub(crate) fn push_char(s: &mut String, c: char)
    ensures
        final(s)@ == old(s)@.push(c),
{
    s.push(c);
}

/// Appends a string slice.
pub fn push_str(s: &mut String, t: &str)
    ensures
        final(s)@ == old(s)@ + t@,
{
    s.append(t);
}

/// Appends `fill` `n` times.
pub fn push_repeat(s: &mut String, fill: char, n: usize)
    ensures
        final(s)@ == old(s)@ + repeat(fill, n as nat),
{
    let mut i: usize = 0;
    while i < n
        invariant
            i <= n,
            s@ == old(s)@ + repeat(fill, i as nat),
        decreases n - i,
    {
        push_char(s, fill);
        i = i + 1;
        proof {
            assert(old(s)@ + repeat(fill, i as nat) =~= (old(s)@ + repeat(fill, (i - 1) as nat)).push(fill));
        }
    }
}

pub proof fn lemma_repeat_len(fill: char, n: nat)
    ensures
        repeat(fill, n).len() == n,
    decreases n,
{
    if n > 0 {
        lemma_repeat_len(fill, (n - 1) as nat);
    }
}

/// Ten to the power `k`.
pub open spec fn pow10(k: nat) -> nat
    decreases k,
{
    if k == 0 {
        1
    } else {
        10 * pow10((k - 1) as nat)
    }
}

pub proof fn lemma_decimal_len(n: nat, k: nat)
    requires
        k >= 1,
        n < pow10(k),
    ensures
        1 <= decimal(n).len() <= k,
        n < 10 ==> decimal(n).len() == 1,
        10 <= n < 100 ==> decimal(n).len() == 2,
        100 <= n < 1000 ==> decimal(n).len() == 3,
    decreases n,
{
    if n >= 10 {
        let p = pow10((k - 1) as nat);
        assert(n / 10 < p) by (nonlinear_arith)
            requires
                n < 10 * p,
        ;
        if k == 1 {
            assert(false);
        }
        lemma_decimal_len(n / 10, (k - 1) as nat);
        reveal_with_fuel(pow10, 3);
        if n < 1000 {
            lemma_decimal_len(n / 10, 2);
        }
        if n < 100 {
            lemma_decimal_len(n / 10, 1);
        }
    }
}

/// Appends the decimal representation of `n`.
pub fn push_decimal(s: &mut String, n: u64)
    ensures
        final(s)@ == old(s)@ + decimal(n as nat),
    decreases n,
{
    if n >= 10 {
        push_decimal(s, n / 10);
        let d = n % 10;
        let c = digit(d);
        push_char(s, c);
        proof {
            assert(decimal(n as nat) == decimal((n / 10) as nat).push(digit_char((n % 10) as nat)));
            assert(old(s)@ + decimal(n as nat) =~= (old(s)@ + decimal((n / 10) as nat)).push(c));
        }
    } else {
        let c = digit(n);
        push_char(s, c);
        proof {
            assert(old(s)@ + decimal(n as nat) =~= old(s)@.push(c));
        }
    }
}

/// The char of the decimal digit `d`.
pub fn digit(d: u64) -> (c: char)
    requires
        d < 10,
    ensures
        c == digit_char(d as nat),
{
    if d == 0 { '0' }
    else if d == 1 { '1' }
    else if d == 2 { '2' }
    else if d == 3 { '3' }
    else if d == 4 { '4' }
    else if d == 5 { '5' }
    else if d == 6 { '6' }
    else if d == 7 { '7' }
    else if d == 8 { '8' }
    else { '9' }
}

/// The number of decimal digits of `n`.
pub fn decimal_len(n: u64) -> (len: usize)
    ensures
        len as nat == decimal(n as nat).len(),
        1 <= len <= 20,
    decreases n,
{
    proof {
        reveal_with_fuel(pow10, 21);
        assert(pow10(20) == 100_000_000_000_000_000_000);
        lemma_decimal_len(n as nat, 20);
    }
    if n >= 10 {
        let l = decimal_len(n / 10);
        proof {
            assert(decimal(n as nat) == decimal((n / 10) as nat).push(digit_char((n % 10) as nat)));
        }
        l + 1
    } else {
        1
    }
}

/// Appends `n` in decimal, zero-padded on the left to `width` digits.
pub fn push_zero_padded(s: &mut String, n: u64, width: usize)
    ensures
        final(s)@ == old(s)@ + zero_padded(n as nat, width as nat),
{
    let len = decimal_len(n);
    if len < width {
        push_repeat(s, '0', width - len);
        let ghost mid = s@;
        push_decimal(s, n);
        proof {
            assert(s@ =~= old(s)@ + (repeat('0', (width - len) as nat) + decimal(n as nat)));
        }
    } else {
        push_decimal(s, n);
    }
}

/// Appends `t`, left-aligned in a field of `width` chars.
pub fn push_padded_right(s: &mut String, t: &str, width: usize)
    ensures
        final(s)@ == old(s)@ + pad_right(t@, width as nat),
{
    let len = t.unicode_len();
    push_str(s, t);
    if len < width {
        push_repeat(s, ' ', width - len);
        proof {
            assert(s@ =~= old(s)@ + (t@ + repeat(' ', (width - len) as nat)));
        }
    }
}

/// Appends `t`, right-aligned in a field of `width` chars filled with spaces.
pub fn push_padded_left(s: &mut String, t: &str, width: usize)
    ensures
        final(s)@ == old(s)@ + pad_left(t@, width as nat, ' '),
{
    let len = t.unicode_len();
    if len < width {
        push_repeat(s, ' ', width - len);
        push_str(s, t);
        proof {
            assert(s@ =~= old(s)@ + (repeat(' ', (width - len) as nat) + t@));
        }
    } else {
        push_str(s, t);
    }
}

/// The decimal representation of `n` as a new string.
pub fn decimal_string(n: u64) -> (s: String)
    ensures
        s@ == decimal(n as nat),
{
    let mut s = String::new();
    push_decimal(&mut s, n);
    proof {
        assert(Seq::<char>::empty() + decimal(n as nat) =~= decimal(n as nat));
    }
    s
}

} // verus!

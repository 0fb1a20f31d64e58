//! Text forms of operation ids and ages.
use vstd::prelude::*;
use crate::fmt::{decimal, push_decimal, push_str, push_zero_padded, zero_padded};

verus! {

/// Sixteen to the power `k`.
pub open spec fn pow16(k: nat) -> nat
    decreases k,
{
    if k == 0 {
        1
    } else {
        16 * pow16((k - 1) as nat)
    }
}

/// The lowercase hex char of a digit below 16.
pub open spec fn hex_char(d: nat) -> char {
    if d < 10 {
        (48 + d) as char
    } else {
        (87 + d) as char
    }
}

/// The 32 lowercase hex digits of `id`, most significant first.
pub open spec fn hex_digits(id: u128) -> Seq<char> {
    Seq::new(32, |i: int| hex_char(((id as nat) / pow16((31 - i) as nat)) % 16))
}

/// The hyphenated form of a UUID: its hex digits in groups of 8, 4, 4, 4 and 12.
pub open spec fn uuid_hyphenated(id: u128) -> Seq<char> {
    let h = hex_digits(id);
    h.subrange(0, 8) + seq!['-'] + h.subrange(8, 12) + seq!['-'] + h.subrange(12, 16) + seq!['-']
        + h.subrange(16, 20) + seq!['-'] + h.subrange(20, 32)
}

/// `uuid::Uuid::from_u128(id).to_string()`. Trusted: the uuid crate takes the
/// number's bytes most significant first, and its `Display` writes the
/// hyphenated form in lowercase hex.
#[verifier::external_body]
pub(crate) fn uuid_string(id: u128) -> (s: String)
    ensures
        s@ == uuid_hyphenated(id),
{
    uuid::Uuid::from_u128(id).to_string()
}

/// The digits of a fraction of `r` thousandths (1 to 999), without
/// trailing zeros.
pub open spec fn millis_fraction(r: nat) -> Seq<char> {
    if r % 100 == 0 {
        decimal(r / 100)
    } else if r % 10 == 0 {
        zero_padded(r / 10, 2)
    } else {
        zero_padded(r, 3)
    }
}

/// The `Debug` text of a duration of `ms` milliseconds, as the standard
/// library writes it: "0ns" for none, the milliseconds and "ms" below a
/// second, else the seconds with the thousandths (trailing zeros dropped)
/// and "s".
pub open spec fn duration_debug(ms: u64) -> Seq<char> {
    if ms == 0 {
        "0ns"@
    } else if ms < 1000 {
        decimal(ms as nat) + "ms"@
    } else if ms % 1000 == 0 {
        decimal((ms / 1000) as nat) + "s"@
    } else {
        decimal((ms / 1000) as nat) + "."@ + millis_fraction((ms % 1000) as nat) + "s"@
    }
}

/// The `Debug` text of a duration of `ms` milliseconds (see
/// `duration_debug`).
pub fn duration_debug_string(ms: u64) -> (s: String)
    ensures
        s@ == duration_debug(ms),
{
    let mut s = String::new();
    if ms == 0 {
        push_str(&mut s, "0ns");
    } else if ms < 1000 {
        push_decimal(&mut s, ms);
        push_str(&mut s, "ms");
    } else {
        push_decimal(&mut s, ms / 1000);
        let r = ms % 1000;
        if r != 0 {
            push_str(&mut s, ".");
            if r % 100 == 0 {
                push_decimal(&mut s, r / 100);
            } else if r % 10 == 0 {
                push_zero_padded(&mut s, r / 10, 2);
            } else {
                push_zero_padded(&mut s, r, 3);
            }
        }
        push_str(&mut s, "s");
    }
    proof {
        reveal_strlit("0ns");
        reveal_strlit("ms");
        reveal_strlit("s");
        reveal_strlit(".");
        assert(s@ =~= duration_debug(ms));
    }
    s
}

/// The id that `uuid::Uuid::parse_str` reads from a text, if it reads one.
pub uninterp spec fn uuid_from_text(s: Seq<char>) -> Option<u128>;

/// `uuid::Uuid::parse_str(s)` as a number. Trusted: the result is named
/// `uuid_from_text`; the uuid crate reads back its own hyphenated form.
#[verifier::external_body]
pub(crate) fn parse_uuid(s: &str) -> (r: Option<u128>)
    ensures
        r == uuid_from_text(s@),
        forall|x: u128| s@ == uuid_hyphenated(x) ==> r == Some(x),
{
    match uuid::Uuid::parse_str(s) {
        Ok(u) => Some(u.as_u128()),
        Err(_) => None,
    }
}

} // verus!

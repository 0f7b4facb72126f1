//! Numbers that the user types into a text field.
//!
//! A field's text is read as `std`'s `FromStr` reads an unsigned integer: an
//! optional `+`, then one or more decimal digits, whose value must fit the
//! type.

use vstd::prelude::*;
use vstd::string::StrSliceExecFns;

verus! {

pub open spec fn is_digit(c: char) -> bool {
    '0' <= c && c <= '9'
}

pub open spec fn digit_value(c: char) -> nat {
    ((c as u32) - ('0' as u32)) as nat
}

/// The value of the decimal digits `ds`, most significant first.
pub open spec fn digits_value(ds: Seq<char>) -> nat
    decreases ds.len(),
{
    if ds.len() == 0 {
        0
    } else {
        digits_value(ds.drop_last()) * 10 + digit_value(ds.last())
    }
}

/// `s` without its leading `+`, if it has one.
pub open spec fn unsigned_digits(s: Seq<char>) -> Seq<char> {
    if s.len() > 0 && s[0] == '+' {
        s.drop_first()
    } else {
        s
    }
}

/// The number that the text `s` writes, if it writes one.
pub open spec fn decimal_value(s: Seq<char>) -> Option<nat> {
    let ds = unsigned_digits(s);
    if ds.len() > 0 && forall|i: int| 0 <= i < ds.len() ==> is_digit(#[trigger] ds[i]) {
        Some(digits_value(ds))
    } else {
        None
    }
}

/// The number that `s` writes, where it writes one no larger than `max`.
pub open spec fn decimal_up_to(s: Seq<char>, max: nat) -> Option<nat> {
    match decimal_value(s) {
        Some(v) => if v <= max {
            Some(v)
        } else {
            None
        },
        None => None,
    }
}

proof fn lemma_digits_value_grows(ds: Seq<char>, k: int)
    requires
        0 <= k <= ds.len(),
        forall|i: int| 0 <= i < ds.len() ==> is_digit(#[trigger] ds[i]),
    ensures
        digits_value(ds.subrange(0, k)) <= digits_value(ds),
    decreases ds.len(),
{
    if k < ds.len() {
        let init = ds.drop_last();
        assert forall|i: int| 0 <= i < init.len() implies is_digit(#[trigger] init[i]) by {
            assert(init[i] == ds[i]);
        }
        lemma_digits_value_grows(init, k);
        assert(init.subrange(0, k) =~= ds.subrange(0, k));
    } else {
        assert(ds.subrange(0, k) =~= ds);
    }
}

proof fn lemma_digits_value_step(ds: Seq<char>, k: int)
    requires
        0 <= k < ds.len(),
    ensures
        digits_value(ds.subrange(0, k + 1)) == digits_value(ds.subrange(0, k)) * 10 + digit_value(
            ds[k],
        ),
{
    let prefix = ds.subrange(0, k + 1);
    assert(prefix.drop_last() =~= ds.subrange(0, k));
    assert(prefix.last() == ds[k]);
}

/// Reads the number that `s` writes, if it writes one no larger than `max`.
pub fn parse_decimal_up_to(s: &str, max: u128) -> (r: Option<u128>)
    ensures
        match decimal_up_to(s@, max as nat) {
            Some(v) => r == Some(v as u128),
            None => r is None,
        },
{
    let n = s.unicode_len();
    let mut start: usize = 0;
    if n > 0 && s.get_char(0) == '+' {
        start = 1;
    }
    let ghost ds = unsigned_digits(s@);
    assert(ds =~= s@.subrange(start as int, n as int));
    if start == n {
        return None;
    }
    let mut i: usize = start;
    let mut value: u128 = 0;
    while i < n
        invariant
            n == s@.len(),
            start < n,
            start <= i <= n,
            ds == s@.subrange(start as int, n as int),
            ds == unsigned_digits(s@),
            forall|j: int| 0 <= j < i - start ==> is_digit(#[trigger] ds[j]),
            value as nat == digits_value(ds.subrange(0, i - start)),
            value <= max,
        decreases n - i,
    {
        let c = s.get_char(i);
        assert(c == ds[i - start]);
        if !('0' <= c && c <= '9') {
            assert(!is_digit(ds[i - start]));
            return None;
        }
        let d = (c as u32 - '0' as u32) as u128;
        proof {
            lemma_digits_value_step(ds, i - start);
        }
        let next = match value.checked_mul(10) {
            Some(t) => t.checked_add(d),
            None => None,
        };
        match next {
            Some(v) if v <= max => {
                value = v;
                i = i + 1;
            },
            _ => {
                proof {
                    assert(digits_value(ds.subrange(0, i - start + 1)) > max);
                    if decimal_value(s@) is Some {
                        lemma_digits_value_grows(ds, i - start + 1);
                    }
                }
                return None;
            },
        }
    }
    assert(ds.subrange(0, n - start) =~= ds);
    Some(value)
}

/// The unsigned integer types that a numeric text field may hold.
pub trait Unsigned: Sized {
    /// The largest value of the type.
    spec fn max_value() -> nat;

    spec fn value_of(x: Self) -> nat;

    /// Reads the value that `s` writes, if it writes one that fits.
    fn parse_decimal(s: &str) -> (r: Option<Self>)
        ensures
            match decimal_up_to(s@, Self::max_value()) {
                Some(v) => r matches Some(x) && Self::value_of(x) == v,
                None => r is None,
            },
    ;
}

impl Unsigned for u8 {
    open spec fn max_value() -> nat {
        u8::MAX as nat
    }

    open spec fn value_of(x: u8) -> nat {
        x as nat
    }

    fn parse_decimal(s: &str) -> (r: Option<u8>) {
        match parse_decimal_up_to(s, u8::MAX as u128) {
            Some(v) => Some(v as u8),
            None => None,
        }
    }
}

impl Unsigned for u16 {
    open spec fn max_value() -> nat {
        u16::MAX as nat
    }

    open spec fn value_of(x: u16) -> nat {
        x as nat
    }

    fn parse_decimal(s: &str) -> (r: Option<u16>) {
        match parse_decimal_up_to(s, u16::MAX as u128) {
            Some(v) => Some(v as u16),
            None => None,
        }
    }
}

impl Unsigned for u32 {
    open spec fn max_value() -> nat {
        u32::MAX as nat
    }

    open spec fn value_of(x: u32) -> nat {
        x as nat
    }

    fn parse_decimal(s: &str) -> (r: Option<u32>) {
        match parse_decimal_up_to(s, u32::MAX as u128) {
            Some(v) => Some(v as u32),
            None => None,
        }
    }
}

impl Unsigned for u64 {
    open spec fn max_value() -> nat {
        u64::MAX as nat
    }

    open spec fn value_of(x: u64) -> nat {
        x as nat
    }

    fn parse_decimal(s: &str) -> (r: Option<u64>) {
        match parse_decimal_up_to(s, u64::MAX as u128) {
            Some(v) => Some(v as u64),
            None => None,
        }
    }
}

impl Unsigned for u128 {
    open spec fn max_value() -> nat {
        u128::MAX as nat
    }

    open spec fn value_of(x: u128) -> nat {
        x as nat
    }

    fn parse_decimal(s: &str) -> (r: Option<u128>) {
        parse_decimal_up_to(s, u128::MAX)
    }
}

/// What a new text of a numeric field reports: an erased field gives
/// `Some(None)`, a number that fits gives `Some(Some(v))`, and any other text
/// reports nothing.
pub fn input_change<T: Unsigned>(s: &str) -> (r: Option<Option<T>>)
    ensures
        s@.len() == 0 ==> r matches Some(None),
        s@.len() > 0 ==> match decimal_up_to(s@, T::max_value()) {
            Some(v) => r matches Some(Some(x)) && T::value_of(x) == v,
            None => r is None,
        },
{
    if s.unicode_len() == 0 {
        Some(None)
    } else {
        match T::parse_decimal(s) {
            Some(v) => Some(Some(v)),
            None => None,
        }
    }
}

} // verus!

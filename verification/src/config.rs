//! Port configuration: a configuration value is parsed as an unsigned
//! 16-bit decimal number; an absent or unparsable value silently falls
//! back to the default port.

use vstd::prelude::*;

verus! {

/// The port served when no valid configuration value is present.
pub const DEFAULT_PORT: u16 = 8080;

/// A decimal digit byte.
pub open spec fn is_digit_byte(c: u8) -> bool {
    48 <= c <= 57
}

/// Every byte of `b` is a decimal digit.
pub open spec fn all_digits(b: Seq<u8>) -> bool {
    forall|i: int| 0 <= i < b.len() ==> is_digit_byte(#[trigger] b[i])
}

/// The numeric value spelled by a sequence of decimal digit bytes.
pub open spec fn digits_val(b: Seq<u8>) -> nat
    decreases b.len(),
{
    if b.len() == 0 {
        0
    } else {
        digits_val(b.drop_last()) * 10 + (b.last() - 48) as nat
    }
}

/// The ports a configuration value names: a nonempty all-digit string
/// whose value fits in sixteen bits parses to that value; anything else
/// does not parse.
pub open spec fn parse_u16(b: Seq<u8>) -> Option<u16> {
    if b.len() > 0 && all_digits(b) && digits_val(b) <= 0xffff {
        Some(digits_val(b) as u16)
    } else {
        None
    }
}

/// The port picked for a configuration value that may be absent.
pub open spec fn configured_port(v: Option<Seq<u8>>) -> u16 {
    match v {
        Some(b) => match parse_u16(b) {
            Some(p) => p,
            None => DEFAULT_PORT,
        },
        None => DEFAULT_PORT,
    }
}

/// Parses a decimal unsigned 16-bit value from `b`; `None` exactly when
/// `b` is empty, holds a non-digit, or spells a value above `u16::MAX`.
pub fn parse_port(b: &[u8]) -> (r: Option<u16>)
    ensures
        r == parse_u16(b@),
{
    let n = b.len();
    if n == 0 {
        return None;
    }
    let mut acc: u32 = 0;
    let mut i: usize = 0;
    while i < n
        invariant
            n == b@.len(),
            0 < n,
            i <= n,
            forall|j: int| 0 <= j < i ==> is_digit_byte(#[trigger] b@[j]),
            digits_val(b@.subrange(0, i as int)) <= 0xffff ==> acc == digits_val(
                b@.subrange(0, i as int),
            ),
            digits_val(b@.subrange(0, i as int)) > 0xffff ==> acc > 0xffff,
            acc <= 0xffff * 10 + 9,
        decreases n - i,
    {
        let c = *vstd::slice::slice_index_get(b, i);
        if c < 48 || c > 57 {
            proof {
                assert(!is_digit_byte(b@[i as int]));
            }
            return None;
        }
        let d = (c - 48) as u32;
        let ghost pre = b@.subrange(0, i as int);
        let ghost cur = b@.subrange(0, i + 1);
        proof {
            assert(cur.drop_last() =~= pre);
            assert(cur.last() == b@[i as int]);
            assert(digits_val(cur) == digits_val(pre) * 10 + (b@[i as int] - 48));
        }
        if acc > 0xffff {
            proof {
                assert(digits_val(pre) > 0xffff);
                assert(digits_val(pre) * 10 >= digits_val(pre));
            }
        } else {
            acc = acc * 10 + d;
        }
        i += 1;
    }
    proof {
        assert(b@.subrange(0, n as int) =~= b@);
    }
    if acc > 0xffff {
        proof {
            assert(digits_val(b@) > 0xffff);
        }
        None
    } else {
        Some(acc as u16)
    }
}

/// The port to serve on, from a configuration value that may be absent:
/// its parsed value, or the default when it is absent or does not parse.
pub fn port_from_config(v: Option<&[u8]>) -> (p: u16)
    ensures
        p == configured_port(
            match v {
                Some(b) => Some(b@),
                None => None,
            },
        ),
{
    match v {
        Some(b) => match parse_port(b) {
            Some(p) => p,
            None => DEFAULT_PORT,
        },
        None => DEFAULT_PORT,
    }
}

} // verus!

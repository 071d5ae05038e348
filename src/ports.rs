use vstd::prelude::*;
use vstd::utf8::encode_utf8;

verus! {

/// Why a port range such as `1024-5000` was refused.
#[derive(Clone, Copy, Debug, PartialEq, Eq, Structural)]
pub enum PortRangeError {
    /// The text does not hold exactly one `-`.
    Format,
    /// The part before the `-` is not a port number.
    InvalidStart,
    /// The part after the `-` is not a port number.
    InvalidEnd,
    /// The first port is greater than the second.
    StartAfterEnd,
}

/// An ASCII decimal digit.
pub open spec fn is_digit(b: u8) -> bool {
    0x30 <= b <= 0x39
}

/// The number that the digits `s` write in decimal.
pub open spec fn decimal(s: Seq<u8>) -> int
    decreases s.len(),
{
    if s.len() == 0 {
        0
    } else {
        decimal(s.drop_last()) * 10 + (s.last() - 0x30)
    }
}

/// The port that the text `s` writes: an optional `+`, then one or more
/// decimal digits whose value is at most 65535.
pub open spec fn port_of(s: Seq<u8>) -> Option<u16> {
    let digits = digits_of(s);
    if digits.len() > 0 && (forall|i: int| 0 <= i < digits.len() ==> is_digit(#[trigger] digits[i]))
        && decimal(digits) <= 65535 {
        Some(decimal(digits) as u16)
    } else {
        None
    }
}

/// `s` without its leading `+`, if it has one.
pub open spec fn digits_of(s: Seq<u8>) -> Seq<u8> {
    if s.len() > 0 && s[0] == 0x2B {
        s.drop_first()
    } else {
        s
    }
}

/// `s` holds a `-` at `p` and at no other place.
pub open spec fn sole_dash(s: Seq<u8>, p: int) -> bool {
    0 <= p < s.len() && s[p] == 0x2D && forall|j: int|
        0 <= j < s.len() && j != p ==> #[trigger] s[j] != 0x2D
}

/// What a port range written as the bytes `s` means: the two ports on either
/// side of its only `-`, the first not greater than the second.
pub open spec fn port_range_of(s: Seq<u8>) -> Result<(u16, u16), PortRangeError> {
    if !exists|p: int| sole_dash(s, p) {
        Err(PortRangeError::Format)
    } else {
        let p = choose|p: int| sole_dash(s, p);
        match (port_of(s.subrange(0, p)), port_of(s.subrange(p + 1, s.len() as int))) {
            (None, _) => Err(PortRangeError::InvalidStart),
            (_, None) => Err(PortRangeError::InvalidEnd),
            (Some(a), Some(b)) => if a > b {
                Err(PortRangeError::StartAfterEnd)
            } else {
                Ok((a, b))
            },
        }
    }
}

/// The port that `s[start..end]` writes, if it writes one.
fn parse_port(s: &[u8], start: usize, end: usize) -> (r: Option<u16>)
    requires
        start <= end <= s@.len(),
    ensures
        r == port_of(s@.subrange(start as int, end as int)),
{
    let ghost text = s@.subrange(start as int, end as int);
    let first = if start < end && s[start] == 0x2B {
        start + 1
    } else {
        start
    };
    let ghost digits = s@.subrange(first as int, end as int);
    assert(digits == digits_of(text));
    if first == end {
        return None;
    }
    // `value` is the prefix's value, or 65536 once that exceeds 65535
    let mut value: u32 = 0;
    let mut i: usize = first;
    while i < end
        invariant
            first <= i <= end <= s@.len(),
            digits == s@.subrange(first as int, end as int),
            text == s@.subrange(start as int, end as int),
            digits == digits_of(text),
            forall|j: int| first <= j < i ==> is_digit(#[trigger] s@[j]),
            value == if decimal(s@.subrange(first as int, i as int)) > 65535 {
                65536
            } else {
                decimal(s@.subrange(first as int, i as int))
            },
        decreases end - i,
    {
        let b = s[i];
        if b < 0x30 || b > 0x39 {
            assert(!is_digit(digits[i - first]));
            return None;
        }
        let ghost before = s@.subrange(first as int, i as int);
        assert(s@.subrange(first as int, i + 1).drop_last() == before);
        let next = value * 10 + (b - 0x30) as u32;
        value = if next > 65535 {
            65536
        } else {
            next
        };
        i = i + 1;
    }
    assert(s@.subrange(first as int, end as int) == digits);
    assert forall|j: int| 0 <= j < digits.len() implies is_digit(#[trigger] digits[j]) by {
        assert(digits[j] == s@[first + j]);
    }
    if value > 65535 {
        None
    } else {
        Some(value as u16)
    }
}

/// Reads a port range written `start-end`, such as `1024-5000`.
pub fn parse_port_range(s: &str) -> (r: Result<(u16, u16), PortRangeError>)
    ensures
        r == port_range_of(encode_utf8(s@)),
{
    let b = s.as_bytes();
    let mut p: usize = 0;
    while p < b.len() && b[p] != 0x2D
        invariant
            p <= b@.len(),
            forall|j: int| 0 <= j < p ==> b@[j] != 0x2D,
        decreases b@.len() - p,
    {
        p = p + 1;
    }
    if p == b.len() {
        assert(!exists|q: int| sole_dash(b@, q));
        return Err(PortRangeError::Format);
    }
    let mut k: usize = p + 1;
    while k < b.len() && b[k] != 0x2D
        invariant
            p < k <= b@.len(),
            forall|j: int| p < j < k ==> b@[j] != 0x2D,
        decreases b@.len() - k,
    {
        k = k + 1;
    }
    if k < b.len() {
        assert(!sole_dash(b@, p as int) && !sole_dash(b@, k as int));
        assert(!exists|q: int| sole_dash(b@, q));
        return Err(PortRangeError::Format);
    }
    assert(sole_dash(b@, p as int));
    let ghost q = choose|q: int| sole_dash(b@, q);
    assert(q == p);
    match (parse_port(b, 0, p), parse_port(b, p + 1, b.len())) {
        (None, _) => Err(PortRangeError::InvalidStart),
        (_, None) => Err(PortRangeError::InvalidEnd),
        (Some(start), Some(end)) => if start > end {
            Err(PortRangeError::StartAfterEnd)
        } else {
            Ok((start, end))
        },
    }
}

} // verus!

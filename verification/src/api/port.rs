//! The port the server listens on, taken from the `PORT` environment value.
use vstd::prelude::*;
use vstd::string::StringSliceAdditionalSpecFns;

verus! {

broadcast use vstd::string::group_string_axioms;

/// The value used when `PORT` is not set.
pub const DEFAULT_PORT: u16 = 8080;

pub open spec fn is_ascii_digit(c: char) -> bool {
    '0' <= c && c <= '9'
}

pub open spec fn digit_value(c: char) -> int {
    (c as int) - ('0' as int)
}

/// The number that a sequence of decimal digits denotes, most significant first.
pub open spec fn decimal_value(ds: Seq<char>) -> int
    decreases ds.len(),
{
    if ds.len() == 0 {
        0
    } else {
        decimal_value(ds.drop_last()) * 10 + digit_value(ds.last())
    }
}

/// The digits of an unsigned number: the text without one leading `+`, if it has one.
pub open spec fn unsigned_digits(s: Seq<char>) -> Seq<char> {
    if s.len() > 0 && s[0] == '+' {
        s.drop_first()
    } else {
        s
    }
}

pub open spec fn all_digits(ds: Seq<char>) -> bool {
    forall|i: int| 0 <= i < ds.len() ==> #[trigger] is_ascii_digit(ds[i])
}

/// What parsing `s` as a `u16` gives: an optional `+`, then at least one ASCII
/// digit and nothing else, denoting a value no larger than `u16::MAX`.
pub open spec fn parsed_u16(s: Seq<char>) -> Option<u16> {
    let ds = unsigned_digits(s);
    if ds.len() > 0 && all_digits(ds) && decimal_value(ds) <= u16::MAX {
        Some(decimal_value(ds) as u16)
    } else {
        None
    }
}

proof fn lemma_decimal_value_nonneg(ds: Seq<char>)
    requires
        all_digits(ds),
    ensures
        decimal_value(ds) >= 0,
    decreases ds.len(),
{
    if ds.len() > 0 {
        assert(is_ascii_digit(ds[ds.len() - 1]));
        assert(all_digits(ds.drop_last())) by {
            assert forall|i: int| 0 <= i < ds.drop_last().len() implies #[trigger] is_ascii_digit(
                ds.drop_last()[i],
            ) by {
                assert(is_ascii_digit(ds[i]));
            }
        }
        lemma_decimal_value_nonneg(ds.drop_last());
    }
}

/// Parses decimal text as a `u16`, accepting exactly what `parsed_u16` describes.
pub fn parse_u16(s: &str) -> (r: Option<u16>)
    ensures
        r == parsed_u16(s@),
{
    if !s.is_ascii() {
        proof {
            let k = choose|k: int| 0 <= k < s@.len() && !('\0' <= #[trigger] s@[k] <= '\u{7f}');
            let ds = unsigned_digits(s@);
            if s@.len() > 0 && s@[0] == '+' {
                assert(ds[k - 1] == s@[k]);
                assert(!is_ascii_digit(ds[k - 1]));
            } else {
                assert(!is_ascii_digit(ds[k]));
            }
        }
        return None;
    }
    let bytes = s.as_bytes();
    let n = bytes.len();
    proof {
        assert(s.spec_bytes() =~= Seq::new(s@.len(), |i| s@.index(i) as u8));
        assert(bytes@ =~= Seq::new(s@.len(), |i| s@.index(i) as u8));
    }
    let mut start: usize = 0;
    if n > 0 && bytes[0] == 43u8 {
        start = 1;
    }
    let ghost ds = unsigned_digits(s@);
    assert(ds =~= s@.subrange(start as int, n as int));
    if start == n {
        return None;
    }
    let mut value: u32 = 0;
    let mut i: usize = start;
    while i < n
        invariant
            start <= i <= n,
            n == s@.len(),
            start < n,
            bytes@ =~= Seq::new(s@.len(), |j| s@.index(j) as u8),
            vstd::utf8::is_ascii_chars(s@),
            ds =~= s@.subrange(start as int, n as int),
            ds == unsigned_digits(s@),
            all_digits(ds.take(i - start)),
            value as int == decimal_value(ds.take(i - start)),
            value <= u16::MAX,
        decreases n - i,
    {
        let b = bytes[i];
        let ghost c = s@[i as int];
        assert(b == c as u8);
        assert('\0' <= c <= '\u{7f}');
        if b < 48u8 || b > 57u8 {
            assert(!is_ascii_digit(c));
            assert(ds[i - start] == c);
            assert(!is_ascii_digit(ds[i - start]));
            assert(!all_digits(ds));
            return None;
        }
        assert(is_ascii_digit(c));
        assert(digit_value(c) == b - 48);
        let ghost prefix = ds.take(i - start);
        assert(ds.take(i + 1 - start).drop_last() =~= prefix);
        assert(ds.take(i + 1 - start).last() == c);
        value = value * 10 + (b - 48u8) as u32;
        assert(value as int == decimal_value(ds.take(i + 1 - start)));
        assert(all_digits(ds.take(i + 1 - start)));
        if value > 65535u32 {
            proof {
                lemma_decimal_value_grows(ds, (i + 1 - start) as int);
            }
            return None;
        }
        i = i + 1;
    }
    assert(ds.take(n - start) =~= ds);
    Some(value as u16)
}

/// More digits never make the value smaller.
proof fn lemma_decimal_value_grows(ds: Seq<char>, k: int)
    requires
        0 <= k <= ds.len(),
        all_digits(ds.take(k)),
    ensures
        all_digits(ds) ==> decimal_value(ds.take(k)) <= decimal_value(ds),
    decreases ds.len() - k,
{
    if k < ds.len() && all_digits(ds) {
        assert(ds.take(k + 1).drop_last() =~= ds.take(k));
        assert(is_ascii_digit(ds[k]));
        assert(all_digits(ds.take(k + 1)));
        lemma_decimal_value_nonneg(ds.take(k));
        lemma_decimal_value_grows(ds, k + 1);
    } else if k == ds.len() {
        assert(ds.take(k) =~= ds);
    }
}

/// Why the `PORT` value cannot be used.
#[derive(Debug, Clone, Copy, PartialEq, Eq, Structural)]
pub enum PortError {
    /// The value is not decimal text for a number that fits in a `u16`.
    NotU16,
}

/// The port to listen on, given the `PORT` environment value (as text):
/// `DEFAULT_PORT` when it is unset, its number when it parses as a `u16`.
pub fn port_from_env(value: Option<&str>) -> (r: Result<u16, PortError>)
    ensures
        match value {
            None => r == Ok::<u16, PortError>(DEFAULT_PORT),
            Some(v) => match parsed_u16(v@) {
                Some(p) => r == Ok::<u16, PortError>(p),
                None => r == Err::<u16, PortError>(PortError::NotU16),
            },
        },
{
    match value {
        None => Ok(DEFAULT_PORT),
        Some(v) => match parse_u16(v) {
            Some(p) => Ok(p),
            None => Err(PortError::NotU16),
        },
    }
}

} // verus!

//! Durations written as text: a decimal amount and an optional unit suffix
//! (`ms`, `s`, `m`, `h`, `d`; seconds when there is none). Text that does not
//! read as an amount gives zero.
use vstd::prelude::*;
use core::time::Duration;

verus! {

#[derive(PartialEq, Eq, Structural, Clone, Copy, Debug)]
pub enum DurationUnit {
    Millis,
    Secs,
    Mins,
    Hours,
    Days,
}

pub open spec fn is_digit(c: char) -> bool {
    '0' as u32 <= c as u32 && c as u32 <= '9' as u32
}

pub open spec fn digit_value(c: char) -> nat {
    (c as u32 - '0' as u32) as nat
}

/// The number that a run of decimal digits denotes.
pub open spec fn digits_value(s: Seq<char>) -> nat
    decreases s.len(),
{
    if s.len() == 0 {
        0
    } else {
        digits_value(s.drop_last()) * 10 + digit_value(s.last())
    }
}

pub open spec fn all_digits(s: Seq<char>) -> bool {
    forall|i: int| 0 <= i < s.len() ==> is_digit(#[trigger] s[i])
}

/// What `u64::from_str` accepts: an optional `+`, then one or more decimal digits,
/// denoting a number that fits in a `u64`.
pub open spec fn parse_u64(s: Seq<char>) -> Option<u64> {
    let body = if s.len() > 0 && s[0] == '+' {
        s.drop_first()
    } else {
        s
    };
    if body.len() > 0 && all_digits(body) && digits_value(body) <= u64::MAX {
        Some(digits_value(body) as u64)
    } else {
        None
    }
}

/// The amount text and the unit of a duration text.
pub open spec fn split_unit(s: Seq<char>) -> (Seq<char>, DurationUnit) {
    let n = s.len();
    if n >= 2 && s[n - 2] == 'm' && s[n - 1] == 's' {
        (s.subrange(0, n - 2), DurationUnit::Millis)
    } else if n >= 1 && s[n - 1] == 's' {
        (s.drop_last(), DurationUnit::Secs)
    } else if n >= 1 && s[n - 1] == 'm' {
        (s.drop_last(), DurationUnit::Mins)
    } else if n >= 1 && s[n - 1] == 'h' {
        (s.drop_last(), DurationUnit::Hours)
    } else if n >= 1 && s[n - 1] == 'd' {
        (s.drop_last(), DurationUnit::Days)
    } else {
        (s, DurationUnit::Secs)
    }
}

/// The amount of a duration text, zero when it does not parse.
pub open spec fn amount_of(s: Seq<char>) -> u64 {
    match parse_u64(split_unit(s).0) {
        Some(v) => v,
        None => 0,
    }
}

pub open spec fn saturating_mul(a: u64, b: u64) -> u64 {
    if a * b > u64::MAX {
        u64::MAX
    } else {
        (a * b) as u64
    }
}

/// Whole seconds and leftover nanoseconds of a duration text; whole seconds
/// saturate at `u64::MAX`.
pub open spec fn duration_parts_of(s: Seq<char>) -> (u64, u32) {
    let v = amount_of(s);
    match split_unit(s).1 {
        DurationUnit::Millis => ((v / 1000) as u64, ((v % 1000) * 1_000_000) as u32),
        DurationUnit::Secs => (v, 0),
        DurationUnit::Mins => (saturating_mul(v, 60), 0),
        DurationUnit::Hours => (saturating_mul(v, 3600), 0),
        DurationUnit::Days => (saturating_mul(v, 86400), 0),
    }
}

proof fn lemma_prefix_value_le(s: Seq<char>, k: int)
    requires
        0 <= k <= s.len(),
    ensures
        digits_value(s.subrange(0, k)) <= digits_value(s),
    decreases s.len(),
{
    if k < s.len() {
        lemma_prefix_value_le(s.drop_last(), k);
        assert(s.drop_last().subrange(0, k) =~= s.subrange(0, k));
    } else {
        assert(s.subrange(0, k) =~= s);
    }
}

/// Parses the characters `start..end` of `s` as `u64::from_str` would.
fn parse_u64_range(s: &str, start: usize, end: usize) -> (r: Option<u64>)
    requires
        start <= end <= s@.len(),
    ensures
        r == parse_u64(s@.subrange(start as int, end as int)),
{
    let ghost t = s@.subrange(start as int, end as int);
    let mut i = start;
    if start < end && s.get_char(start) == '+' {
        i = start + 1;
    }
    let ghost body = s@.subrange(i as int, end as int);
    assert(body =~= if t.len() > 0 && t[0] == '+' {
        t.drop_first()
    } else {
        t
    });
    if i == end {
        return None;
    }
    let body_start = i;
    let mut acc: u64 = 0;
    while i < end
        invariant
            body_start <= i <= end <= s@.len(),
            body == s@.subrange(body_start as int, end as int),
            t == s@.subrange(start as int, end as int),
            body == (if t.len() > 0 && t[0] == '+' {
                t.drop_first()
            } else {
                t
            }),
            all_digits(s@.subrange(body_start as int, i as int)),
            acc as nat == digits_value(s@.subrange(body_start as int, i as int)),
        decreases end - i,
    {
        let c = s.get_char(i);
        let ghost prefix = s@.subrange(body_start as int, i as int);
        let ghost next = s@.subrange(body_start as int, i + 1);
        assert(next.drop_last() =~= prefix);
        assert(next.last() == c);
        assert(body[i - body_start] == c);
        let u = c as u32;
        if !(48 <= u && u <= 57) {
            assert(!is_digit(c));
            assert(!all_digits(body));
            return None;
        }
        let d = (u - 48) as u64;
        assert(d as nat == digit_value(c));
        let wide: u128 = (acc as u128) * 10 + (d as u128);
        if wide > u64::MAX as u128 {
            proof {
                assert(digits_value(next) == wide as nat);
                assert(next =~= body.subrange(0, i + 1 - body_start));
                lemma_prefix_value_le(body, i + 1 - body_start);
                assert(digits_value(body) > u64::MAX);
            }
            return None;
        }
        acc = wide as u64;
        assert(all_digits(next)) by {
            assert forall|j: int| 0 <= j < next.len() implies is_digit(#[trigger] next[j]) by {
                if j < prefix.len() {
                    assert(next[j] == prefix[j]);
                }
            }
        }
        i = i + 1;
    }
    Some(acc)
}

/// Seconds and nanoseconds of a duration text.
pub fn duration_parts(duration: &str) -> (r: (u64, u32))
    ensures
        r == duration_parts_of(duration@),
{
    let n = duration.unicode_len();
    let (end, unit) = if n >= 2 && duration.get_char(n - 2) == 'm' && duration.get_char(n - 1)
        == 's' {
        (n - 2, DurationUnit::Millis)
    } else if n >= 1 && duration.get_char(n - 1) == 's' {
        (n - 1, DurationUnit::Secs)
    } else if n >= 1 && duration.get_char(n - 1) == 'm' {
        (n - 1, DurationUnit::Mins)
    } else if n >= 1 && duration.get_char(n - 1) == 'h' {
        (n - 1, DurationUnit::Hours)
    } else if n >= 1 && duration.get_char(n - 1) == 'd' {
        (n - 1, DurationUnit::Days)
    } else {
        (n, DurationUnit::Secs)
    };
    assert(duration@.subrange(0, end as int) == split_unit(duration@).0) by {
        if end == n {
            assert(duration@.subrange(0, n as int) =~= duration@);
        } else if end + 1 == n {
            assert(duration@.subrange(0, end as int) =~= duration@.drop_last());
        }
    }
    let v = match parse_u64_range(duration, 0, end) {
        Some(v) => v,
        None => 0,
    };
    match unit {
        DurationUnit::Millis => (v / 1000, ((v % 1000) * 1_000_000) as u32),
        DurationUnit::Secs => (v, 0),
        DurationUnit::Mins => (mul_saturating(v, 60), 0),
        DurationUnit::Hours => (mul_saturating(v, 3600), 0),
        DurationUnit::Days => (mul_saturating(v, 86400), 0),
    }
}

fn mul_saturating(a: u64, b: u64) -> (r: u64)
    ensures
        r == saturating_mul(a, b),
{
    match a.checked_mul(b) {
        Some(p) => p,
        None => u64::MAX,
    }
}

/// Names the `Duration` of `secs` seconds and `nanos` nanoseconds.
pub uninterp spec fn duration_value(secs: u64, nanos: u32) -> Duration;

/// Relies on `Duration::new`: the duration of `secs` seconds and `nanos`
/// nanoseconds; it does not panic when `nanos` is under one second.
#[verifier::external_body]
fn make_duration(secs: u64, nanos: u32) -> (r: Duration)
    requires
        nanos < 1_000_000_000,
    ensures
        r == duration_value(secs, nanos),
{
    Duration::new(secs, nanos)
}

/// The duration that a text such as `100ms`, `10s`, `5m`, `2h`, `1d` or `123` denotes.
pub fn to_duration(duration: &str) -> (r: Duration)
    ensures
        r == duration_value(duration_parts_of(duration@).0, duration_parts_of(duration@).1),
{
    let (secs, nanos) = duration_parts(duration);
    make_duration(secs, nanos)
}

} // verus!

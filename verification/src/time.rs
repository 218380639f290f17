//! Points in time and spans of time, as the cache records them.

use vstd::prelude::*;

verus! {

/// A point in time: seconds since the Unix epoch and the nanoseconds within
/// that second (above 999,999,999 only during a leap second).
#[derive(Clone, Copy, Debug, PartialEq, Eq, Structural)]
pub struct Timestamp {
    pub secs: i64,
    pub nanos: u32,
}

/// A span of time: whole seconds and the nanoseconds below one second.
#[derive(Clone, Copy, Debug, PartialEq, Eq, Structural)]
pub struct Span {
    pub secs: u64,
    pub nanos: u32,
}

/// Whether `a` comes strictly before `b`.
pub open spec fn earlier(a: Timestamp, b: Timestamp) -> bool {
    a.secs < b.secs || (a.secs == b.secs && a.nanos < b.nanos)
}

/// `a` as a count of nanoseconds since the epoch.
pub open spec fn total_nanos(t: Timestamp) -> int {
    t.secs * 1_000_000_000 + t.nanos
}

/// `s` as a count of nanoseconds.
pub open spec fn span_nanos(s: Span) -> int {
    s.secs * 1_000_000_000 + s.nanos
}

/// What `chrono::DateTime::parse_from_rfc3339` reads from `text`, as the
/// Unix seconds and the sub-second nanoseconds of the instant it denotes.
pub uninterp spec fn rfc3339_instant(text: Seq<char>) -> Option<(i64, u32)>;

/// What `chrono::DateTime::to_rfc3339` writes for the UTC instant with these
/// Unix seconds and nanoseconds (`None` where `chrono` has no such instant).
pub uninterp spec fn rfc3339_text(secs: i64, nanos: u32) -> Option<Seq<char>>;

/// What `humantime::parse_duration` reads from `text`, as whole seconds and
/// sub-second nanoseconds.
pub uninterp spec fn humantime_span(text: Seq<char>) -> Option<(u64, u32)>;

/// Parses an RFC 3339 date and time (`chrono::DateTime::parse_from_rfc3339`)
/// and gives the instant it denotes, or `None` where `chrono` refuses it.
#[verifier::external_body]
pub(crate) fn parse_rfc3339(text: &str) -> (res: Option<Timestamp>)
    ensures
        res matches Some(t) ==> rfc3339_instant(text@) == Some((t.secs, t.nanos)),
        res is None ==> rfc3339_instant(text@) is None,
{
    match chrono::DateTime::parse_from_rfc3339(text) {
        Ok(d) => Some(Timestamp { secs: d.timestamp(), nanos: d.timestamp_subsec_nanos() }),
        Err(_) => None,
    }
}

/// Writes the UTC instant `t` in RFC 3339 form (`chrono::DateTime::from_timestamp`
/// then `to_rfc3339`), or `None` where `chrono` has no such instant.
#[verifier::external_body]
pub(crate) fn format_rfc3339(t: Timestamp) -> (res: Option<String>)
    ensures
        res matches Some(s) ==> rfc3339_text(t.secs, t.nanos) == Some(s@),
        res is None ==> rfc3339_text(t.secs, t.nanos) is None,
{
    match chrono::DateTime::from_timestamp(t.secs, t.nanos) {
        Some(d) => Some(d.to_rfc3339()),
        None => None,
    }
}

/// The number of ASCII digits `0`..`9` in `s`.
pub open spec fn digit_count(s: Seq<char>) -> nat
    decreases s.len(),
{
    if s.len() == 0 {
        0
    } else {
        digit_count(s.drop_last()) + if '0' <= s.last() && s.last() <= '9' {
            1nat
        } else {
            0nat
        }
    }
}

/// The most digits a TTL text may hold.
pub const MAX_TTL_DIGITS: usize = 12;

/// Counts the ASCII digits of `text`.
pub fn count_digits(text: &str) -> (n: usize)
    ensures
        n == digit_count(text@),
{
    let len = text.unicode_len();
    let mut n: usize = 0;
    let mut i: usize = 0;
    while i < len
        invariant
            len == text@.len(),
            i <= len,
            n == digit_count(text@.take(i as int)),
            n <= i,
        decreases len - i,
    {
        let c = text.get_char(i);
        assert(text@.take(i + 1).drop_last() =~= text@.take(i as int));
        if '0' <= c && c <= '9' {
            n = n + 1;
        }
        i = i + 1;
    }
    assert(text@.take(len as int) =~= text@);
    n
}

/// The digits of `s`, read one after another as a single decimal number
/// (other characters skipped).
pub open spec fn digit_value(s: Seq<char>) -> nat
    decreases s.len(),
{
    if s.len() == 0 {
        0
    } else if '0' <= s.last() && s.last() <= '9' {
        digit_value(s.drop_last()) * 10 + (s.last() as nat - 48) as nat
    } else {
        digit_value(s.drop_last())
    }
}

/// The largest digit value of a TTL text with more digits than
/// `MAX_TTL_DIGITS`: that many years is still below `u64::MAX` seconds.
pub const MAX_TTL_VALUE: u64 = 584_542_046_090;

/// Whether `humantime` can read `text` without the risk of a panic (see
/// `parse_span`): it holds at most `MAX_TTL_DIGITS` digits, or its digits,
/// read as one number, are at most `MAX_TTL_VALUE`.
pub open spec fn span_text_in_reach(text: Seq<char>) -> bool {
    digit_count(text) <= MAX_TTL_DIGITS || digit_value(text) <= MAX_TTL_VALUE
}

/// The digit value of `text`, or `MAX_TTL_VALUE + 1` where it is larger.
fn capped_digit_value(text: &str) -> (v: u64)
    ensures
        v == if digit_value(text@) <= MAX_TTL_VALUE {
            digit_value(text@)
        } else {
            (MAX_TTL_VALUE + 1) as nat
        },
{
    let len = text.unicode_len();
    let mut v: u64 = 0;
    let mut i: usize = 0;
    while i < len
        invariant
            len == text@.len(),
            i <= len,
            v == if digit_value(text@.take(i as int)) <= MAX_TTL_VALUE {
                digit_value(text@.take(i as int))
            } else {
                (MAX_TTL_VALUE + 1) as nat
            },
        decreases len - i,
    {
        let c = text.get_char(i);
        let ghost prev = text@.take(i as int);
        assert(text@.take(i + 1).drop_last() =~= prev);
        assert(text@.take(i + 1).last() == c);
        if '0' <= c && c <= '9' && v <= MAX_TTL_VALUE {
            let d: u64 = (c as u32 - 48) as u64;
            let next: u64 = v * 10 + d;
            v = if next > MAX_TTL_VALUE {
                MAX_TTL_VALUE + 1
            } else {
                next
            };
        }
        i = i + 1;
    }
    assert(text@.take(len as int) =~= text@);
    v
}

/// Whether a TTL text is one that `parse_span` may be given.
pub fn is_span_text_in_reach(text: &str) -> (res: bool)
    ensures
        res == span_text_in_reach(text@),
{
    count_digits(text) <= MAX_TTL_DIGITS || capped_digit_value(text) <= MAX_TTL_VALUE
}

/// Parses a human-readable duration such as `1h 30m` (`humantime::parse_duration`),
/// or `None` where `humantime` refuses it. The nanoseconds stay below one second.
///
/// `humantime` panics, instead of failing, exactly where its running total
/// reaches `u64::MAX` seconds with one whole second of nanoseconds pending
/// (as in `18446744073709551615s1000ms`); the exact value at that point
/// would then be above `u64::MAX` seconds. Each term adds at most its number
/// times the largest unit, a year of 31,557,600 seconds, plus less than one
/// unit for a nonzero fraction. Read together, the numbers and fractions of
/// the text sum to at most the digit value of the whole text, so the exact
/// value stays at or below that digit value times 31,557,600 seconds, which
/// `MAX_TTL_VALUE` keeps below `u64::MAX`. Independently, with at most twelve
/// digits the panic cannot come either: a text whose twelve digits all form
/// one number is one term with no pending nanoseconds, and otherwise every
/// number has at most eleven digits, so the total stays below
/// `(10^11 + 10) * 31_557_600 + 12 * 31_557_601` seconds.
#[verifier::external_body]
pub(crate) fn parse_span(text: &str) -> (res: Option<Span>)
    requires
        span_text_in_reach(text@),
    ensures
        res matches Some(s) ==> humantime_span(text@) == Some((s.secs, s.nanos)) && s.nanos < 1_000_000_000,
        res is None ==> humantime_span(text@) is None,
{
    match humantime::parse_duration(text) {
        Ok(d) => Some(Span { secs: d.as_secs(), nanos: d.subsec_nanos() }),
        Err(_) => None,
    }
}

/// The reading of the system clock (`std::time::SystemTime`).
#[verifier::external_type_specification]
#[verifier::external_body]
pub struct ExSystemTime(std::time::SystemTime);

/// The current reading of the system clock (`SystemTime::now`). Nothing is
/// promised of the value.
#[verifier::external_body]
fn system_now() -> (res: std::time::SystemTime) {
    std::time::SystemTime::now()
}

/// How far `t` lies from the Unix epoch (`SystemTime::duration_since` with
/// `UNIX_EPOCH`): `Ok` with the span after the epoch, or `Err` with the span
/// before it, each with the nanoseconds below one second. Which of the two
/// comes, and the span, depend on the clock's reading and are not stated.
#[verifier::external_body]
fn offset_from_epoch(t: &std::time::SystemTime) -> (res: Result<Span, Span>)
    ensures
        match res {
            Ok(s) => s.nanos < 1_000_000_000,
            Err(s) => s.nanos < 1_000_000_000,
        },
{
    match t.duration_since(std::time::UNIX_EPOCH) {
        Ok(d) => Ok(Span { secs: d.as_secs(), nanos: d.subsec_nanos() }),
        Err(e) => {
            let d = e.duration();
            Err(Span { secs: d.as_secs(), nanos: d.subsec_nanos() })
        },
    }
}

/// Signed nanoseconds from the epoch: a span after it (`Ok`) or before it (`Err`).
pub open spec fn offset_nanos(offset: Result<Span, Span>) -> int {
    match offset {
        Ok(s) => span_nanos(s),
        Err(s) => -span_nanos(s),
    }
}

/// The instant `total` nanoseconds after the epoch, its seconds rounded
/// down; an instant beyond the range of `i64` seconds is held at the
/// nearest end of that range.
pub open spec fn instant_at(total: int) -> Timestamp {
    let secs = total / 1_000_000_000;
    if secs > i64::MAX {
        Timestamp { secs: i64::MAX, nanos: 999_999_999 }
    } else if secs < i64::MIN {
        Timestamp { secs: i64::MIN, nanos: 0 }
    } else {
        Timestamp { secs: secs as i64, nanos: (total % 1_000_000_000) as u32 }
    }
}

/// The instant at a signed offset from the epoch.
pub fn timestamp_from_offset(offset: Result<Span, Span>) -> (res: Timestamp)
    ensures
        res == instant_at(offset_nanos(offset)),
{
    let (whole, rest): (i128, u32) = match offset {
        Ok(s) => {
            let w: i128 = s.secs as i128 + (s.nanos / 1_000_000_000) as i128;
            let r: u32 = s.nanos % 1_000_000_000;
            proof {
                vstd::arithmetic::div_mod::lemma_fundamental_div_mod_converse(
                    offset_nanos(offset),
                    1_000_000_000,
                    w as int,
                    r as int,
                );
            }
            (w, r)
        },
        Err(s) => {
            let w: i128 = s.secs as i128 + (s.nanos / 1_000_000_000) as i128;
            let r: u32 = s.nanos % 1_000_000_000;
            if r == 0 {
                proof {
                    vstd::arithmetic::div_mod::lemma_fundamental_div_mod_converse(
                        offset_nanos(offset),
                        1_000_000_000,
                        -w,
                        0,
                    );
                }
                (-w, 0)
            } else {
                proof {
                    vstd::arithmetic::div_mod::lemma_fundamental_div_mod_converse(
                        offset_nanos(offset),
                        1_000_000_000,
                        -w - 1,
                        1_000_000_000 - r,
                    );
                }
                (-w - 1, 1_000_000_000 - r)
            }
        },
    };
    if whole > i64::MAX as i128 {
        Timestamp { secs: i64::MAX, nanos: 999_999_999 }
    } else if whole < i64::MIN as i128 {
        Timestamp { secs: i64::MIN, nanos: 0 }
    } else {
        Timestamp { secs: whole as i64, nanos: rest }
    }
}

/// Whether `res` is the instant that the clock reading `t` denotes: the
/// instant at the offset from the epoch that `t` was found to have.
pub closed spec fn denotes_reading(t: std::time::SystemTime, res: Timestamp) -> bool {
    exists|offset: Result<Span, Span>|
        call_ensures(offset_from_epoch, (&t,), offset) && #[trigger] instant_at(offset_nanos(offset))
            == res
}

/// The instant that a reading of the system clock denotes.
pub fn timestamp_of(t: &std::time::SystemTime) -> (res: Timestamp)
    ensures
        res.nanos < 1_000_000_000,
        denotes_reading(*t, res),
{
    let offset = offset_from_epoch(t);
    let res = timestamp_from_offset(offset);
    assert(call_ensures(offset_from_epoch, (t,), offset) && instant_at(offset_nanos(offset)) == res);
    res
}

/// Whether `res` is an instant the system clock read: the instant that a
/// reading returned by `SystemTime::now` denotes.
pub closed spec fn is_clock_reading(res: Timestamp) -> bool {
    exists|t: std::time::SystemTime| call_ensures(system_now, (), t) && #[trigger] denotes_reading(t, res)
}

/// The current time, read from the system clock: the instant that the
/// clock's reading denotes, its nanoseconds below one second; a clock set
/// before 1970 gives an instant before the epoch.
pub fn now_utc() -> (res: Timestamp)
    ensures
        res.nanos < 1_000_000_000,
        is_clock_reading(res),
{
    let t = system_now();
    let res = timestamp_of(&t);
    assert(call_ensures(system_now, (), t) && denotes_reading(t, res));
    res
}

/// Whether `span` is more than `chrono::TimeDelta` holds, `i64::MAX`
/// milliseconds: `TimeDelta::from_std` refuses such a span.
pub open spec fn exceeds_time_delta(span: Span) -> bool {
    span.secs > 9_223_372_036_854_775 || (span.secs == 9_223_372_036_854_775 && span.nanos
        > 807_000_000)
}

impl Span {
    /// Whether the span fits in a `chrono::TimeDelta`.
    pub fn fits_time_delta(&self) -> (res: bool)
        ensures
            res == !exceeds_time_delta(*self),
    {
        !(self.secs > 9_223_372_036_854_775 || (self.secs == 9_223_372_036_854_775 && self.nanos
            > 807_000_000))
    }
}

impl Timestamp {
    /// The nanoseconds from the epoch to `self`, or `None` where they do not
    /// fit in an `i64`.
    pub fn nanos_since_epoch(&self) -> (res: Option<i64>)
        ensures
            match res {
                Some(n) => n == total_nanos(*self),
                None => !(i64::MIN <= total_nanos(*self) <= i64::MAX),
            },
    {
        let total: i128 = self.secs as i128 * 1_000_000_000 + self.nanos as i128;
        if total < i64::MIN as i128 || total > i64::MAX as i128 {
            None
        } else {
            Some(total as i64)
        }
    }

    /// Whether `self` comes strictly before `other`.
    pub fn is_before(&self, other: &Timestamp) -> (res: bool)
        ensures
            res == earlier(*self, *other),
    {
        self.secs < other.secs || (self.secs == other.secs && self.nanos < other.nanos)
    }

    /// `self` moved forward by `span`: the instant `span` later, with the
    /// nanoseconds below one second; `None` when its seconds leave the range
    /// of `i64`.
    pub fn checked_add(&self, span: &Span) -> (res: Option<Timestamp>)
        ensures
            ({
                let total = total_nanos(*self) + span_nanos(*span);
                &&& res matches Some(t) ==> t.secs == total / 1_000_000_000 && t.nanos == total
                    % 1_000_000_000
                &&& res is None <==> !(i64::MIN <= total / 1_000_000_000 <= i64::MAX)
            }),
    {
        let nanos: u64 = self.nanos as u64 + span.nanos as u64;
        let carry: u64 = nanos / 1_000_000_000;
        let rest: u64 = nanos % 1_000_000_000;
        let wide: i128 = self.secs as i128 + span.secs as i128 + carry as i128;
        proof {
            let total = total_nanos(*self) + span_nanos(*span);
            let j = self.secs + span.secs;
            assert(total == nanos + j * 1_000_000_000);
            vstd::arithmetic::div_mod::lemma_hoist_over_denominator(nanos as int, j, 1_000_000_000);
            vstd::arithmetic::div_mod::lemma_mod_multiples_vanish(j, nanos as int, 1_000_000_000);
            assert(total / 1_000_000_000 == wide);
            assert(total % 1_000_000_000 == rest);
        }
        if wide < i64::MIN as i128 || wide > i64::MAX as i128 {
            return None;
        }
        Some(Timestamp { secs: wide as i64, nanos: rest as u32 })
    }
}

/// The instant at an offset from the epoch lies exactly that many
/// nanoseconds from the epoch, with the nanoseconds below one second, for
/// every offset whose seconds stay in the range of `i64`.
pub proof fn lemma_offset_instant_is_exact(offset: Result<Span, Span>)
    requires
        match offset {
            Ok(s) => s.nanos < 1_000_000_000 && s.secs <= i64::MAX,
            Err(s) => s.nanos < 1_000_000_000 && s.secs < i64::MAX,
        },
    ensures
        ({
            let r = instant_at(offset_nanos(offset));
            &&& r.nanos < 1_000_000_000
            &&& r.secs * 1_000_000_000 + r.nanos == match offset {
                Ok(s) => s.secs * 1_000_000_000 + s.nanos,
                Err(s) => -(s.secs * 1_000_000_000 + s.nanos),
            }
        }),
{
    let total = offset_nanos(offset);
    match offset {
        Ok(s) => {
            vstd::arithmetic::div_mod::lemma_fundamental_div_mod_converse(
                total,
                1_000_000_000,
                s.secs as int,
                s.nanos as int,
            );
        },
        Err(s) => {
            if s.nanos == 0 {
                vstd::arithmetic::div_mod::lemma_fundamental_div_mod_converse(
                    total,
                    1_000_000_000,
                    -s.secs,
                    0,
                );
            } else {
                vstd::arithmetic::div_mod::lemma_fundamental_div_mod_converse(
                    total,
                    1_000_000_000,
                    -s.secs - 1,
                    1_000_000_000 - s.nanos,
                );
            }
        },
    }
}

} // verus!

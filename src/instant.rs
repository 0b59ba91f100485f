//! Instants and spans of time as plain integers.
use vstd::prelude::*;

verus! {

/// The instant that an ISO 8601 timestamp names, as whole Unix seconds and the
/// nanosecond within the second, or `None` where the text is no such timestamp.
pub uninterp spec fn iso8601_instant(text: Seq<char>) -> Option<(int, int)>;

/// Relies on `time::OffsetDateTime::parse` with `Iso8601::DEFAULT`: whether the
/// text parses, and to which instant, depends on the text alone. The instant is
/// read back through `unix_timestamp` and `nanosecond`, whose value is
/// documented to lie in `0..1_000_000_000`.
#[verifier::external_body]
pub(crate) fn parse_iso8601(text: &str) -> (r: Option<Timestamp>)
    ensures
        match iso8601_instant(text@) {
            None => r is None,
            Some(p) => r is Some && r->0.unix_seconds == p.0 && r->0.nanosecond == p.1,
        },
        r is Some ==> r->0.wf(),
{
    match time::OffsetDateTime::parse(text, &time::format_description::well_known::Iso8601::DEFAULT) {
        Ok(t) => Some(Timestamp { unix_seconds: t.unix_timestamp(), nanosecond: t.nanosecond() }),
        Err(_) => None,
    }
}

/// Relies on `time::OffsetDateTime::now_utc`: some instant, read back through
/// `unix_timestamp` and `nanosecond`, whose value lies in `0..1_000_000_000`.
#[verifier::external_body]
pub(crate) fn current_instant() -> (r: Timestamp)
    ensures
        r.wf(),
{
    let t = time::OffsetDateTime::now_utc();
    Timestamp { unix_seconds: t.unix_timestamp(), nanosecond: t.nanosecond() }
}

/// Nanoseconds in one second.
pub const NANOS_PER_SECOND: i128 = 1_000_000_000;

/// An instant on the UTC time line: whole seconds since the Unix epoch and the
/// nanosecond within that second.
#[derive(Clone, Copy, Debug, PartialEq, Eq, Structural)]
pub struct Timestamp {
    pub unix_seconds: i64,
    pub nanosecond: u32,
}

impl Timestamp {
    /// The instant named by an ISO 8601 timestamp with a UTC offset, or `None`
    /// where `text` is not one.
    pub fn parse(text: &str) -> (r: Option<Timestamp>)
        ensures
            r == instant_of(text@),
            r is Some ==> r->0.wf(),
    {
        parse_iso8601(text)
    }

    /// The nanosecond lies within its second.
    pub open spec fn wf(self) -> bool {
        self.nanosecond < 1_000_000_000
    }

    /// Nanoseconds since the Unix epoch.
    pub open spec fn total_nanos(self) -> int {
        self.unix_seconds * 1_000_000_000 + self.nanosecond
    }

    /// The instant now, as the system clock gives it.
    pub fn now() -> (r: Timestamp)
        ensures
            r.wf(),
    {
        current_instant()
    }

    /// The signed span from `earlier` to `self`.
    pub fn since(&self, earlier: &Timestamp) -> (r: Duration)
        ensures
            r.nanos == self.total_nanos() - earlier.total_nanos(),
    {
        let secs: i128 = self.unix_seconds as i128 - earlier.unix_seconds as i128;
        let frac: i128 = self.nanosecond as i128 - earlier.nanosecond as i128;
        assert(-0x1_0000_0000_0000_0000 <= secs <= 0x1_0000_0000_0000_0000);
        assert(-0x1_0000_0000_0000_0000 * 1_000_000_000 <= secs * 1_000_000_000
            <= 0x1_0000_0000_0000_0000 * 1_000_000_000) by (nonlinear_arith)
            requires
                -0x1_0000_0000_0000_0000 <= secs <= 0x1_0000_0000_0000_0000,
        ;
        Duration { nanos: secs * NANOS_PER_SECOND + frac }
    }
}

/// The instant named by an ISO 8601 timestamp, as a `Timestamp`.
pub open spec fn instant_of(text: Seq<char>) -> Option<Timestamp> {
    match iso8601_instant(text) {
        None => None,
        Some(p) => Some(Timestamp { unix_seconds: p.0 as i64, nanosecond: p.1 as u32 }),
    }
}

/// A signed span of time in nanoseconds.
#[derive(Clone, Copy, Debug, PartialEq, Eq, Structural)]
pub struct Duration {
    pub nanos: i128,
}

/// `a / b` rounded toward zero, for a positive `b`.
pub open spec fn div_toward_zero(a: int, b: int) -> int {
    if a >= 0 {
        a / b
    } else {
        -((-a) / b)
    }
}

impl Duration {
    /// The whole seconds of the span, rounded toward zero.
    pub fn whole_seconds(&self) -> (r: i128)
        ensures
            r == div_toward_zero(self.nanos as int, 1_000_000_000),
    {
        if self.nanos >= 0 {
            self.nanos / NANOS_PER_SECOND
        } else {
            let a: i128 = -(self.nanos + 1);
            let q: i128 = a / NANOS_PER_SECOND;
            let m: i128 = a % NANOS_PER_SECOND;
            if m == NANOS_PER_SECOND - 1 {
                -(q + 1)
            } else {
                -q
            }
        }
    }

    /// The whole minutes of the span, rounded toward zero.
    pub fn whole_minutes(&self) -> (r: i128)
        ensures
            r == div_toward_zero(div_toward_zero(self.nanos as int, 1_000_000_000), 60),
    {
        let s = self.whole_seconds();
        if s >= 0 {
            s / 60
        } else {
            -((-s) / 60)
        }
    }
}

} // verus!

//! Instants.

use vstd::prelude::*;

verus! {

/// An instant: whole seconds since the Unix epoch, and nanoseconds beyond them.
#[derive(Clone, Copy, Debug, PartialEq, Eq, Structural)]
pub struct Time {
    secs: i64,
    nanos: u32,
}

impl View for Time {
    type V = int;

    /// Nanoseconds since the Unix epoch.
    closed spec fn view(&self) -> int {
        self.secs * 1_000_000_000 + self.nanos
    }
}

impl Time {
    #[verifier::type_invariant]
    spec fn wf(self) -> bool {
        self.nanos < 1_000_000_000
    }

    /// The instant `nanos` nanoseconds after `secs` seconds since the epoch, where
    /// `nanos` is less than a second.
    pub fn new(secs: i64, nanos: u32) -> (t: Option<Time>)
        ensures
            t is Some <==> nanos < 1_000_000_000,
            t matches Some(x) ==> x@ == secs * 1_000_000_000 + nanos,
    {
        if nanos < 1_000_000_000 {
            Some(Time { secs, nanos })
        } else {
            None
        }
    }

    /// The instant `secs` seconds since the epoch.
    pub fn from_secs(secs: i64) -> (t: Time)
        ensures
            t@ == secs * 1_000_000_000,
    {
        Time { secs, nanos: 0 }
    }

    /// The instant `n` nanoseconds since the epoch.
    pub fn from_nanos(n: i128) -> (t: Time)
        requires
            -9_223_372_036_854_775_808_000_000_000 <= n < 9_223_372_036_854_775_808_000_000_000,
        ensures
            t@ == n,
    {
        let shifted: u128 = (n + 9_223_372_036_854_775_808_000_000_000i128) as u128;
        let secs: i128 = (shifted / 1_000_000_000u128) as i128 - 9_223_372_036_854_775_808i128;
        let nanos: u32 = (shifted % 1_000_000_000u128) as u32;
        Time { secs: secs as i64, nanos }
    }

    /// Whole seconds since the epoch, rounded down.
    pub fn seconds(self) -> (s: i64)
        ensures
            s == self@ / 1_000_000_000,
    {
        proof {
            use_type_invariant(self);
        }
        self.secs
    }

    /// Nanoseconds since the Unix epoch.
    pub fn as_nanos(self) -> (n: i128)
        ensures
            n == self@,
    {
        (self.secs as i128) * 1_000_000_000i128 + (self.nanos as i128)
    }

    /// Whether this instant is `other` or later.
    pub fn at_or_after(self, other: Time) -> (r: bool)
        ensures
            r == (self@ >= other@),
    {
        self.as_nanos() >= other.as_nanos()
    }
}

/// The instant that a timestamp names, in nanoseconds since the Unix epoch.
pub uninterp spec fn parsed_timestamp(text: Seq<char>) -> Option<int>;

/// Calls jiff's `Timestamp::from_str`, which reads RFC 3339 and the like. Claims
/// that the outcome depends on the text alone, and that a timestamp lies within
/// the range that jiff documents. Which texts are timestamps is not said.
#[verifier::external_body]
fn timestamp_nanos(text: &str) -> (r: Option<i128>)
    ensures
        r is Some <==> parsed_timestamp(text@) is Some,
        r matches Some(n) ==> parsed_timestamp(text@) == Some(n as int),
        r matches Some(n) ==> -377_705_023_202_000_000_000 <= n <= 253_402_207_201_000_000_000,
{
    text.parse::<k8s_openapi::jiff::Timestamp>().ok().map(|t| t.as_nanosecond())
}

/// How jiff writes the instant at `nanos` nanoseconds since the epoch, where it can.
pub uninterp spec fn timestamp_text(nanos: int) -> Option<Seq<char>>;

/// The first nanosecond of the year 0, counted from the Unix epoch.
pub const YEAR_ZERO: i128 = -62_167_219_200_000_000_000;

/// The last nanosecond that jiff's timestamps reach, counted from the Unix epoch.
pub const LAST_NANOSECOND: i128 = 253_402_207_200_999_999_999;

/// Whether an instant can be written with a year of four digits.
pub open spec fn four_digit_year(instant: int) -> bool {
    YEAR_ZERO <= instant <= LAST_NANOSECOND
}

/// An instant as seconds since the epoch and nanoseconds beyond them.
pub open spec fn instant_parts(instant: int) -> (i64, u32) {
    ((instant / 1_000_000_000) as i64, (instant % 1_000_000_000) as u32)
}

/// Calls jiff's `Timestamp::from_nanosecond` and writes the timestamp with its
/// `Display`. Claims that the outcome depends on the number alone, and that there is
/// a text for each instant from the year 0 to the last one that jiff reaches. What
/// the text looks like is not said.
#[verifier::external_body]
fn write_timestamp(nanos: i128) -> (r: Option<String>)
    ensures
        crate::collections::opt(r) == timestamp_text(nanos as int),
        four_digit_year(nanos as int) ==> r is Some,
{
    k8s_openapi::jiff::Timestamp::from_nanosecond(nanos).ok().map(|t| t.to_string())
}

/// How chrono writes the instant `nanos` nanoseconds after `secs` seconds since the
/// epoch, where there is such an instant.
pub uninterp spec fn wire_text(secs: i64, nanos: u32) -> Option<Seq<char>>;

/// Calls chrono's `DateTime::from_timestamp`, and writes the instant with
/// `to_rfc3339_opts` as chrono's own serialization does. Claims that the outcome
/// depends on the two numbers alone, and that the numbers of some hundred thousand
/// years around the epoch are an instant. What the text looks like is not said.
#[verifier::external_body]
fn write_wire_time(secs: i64, nanos: u32) -> (r: Option<String>)
    ensures
        crate::collections::opt(r) == wire_text(secs, nanos),
        -8_000_000_000_000 <= secs <= 8_000_000_000_000 && nanos < 1_000_000_000 ==> r is Some,
{
    chrono::DateTime::from_timestamp(secs, nanos).map(
        |d| d.to_rfc3339_opts(chrono::SecondsFormat::AutoSi, true),
    )
}

/// The instant that an RFC 3339 text names, by chrono: seconds since the epoch, and
/// nanoseconds beyond them.
pub uninterp spec fn rfc3339_parts(text: Seq<char>) -> Option<(i64, u32)>;

/// Calls chrono's `DateTime::parse_from_rfc3339`. Claims that the outcome depends on
/// the text alone, and that what jiff's `Display` writes for an instant, with a year
/// of four digits, is read as that instant. Which other texts it reads is not said.
#[verifier::external_body]
fn read_rfc3339(text: &str) -> (r: Option<(i64, u32)>)
    ensures
        r == rfc3339_parts(text@),
        forall|n: int|
            four_digit_year(n) && #[trigger] timestamp_text(n) == Some(text@) ==> r == Some(
                instant_parts(n),
            ),
{
    chrono::DateTime::parse_from_rfc3339(text).ok().map(
        |d| (d.timestamp(), d.timestamp_subsec_nanos()),
    )
}

/// An instant as the wire carries it: the nanoseconds go beyond a second for a leap
/// second.
#[derive(Debug, PartialEq)]
pub struct WireTime {
    secs: i64,
    nanos: u32,
    text: String,
}

impl View for WireTime {
    type V = (i64, u32);

    closed spec fn view(&self) -> (i64, u32) {
        (self.secs, self.nanos)
    }
}

impl WireTime {
    #[verifier::type_invariant]
    spec fn wf(self) -> bool {
        wire_text(self.secs, self.nanos) == Some(self.text@)
    }

    /// The instant `nanos` nanoseconds after `secs` seconds since the epoch, where
    /// there is one.
    pub fn new(secs: i64, nanos: u32) -> (r: Option<WireTime>)
        ensures
            r is Some <==> wire_text(secs, nanos) is Some,
            r matches Some(t) ==> t@ == (secs, nanos),
            -8_000_000_000_000 <= secs <= 8_000_000_000_000 && nanos < 1_000_000_000 ==> r is Some,
    {
        match write_wire_time(secs, nanos) {
            Some(text) => Some(WireTime { secs, nanos, text }),
            None => None,
        }
    }

    /// The instant that an RFC 3339 text names. A timestamp, with a year of four
    /// digits, names the instant that it was written for.
    pub fn parse(text: &str) -> (r: Option<WireTime>)
        ensures
            crate::collections::opt(r) == parsed_wire(text@),
            forall|n: int|
                four_digit_year(n) && #[trigger] timestamp_text(n) == Some(text@) ==> (
                r matches Some(t) && t@ == instant_parts(n)),
    {
        match read_rfc3339(text) {
            Some(p) => WireTime::new(p.0, p.1),
            None => None,
        }
    }

    /// The epoch.
    pub fn epoch() -> (t: WireTime)
        ensures
            t@ == (0i64, 0u32),
    {
        WireTime::new(0, 0).unwrap()
    }

    /// How the wire writes the instant.
    pub fn text(&self) -> (out: &str)
        ensures
            wire_text(self@.0, self@.1) == Some(out@),
    {
        proof {
            use_type_invariant(self);
        }
        self.text.as_str()
    }

    /// Seconds since the epoch.
    pub fn seconds(&self) -> (s: i64)
        ensures
            s == self@.0,
    {
        self.secs
    }

    /// Nanoseconds beyond the seconds.
    pub fn nanos(&self) -> (n: u32)
        ensures
            n == self@.1,
    {
        self.nanos
    }
}

/// The instant that an RFC 3339 text names.
pub open spec fn parsed_wire(text: Seq<char>) -> Option<(i64, u32)> {
    match rfc3339_parts(text) {
        Some(p) => if wire_text(p.0, p.1) is Some {
            Some(p)
        } else {
            None
        },
        None => None,
    }
}

/// An instant as the wire carries it: written as a timestamp, and read back.
pub open spec fn wire_of(instant: int) -> Option<(i64, u32)> {
    match timestamp_text(instant) {
        Some(t) => parsed_wire(t),
        None => None,
    }
}

impl Time {
    /// The instant as the wire carries it: written as a timestamp, and read back. It
    /// is the same instant, where its year has four digits.
    pub fn to_wire(self) -> (r: Option<WireTime>)
        ensures
            crate::collections::opt(r) == wire_of(self@),
            four_digit_year(self@) ==> wire_of(self@) == Some(instant_parts(self@)),
    {
        match write_timestamp(self.as_nanos()) {
            Some(t) => WireTime::parse(t.as_str()),
            None => None,
        }
    }
}

/// The instant that a timestamp names, where `text` is one.
pub fn parse_timestamp(text: &str) -> (r: Option<Time>)
    ensures
        r is Some <==> parsed_timestamp(text@) is Some,
        r matches Some(t) ==> parsed_timestamp(text@) == Some(t@),
{
    match timestamp_nanos(text) {
        Some(n) => Some(Time::from_nanos(n)),
        None => None,
    }
}

/// Whole seconds from `now` until `then`, and 0 where `then` has passed.
pub open spec fn secs_until(now: Time, then: Time) -> int {
    if then@ > now@ {
        (then@ - now@) / 1_000_000_000
    } else {
        0
    }
}

/// Whole seconds from `now` until `then`, and 0 where `then` has passed.
pub fn seconds_until(now: Time, then: Time) -> (s: u64)
    ensures
        s == secs_until(now, then),
{
    proof {
        use_type_invariant(now);
        use_type_invariant(then);
    }
    let a: i128 = now.as_nanos();
    let b: i128 = then.as_nanos();
    if b > a {
        let d: u128 = (b - a) as u128;
        (d / 1_000_000_000u128) as u64
    } else {
        0
    }
}

/// A text names an instant where it is RFC 3339 and the instant can be told again.
pub proof fn an_instant_is_read_where_it_can_be_told(text: Seq<char>, secs: i64, nanos: u32)
    ensures
        parsed_wire(text) == Some((secs, nanos)) <==> rfc3339_parts(text) == Some((secs, nanos))
            && wire_text(secs, nanos) is Some,
{
}

/// The seconds until an instant are those that pass: no more than there are, and less than
/// one short of it.
pub proof fn seconds_do_not_overrun(now: Time, then: Time)
    ensures
        secs_until(now, then) >= 0,
        then@ >= now@ ==> now@ + secs_until(now, then) * 1_000_000_000 <= then@,
        then@ < now@ + (secs_until(now, then) + 1) * 1_000_000_000,
        then@ <= now@ ==> secs_until(now, then) == 0,
{
}

} // verus!

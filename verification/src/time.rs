//! Instants of time and their RFC 3339 texts, as `chrono` keeps them.
use vstd::prelude::*;

verus! {

/// The first second that a date of `chrono` can name.
pub const FIRST_SECOND: i64 = -8_334_601_228_800;

/// The last second that a date of `chrono` can name.
pub const LAST_SECOND: i64 = 8_210_266_876_799;

/// An instant: whole seconds since the Unix epoch, and the nanoseconds past them. A leap second
/// is the second before it with a billion nanoseconds more.
#[derive(Debug, Clone, Copy, PartialEq, Eq, Structural)]
pub struct Instant {
    pub secs: i64,
    pub nanos: u32,
}

impl Instant {
    /// Whether this is an instant that a date can name.
    pub open spec fn valid(self) -> bool {
        &&& FIRST_SECOND <= self.secs <= LAST_SECOND
        &&& self.nanos < 2_000_000_000
        &&& self.nanos >= 1_000_000_000 ==> self.secs % 60 == 59
    }

    /// Whether this is an instant of the years 0 to 9999.
    pub open spec fn plain(self) -> bool {
        -62_167_219_200 <= self.secs <= 253_402_300_799
    }

    /// Milliseconds since the Unix epoch.
    pub open spec fn millis(self) -> int {
        self.secs * 1000 + self.nanos as int / 1_000_000
    }

    /// Nanoseconds from `earlier` to this instant. A leap second counts where it lies between
    /// the two times of day.
    pub open spec fn nanos_since(self, earlier: Instant) -> int {
        let leap: int = if self.secs % 86_400 > earlier.secs % 86_400 && earlier.nanos
            >= 1_000_000_000 {
            1
        } else if self.secs % 86_400 < earlier.secs % 86_400 && self.nanos >= 1_000_000_000 {
            -1
        } else {
            0
        };
        (self.secs - earlier.secs + leap) * 1_000_000_000 + self.nanos - earlier.nanos
    }

    /// Whole days from `earlier` to this instant, rounded toward zero.
    pub open spec fn days_since(self, earlier: Instant) -> int {
        let n = self.nanos_since(earlier);
        if n >= 0 {
            n / 86_400_000_000_000
        } else {
            -(-n / 86_400_000_000_000)
        }
    }

    /// The instant that lies `ms` milliseconds after the Unix epoch, if a date can name it.
    pub open spec fn at_millis(ms: i64) -> Option<Instant> {
        let secs = ms as int / 1000;
        if FIRST_SECOND <= secs <= LAST_SECOND {
            Some(Instant { secs: secs as i64, nanos: ((ms as int % 1000) * 1_000_000) as u32 })
        } else {
            None
        }
    }

    /// Milliseconds since the Unix epoch.
    pub fn to_millis(self) -> (ms: i64)
        requires
            self.valid(),
        ensures
            ms == self.millis(),
    {
        self.secs * 1000 + (self.nanos / 1_000_000) as i64
    }
}

/// How an instant is written in RFC 3339, in UTC, with as many fractional digits as it needs.
pub uninterp spec fn rfc3339_text(at: Instant) -> Seq<char>;

/// The instant that an RFC 3339 text names.
pub uninterp spec fn rfc3339_instant(s: Seq<char>) -> Option<Instant>;

/// `chrono::Utc::now`: the clock shows some date after the epoch, never within a leap second.
/// Which one is up to the machine. A machine whose clock is set to before the epoch is not
/// provided for: the call does not return there.
#[verifier::external_body]
pub(crate) fn utc_now() -> (now: Instant)
    ensures
        now.valid(),
        now.secs >= 0,
        now.nanos < 1_000_000_000,
{
    let now = chrono::Utc::now();
    Instant { secs: now.timestamp(), nanos: now.timestamp_subsec_nanos() }
}

/// `chrono::DateTime::from_timestamp_millis`: the instant so many milliseconds after the epoch,
/// or nothing where no date can name it.
#[verifier::external_body]
pub(crate) fn instant_at_millis(ms: i64) -> (at: Option<Instant>)
    ensures
        at == Instant::at_millis(ms),
{
    let at = chrono::DateTime::from_timestamp_millis(ms)?;
    Some(Instant { secs: at.timestamp(), nanos: at.timestamp_subsec_nanos() })
}

/// Whether what the text of an instant reads as is the instant itself. An instant outside the
/// years 0 to 9999 is written with a sign, and its text does not read as one.
pub open spec fn reads_back(at: Instant) -> bool {
    rfc3339_instant(rfc3339_text(at)) == if at.plain() {
        Some(at)
    } else {
        None
    }
}

/// `chrono::DateTime::to_rfc3339`, in UTC. `chrono::DateTime::parse_from_rfc3339` reads the text
/// of an instant of the years 0 to 9999 as that instant. Any other year is written with a sign,
/// which it takes for an error.
#[verifier::external_body]
pub(crate) fn format_rfc3339(at: Instant) -> (text: String)
    requires
        at.valid(),
    ensures
        text@ == rfc3339_text(at),
        rfc3339_instant(text@) == (if at.plain() {
            Some(at)
        } else {
            None
        }),
{
    chrono::DateTime::from_timestamp(at.secs, at.nanos).unwrap().to_rfc3339()
}

/// `chrono::DateTime::parse_from_rfc3339`: nothing where the text is not in that format.
#[verifier::external_body]
pub(crate) fn parse_rfc3339(s: &str) -> (at: Option<Instant>)
    ensures
        at == rfc3339_instant(s@),
        at matches Some(at) ==> at.valid(),
{
    let at = chrono::DateTime::parse_from_rfc3339(s).ok()?;
    Some(Instant { secs: at.timestamp(), nanos: at.timestamp_subsec_nanos() })
}

/// The difference of two `chrono::NaiveDateTime`s in UTC, in whole days
/// (`chrono::TimeDelta::num_days`).
#[verifier::external_body]
pub(crate) fn days_between(now: Instant, earlier: Instant) -> (days: i64)
    requires
        now.valid(),
        earlier.valid(),
    ensures
        days == now.days_since(earlier),
{
    let now = chrono::DateTime::from_timestamp(now.secs, now.nanos).unwrap();
    let earlier = chrono::DateTime::from_timestamp(earlier.secs, earlier.nanos).unwrap();
    (now.naive_utc() - earlier.naive_utc()).num_days()
}

} // verus!

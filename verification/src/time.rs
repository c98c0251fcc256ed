use vstd::prelude::*;

verus! {

/// Seconds from the Unix epoch to the first instant chrono represents
/// (January 1, 262144 BCE, 00:00:00 UTC).
pub const CHRONO_MIN_SECS: i64 = -8_334_601_228_800;

/// Seconds from the Unix epoch to the last whole second chrono represents
/// (December 31, 262142 CE, 23:59:59 UTC).
pub const CHRONO_MAX_SECS: i64 = 8_210_266_876_799;

/// Whether chrono can represent the UTC instant `secs` seconds and `nanos`
/// nanoseconds after the Unix epoch (`DateTime::from_timestamp` is `Some`):
/// its date lies within chrono's range, and its nanoseconds are below a
/// billion, or below two billion at second 59 of a minute (a leap second).
pub open spec fn chrono_representable(secs: i64, nanos: u32) -> bool {
    &&& CHRONO_MIN_SECS <= secs <= CHRONO_MAX_SECS
    &&& (nanos < 1_000_000_000 || (nanos < 2_000_000_000 && secs % 60 == 59))
}

/// What chrono's `checked_add_signed` gives for the instant `(secs, nanos)`
/// moved by `delta` whole seconds, as `(seconds, nanoseconds)`.
pub uninterp spec fn chrono_add_seconds(secs: i64, nanos: u32, delta: i64) -> Option<(i64, u32)>;

/// The RFC 3339 text that chrono writes for a UTC instant (`SecondsFormat::AutoSi`,
/// with a trailing `Z`), which is also how a `DateTime<Utc>` is serialised.
pub uninterp spec fn chrono_rfc3339(secs: i64, nanos: u32) -> Seq<char>;

/// A UTC instant, held as the seconds and nanoseconds since the Unix epoch
/// that chrono uses for a `DateTime<Utc>`; every value is one chrono can represent.
#[derive(Debug, Clone, Copy, PartialEq, Eq, Structural)]
pub struct Timestamp {
    secs: i64,
    nanos: u32,
}

impl Timestamp {
    #[verifier::type_invariant]
    pub closed spec fn representable(self) -> bool {
        chrono_representable(self.secs, self.nanos)
    }

    /// Seconds since the Unix epoch.
    pub closed spec fn secs_spec(self) -> i64 {
        self.secs
    }

    /// Sub-second nanoseconds.
    pub closed spec fn nanos_spec(self) -> u32 {
        self.nanos
    }

    /// Two instants with the same seconds and nanoseconds are the same value.
    pub proof fn lemma_ext(a: Timestamp, b: Timestamp)
        ensures
            a.secs_spec() == b.secs_spec() && a.nanos_spec() == b.nanos_spec() ==> a == b,
    {
    }

    /// The instant `secs` seconds and `nanos` nanoseconds after the Unix epoch,
    /// or `None` where chrono cannot represent it.
    pub fn new(secs: i64, nanos: u32) -> (r: Option<Timestamp>)
        ensures
            r is Some <==> chrono_representable(secs, nanos),
            r matches Some(t) ==> t.secs_spec() == secs && t.nanos_spec() == nanos,
            0 <= secs < CHRONO_SAFE_SECS && nanos < 1_000_000_000 ==> r is Some,
    {
        timestamp_from_unix(secs, nanos)
    }

    /// Seconds since the Unix epoch.
    pub fn secs(&self) -> (r: i64)
        ensures
            r == self.secs_spec(),
    {
        self.secs
    }

    /// Sub-second nanoseconds.
    pub fn nanos(&self) -> (r: u32)
        ensures
            r == self.nanos_spec(),
    {
        self.nanos
    }
}


/// Seconds after the Unix epoch below which every instant with sub-second
/// nanoseconds is one chrono can represent (chrono's last date, the end of
/// year 262142, lies some 8.2e12 seconds after the epoch).
pub const CHRONO_SAFE_SECS: i64 = 8_000_000_000_000;

/// The instant `secs` seconds and `nanos` nanoseconds after the Unix epoch,
/// or `None` where chrono cannot represent it.
///
/// Calls chrono's `DateTime::<Utc>::from_timestamp`. Trusted: that the result is
/// `Some` exactly on representable inputs (the day, `secs` divided by 86,400
/// plus the epoch's day 719,163, must give a date between chrono's `MIN` and
/// `MAX`; the time of day must pass `from_num_seconds_from_midnight_opt`),
/// and that it keeps the two numbers.
#[verifier::external_body]
fn timestamp_from_unix(secs: i64, nanos: u32) -> (r: Option<Timestamp>)
    ensures
        r is Some <==> chrono_representable(secs, nanos),
        r matches Some(t) ==> t.secs_spec() == secs && t.nanos_spec() == nanos,
{
    chrono::DateTime::from_timestamp(secs, nanos).map(
        |d| Timestamp { secs: d.timestamp(), nanos: d.timestamp_subsec_nanos() },
    )
}

/// The system clock's reading as whole seconds and sub-second nanoseconds
/// since the Unix epoch; `(0, 0)` for a clock that reads before the epoch.
///
/// Calls `SystemTime::now().duration_since(UNIX_EPOCH)`, keeping the
/// `Duration`'s `as_secs` and `subsec_nanos`. Trusted: only that the
/// nanoseconds are below one billion, as `Duration::subsec_nanos` documents.
/// Nothing is stated of the seconds: they are the clock's reading.
#[verifier::external_body]
fn system_clock() -> (r: (u64, u32))
    ensures
        r.1 < 1_000_000_000,
{
    let d = std::time::SystemTime::now().duration_since(std::time::UNIX_EPOCH).unwrap_or_default();
    (d.as_secs(), d.subsec_nanos())
}

/// An instant the clock can give: from the Unix epoch up to some 220,000
/// years after it, with nanoseconds below a billion (no leap second).
pub open spec fn is_clock_reading(t: Timestamp) -> bool {
    0 <= t.secs_spec() < 7_000_000_000_000 && t.nanos_spec() < 1_000_000_000
}

/// The current UTC time by the system clock, as chrono's `Utc::now` reads it.
/// Where chrono would panic — a clock before the Unix epoch — and for a clock
/// past `is_clock_reading`'s bound, the epoch is taken.
pub(crate) fn utc_now() -> (r: Timestamp)
    ensures
        is_clock_reading(r),
{
    let (secs, nanos) = system_clock();
    if secs < 7_000_000_000_000 {
        timestamp_from_unix(secs as i64, nanos).unwrap()
    } else {
        timestamp_from_unix(0, 0).unwrap()
    }
}

/// Milliseconds since the Unix epoch by the system clock (zero for a clock
/// that reads before the epoch; saturating at `u64::MAX`).
pub(crate) fn system_time_millis() -> (r: u64) {
    let (secs, nanos) = system_clock();
    if secs < 18_000_000_000_000_000 {
        secs * 1000 + (nanos / 1_000_000) as u64
    } else {
        u64::MAX
    }
}

/// `at` moved by `delta` whole seconds, or `None` where chrono reports overflow.
///
/// Calls chrono's `TimeDelta::try_seconds` and `DateTime::checked_add_signed`.
/// Trusted: the result is the named chrono result; a `delta` outside
/// `±i64::MAX / 1000` gives `None` (documented for `try_seconds`); moving
/// an instant that is not a leap second keeps its nanoseconds and adds `delta`
/// to its seconds; and moving such an instant forward to an instant still
/// between the epoch and `CHRONO_SAFE_SECS` succeeds (both ends lie within
/// chrono's range).
#[verifier::external_body]
pub(crate) fn add_seconds(at: Timestamp, delta: i64) -> (r: Option<Timestamp>)
    ensures
        r matches Some(t) ==> chrono_add_seconds(at.secs_spec(), at.nanos_spec(), delta) == Some((t.secs_spec(), t.nanos_spec())),
        r is None ==> chrono_add_seconds(at.secs_spec(), at.nanos_spec(), delta) is None,
        delta > i64::MAX / 1000 || delta < -(i64::MAX / 1000) ==> r is None,
        r matches Some(t) ==> at.nanos_spec() < 1_000_000_000 ==> t.secs_spec() == at.secs_spec()
            + delta && t.nanos_spec() == at.nanos_spec(),
        0 <= at.secs_spec() && 0 <= delta && at.secs_spec() + delta < CHRONO_SAFE_SECS
            && at.nanos_spec() < 1_000_000_000 ==> r is Some,
{
    let d = chrono::DateTime::from_timestamp(at.secs, at.nanos)?;
    let delta = chrono::TimeDelta::try_seconds(delta)?;
    d.checked_add_signed(delta).map(
        |t| Timestamp { secs: t.timestamp(), nanos: t.timestamp_subsec_nanos() },
    )
}

/// The RFC 3339 text of `at` as chrono serialises a `DateTime<Utc>`.
///
/// Calls chrono's `DateTime::to_rfc3339_opts(SecondsFormat::AutoSi, true)` on the
/// instant. Trusted: the text is the named chrono text of the instant.
#[verifier::external_body]
pub(crate) fn rfc3339_text(at: Timestamp) -> (r: String)
    ensures
        r@ == chrono_rfc3339(at.secs_spec(), at.nanos_spec()),
{
    let d = chrono::DateTime::from_timestamp(at.secs, at.nanos).unwrap();
    d.to_rfc3339_opts(chrono::SecondsFormat::AutoSi, true)
}

} // verus!

//! Creation times of saved snippets: a UTC instant held as whole seconds since
//! the Unix epoch and the nanoseconds past them, as chrono's `DateTime<Utc>`
//! reports them.
use vstd::prelude::*;

verus! {

/// The first second of the first day that chrono's dates reach.
pub const MIN_SECS: i64 = -8334601228800i64;

/// The last second of the last day that chrono's dates reach.
pub const MAX_SECS: i64 = 8210266876799i64;

/// Whether chrono has an instant with these parts: a second within its range of
/// dates, and nanoseconds below one second, or below two seconds where the
/// instant is a leap second (the last second of a minute).
pub open spec fn representable(secs: i64, nanos: u32) -> bool {
    &&& MIN_SECS <= secs <= MAX_SECS
    &&& nanos < 2_000_000_000
    &&& (nanos >= 1_000_000_000 ==> secs % 60 == 59)
}

/// A UTC instant.
#[derive(Debug, Clone, Copy)]
pub struct Timestamp {
    secs: i64,
    nanos: u32,
}

/// The text that chrono's `Display` gives the instant with these parts.
pub uninterp spec fn datetime_text(secs: i64, nanos: u32) -> Seq<char>;

/// The parts of the instant that chrono's `FromStr` reads from a text, if any.
pub uninterp spec fn datetime_parsed(text: Seq<char>) -> Option<(i64, u32)>;

/// Writes an instant through `chrono::DateTime::<Utc>::from_timestamp` and its
/// `Display`. `from_timestamp` returns `Some` on parts that `representable`
/// admits (a day count within chrono's dates, valid nanoseconds). Claimed: the
/// text is the named `datetime_text` of the parts.
#[verifier::external_body]
fn datetime_to_text(secs: i64, nanos: u32) -> (text: String)
    requires
        representable(secs, nanos),
    ensures
        text@ == datetime_text(secs, nanos),
{
    chrono::DateTime::from_timestamp(secs, nanos).unwrap().to_string()
}

/// Reads an instant through chrono's `FromStr` for `DateTime<Utc>`, taking
/// `timestamp` and `timestamp_subsec_nanos` of the result. Claimed: the result is
/// the named `datetime_parsed` of the text, and its parts are representable
/// (chrono documents that these parts round-trip through `from_timestamp`).
#[verifier::external_body]
fn datetime_from_text(text: &str) -> (parts: Option<(i64, u32)>)
    ensures
        parts == datetime_parsed(text@),
        parts is Some ==> representable((parts->0).0, (parts->0).1),
{
    match text.parse::<chrono::DateTime<chrono::Utc>>() {
        Ok(d) => Some((d.timestamp(), d.timestamp_subsec_nanos())),
        Err(_) => None,
    }
}

/// The parts of chrono's default `DateTime<Utc>`, the Unix epoch.
#[verifier::external_body]
fn default_datetime_parts() -> (parts: (i64, u32))
    ensures
        parts == (0i64, 0u32),
{
    let d = <chrono::DateTime<chrono::Utc> as Default>::default();
    (d.timestamp(), d.timestamp_subsec_nanos())
}

impl Timestamp {
    #[verifier::type_invariant]
    spec fn inv(self) -> bool {
        representable(self.secs, self.nanos)
    }

    pub closed spec fn secs_spec(self) -> i64 {
        self.secs
    }

    pub closed spec fn nanos_spec(self) -> u32 {
        self.nanos
    }

    /// The instant with these parts, where chrono has one.
    pub fn from_parts(secs: i64, nanos: u32) -> (t: Option<Timestamp>)
        ensures
            t is Some <==> representable(secs, nanos),
            t is Some ==> t->0.secs_spec() == secs && t->0.nanos_spec() == nanos,
    {
        // Shifting by a multiple of a minute keeps the second of the minute and
        // makes the value non-negative, so `%` below is the Euclidean remainder.
        if MIN_SECS <= secs && secs <= MAX_SECS && nanos < 2_000_000_000 && (nanos
            < 1_000_000_000 || (secs - MIN_SECS) % 60 == 59) {
            Some(Timestamp { secs, nanos })
        } else {
            None
        }
    }

    /// Whole seconds since the Unix epoch.
    pub fn secs(&self) -> (s: i64)
        ensures
            s == self.secs_spec(),
    {
        self.secs
    }

    /// Nanoseconds past the whole second.
    pub fn nanos(&self) -> (n: u32)
        ensures
            n == self.nanos_spec(),
    {
        self.nanos
    }

    /// The Unix epoch, chrono's default instant.
    pub fn epoch() -> (t: Timestamp)
        ensures
            t.secs_spec() == 0,
            t.nanos_spec() == 0,
    {
        let (secs, nanos) = default_datetime_parts();
        Timestamp { secs, nanos }
    }

    /// The text under which the instant is stored.
    pub fn to_text(&self) -> (text: String)
        ensures
            text@ == datetime_text(self.secs_spec(), self.nanos_spec()),
    {
        proof {
            use_type_invariant(self);
        }
        datetime_to_text(self.secs, self.nanos)
    }

    /// The instant that a stored text reads as, or the epoch where chrono reads
    /// none from it.
    pub fn parse_or_epoch(text: &str) -> (t: Timestamp)
        ensures
            t.parts() == parsed_or_epoch(text@),
    {
        match datetime_from_text(text) {
            Some((secs, nanos)) => Timestamp { secs, nanos },
            None => Timestamp::epoch(),
        }
    }

    /// The parts of the instant.
    pub open spec fn parts(self) -> (i64, u32) {
        (self.secs_spec(), self.nanos_spec())
    }
}

/// The parts that a stored text reads as, or those of the epoch.
pub open spec fn parsed_or_epoch(text: Seq<char>) -> (i64, u32) {
    match datetime_parsed(text) {
        Some(p) => p,
        None => (0i64, 0u32),
    }
}

} // verus!

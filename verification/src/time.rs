//! Instants on the UTC time line, and their RFC 3339 texts.

use vstd::prelude::*;

verus! {

/// An instant: whole seconds since 1970-01-01T00:00:00Z and the nanoseconds
/// into that second.
#[derive(Clone, Copy, Debug, PartialEq, Eq, Structural)]
pub struct Timestamp {
    pub secs: i64,
    pub nanos: u32,
}

/// How much of the fraction of a second a text shows.
#[derive(Clone, Copy, Debug, PartialEq, Eq, Structural)]
pub enum Precision {
    /// Whole seconds only.
    Seconds,
    /// No fraction where it is zero, else three, six or nine digits.
    Shortest,
}

/// The instant that `chrono` reads from a text in its relaxed RFC 3339 form,
/// or nothing where it reads none.
pub uninterp spec fn instant_of(text: Seq<char>) -> Option<Timestamp>;

/// The RFC 3339 text that `chrono` writes for an instant, with `Z` for the
/// offset, or nothing where the numbers are outside the range of `chrono`.
pub uninterp spec fn instant_text(secs: i64, nanos: u32, precision: Precision) -> Option<Seq<char>>;

/// Parses a text as a `chrono::DateTime<chrono::Utc>` through its `FromStr`
/// and hands back the instant's `timestamp` and `timestamp_subsec_nanos`.
/// What is accepted is left to `chrono` and only named here. What was read
/// can be written: `chrono` documents that `from_timestamp` gives the instant
/// back from these two numbers.
#[verifier::external_body]
fn read_instant(text: &str) -> (instant: Option<Timestamp>)
    ensures
        instant == instant_of(text@),
        instant matches Some(read) ==> read.is_writable(),
{
    text.parse::<chrono::DateTime<chrono::Utc>>().ok().map(
        |t| Timestamp { secs: t.timestamp(), nanos: t.timestamp_subsec_nanos() },
    )
}

/// Builds the instant with `chrono::DateTime::from_timestamp` and writes it
/// with `to_rfc3339_opts`, `Z` for the offset. Numbers that `from_timestamp`
/// refuses give `None`; the text is left to `chrono` and only named here.
#[verifier::external_body]
fn write_instant(secs: i64, nanos: u32, precision: Precision) -> (text: Option<String>)
    ensures
        match text {
            Some(text) => instant_text(secs, nanos, precision) == Some(text@),
            None => instant_text(secs, nanos, precision) is None,
        },
{
    let form = match precision {
        Precision::Seconds => chrono::SecondsFormat::Secs,
        Precision::Shortest => chrono::SecondsFormat::AutoSi,
    };
    chrono::DateTime::from_timestamp(secs, nanos).map(|t| t.to_rfc3339_opts(form, true))
}

impl Timestamp {
    /// Reads an instant from its RFC 3339 text.
    pub fn parse(text: &str) -> (instant: Option<Timestamp>)
        ensures
            instant == instant_of(text@),
            instant matches Some(read) ==> read.is_writable(),
    {
        read_instant(text)
    }

    /// The RFC 3339 text of this instant.
    pub fn to_text(&self, precision: Precision) -> (text: Option<String>)
        ensures
            match text {
                Some(text) => instant_text(self.secs, self.nanos, precision) == Some(text@),
                None => instant_text(self.secs, self.nanos, precision) is None,
            },
    {
        write_instant(self.secs, self.nanos, precision)
    }

    /// Whether the instant can be written, at either precision.
    pub open spec fn is_writable(self) -> bool {
        instant_text(self.secs, self.nanos, Precision::Seconds) is Some && instant_text(
            self.secs,
            self.nanos,
            Precision::Shortest,
        ) is Some
    }

    /// Whether the instant can be written and is read back from what was written.
    pub open spec fn round_trips(self) -> bool {
        match instant_text(self.secs, self.nanos, Precision::Shortest) {
            Some(text) => instant_of(text) == Some(self),
            None => false,
        }
    }
}

} // verus!

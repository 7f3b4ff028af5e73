//! Instants in UTC, stored as RFC 3339 text.

use vstd::prelude::*;

verus! {

/// 0000-01-01T00:00:00Z, in seconds from the Unix epoch.
pub const FIRST_SECOND: i64 = -62167219200;

/// 9999-12-31T23:59:59Z, in seconds from the Unix epoch.
pub const LAST_SECOND: i64 = 253402300799;

/// An instant: whole seconds from 1970-01-01T00:00:00Z and the nanoseconds
/// past that second.
#[derive(Clone, Copy, Debug, PartialEq, Eq, Structural)]
pub struct Timestamp {
    pub secs: i64,
    pub nanos: u32,
}

/// The RFC 3339 text of the instant `secs` seconds and `nanos` nanoseconds
/// after the Unix epoch, with offset `+00:00`.
pub uninterp spec fn rfc3339_text(secs: int, nanos: int) -> Seq<char>;

/// The (seconds, nanoseconds) of the instant that an RFC 3339 text denotes,
/// taken to UTC, if it denotes one.
pub uninterp spec fn rfc3339_parsed(s: Seq<char>) -> Option<(int, int)>;

impl Timestamp {
    /// A year from 0 to 9999, which RFC 3339 can write, and less than a
    /// second of nanoseconds.
    pub open spec fn wf(&self) -> bool {
        &&& FIRST_SECOND <= self.secs <= LAST_SECOND
        &&& self.nanos < 1_000_000_000
    }

    /// The instant with these parts, if it is one that can be stored.
    pub fn new(secs: i64, nanos: u32) -> (r: Option<Timestamp>)
        ensures
            match r {
                Some(t) => t.wf() && t == (Timestamp { secs, nanos }),
                None => !(Timestamp { secs, nanos }).wf(),
            },
    {
        if FIRST_SECOND <= secs && secs <= LAST_SECOND && nanos < 1_000_000_000 {
            Some(Timestamp { secs, nanos })
        } else {
            None
        }
    }
}

/// Relies on `chrono::DateTime::<Utc>::to_rfc3339`: the text depends on the
/// instant alone.
#[verifier::external_body]
pub(crate) fn format_timestamp(t: Timestamp) -> (r: String)
    requires
        t.wf(),
    ensures
        r@ == rfc3339_text(t.secs as int, t.nanos as int),
{
    match chrono::DateTime::<chrono::Utc>::from_timestamp(t.secs, t.nanos) {
        Some(d) => d.to_rfc3339(),
        None => String::new(),
    }
}

/// Relies on `chrono::DateTime::parse_from_rfc3339`, taken to UTC: its answer
/// depends on the text alone, and the text that `format_timestamp` writes
/// reads back as the same instant.
#[verifier::external_body]
pub(crate) fn parse_rfc3339(s: &str) -> (r: Option<(i64, u32)>)
    ensures
        match r {
            Some((secs, nanos)) => rfc3339_parsed(s@) == Some((secs as int, nanos as int)),
            None => rfc3339_parsed(s@) is None,
        },
        forall|t: Timestamp|
            t.wf() && s@ == rfc3339_text(t.secs as int, t.nanos as int) ==> r == Some(
                (t.secs, t.nanos),
            ),
{
    match chrono::DateTime::parse_from_rfc3339(s) {
        Ok(d) => {
            let u = d.with_timezone(&chrono::Utc);
            Some((u.timestamp(), u.timestamp_subsec_nanos()))
        },
        Err(_) => None,
    }
}

} // verus!

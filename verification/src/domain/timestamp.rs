//! Instants in UTC, as the order entity records them.

use vstd::prelude::*;

verus! {

/// An instant in UTC: the whole seconds since 1970-01-01T00:00:00Z and the
/// nanoseconds past that second. Two instants are ordered by their seconds,
/// then by their nanoseconds.
#[derive(Clone, Copy, Debug, PartialEq, Eq, Structural, PartialOrd, Ord, Hash)]
pub struct Timestamp {
    pub secs: i64,
    pub nanos: u32,
}

/// The instant that an RFC 3339 text denotes, if it is one.
pub uninterp spec fn parsed_rfc3339(text: Seq<char>) -> Option<Timestamp>;

/// The RFC 3339 text of an instant, if the calendar can hold it.
pub uninterp spec fn rfc3339_of(t: Timestamp) -> Option<Seq<char>>;

/// `chrono::ParseError`: why a text was not read as a date and time.
#[verifier::external_type_specification]
#[verifier::external_body]
pub struct ExParseError(chrono::ParseError);

/// `chrono::Utc::now`, read by `timestamp` and `timestamp_subsec_nanos`. Which
/// instant comes back is up to the system clock. Whatever it is, it is not
/// before 1970, it is no leap second, and the calendar holds it, so that it
/// has an RFC 3339 text. (With a system clock that reads before 1970 the call
/// does not return.)
#[verifier::external_body]
fn utc_now() -> (t: Timestamp)
    ensures
        t.secs >= 0,
        t.nanos < 1_000_000_000,
        rfc3339_of(t) is Some,
{
    let now = chrono::Utc::now();
    Timestamp { secs: now.timestamp(), nanos: now.timestamp_subsec_nanos() }
}

/// `chrono::DateTime::parse_from_rfc3339`, the result moved to UTC as
/// `with_timezone` does. Whether a text parses, and to which instant, depends
/// on the text alone.
#[verifier::external_body]
fn parse_rfc3339(text: &str) -> (r: Result<Timestamp, chrono::ParseError>)
    ensures
        r is Ok <==> parsed_rfc3339(text@) is Some,
        r matches Ok(t) ==> parsed_rfc3339(text@) == Some(t),
{
    let parsed = chrono::DateTime::parse_from_rfc3339(text)?;
    let utc = parsed.with_timezone(&chrono::Utc);
    Ok(Timestamp { secs: utc.timestamp(), nanos: utc.timestamp_subsec_nanos() })
}

/// The `Display` text of a `chrono::ParseError`.
#[verifier::external_body]
fn parse_error_text(e: &chrono::ParseError) -> (s: String) {
    e.to_string()
}

/// `chrono::DateTime::from_timestamp`, then `to_rfc3339` on what it gives.
/// `None` when the seconds or nanoseconds are outside what the calendar
/// holds. The text depends on the instant alone.
#[verifier::external_body]
fn format_rfc3339(t: Timestamp) -> (r: Option<String>)
    ensures
        r is Some <==> rfc3339_of(t) is Some,
        r matches Some(s) ==> rfc3339_of(t) == Some(s@),
{
    chrono::DateTime::from_timestamp(t.secs, t.nanos).map(|d| d.to_rfc3339())
}

impl Timestamp {
    /// Whether `self` is strictly earlier than `other`.
    pub open spec fn precedes(self, other: Timestamp) -> bool {
        self.secs < other.secs || (self.secs == other.secs && self.nanos < other.nanos)
    }

    /// Whether `self` is not later than `other`.
    pub open spec fn not_after(self, other: Timestamp) -> bool {
        self == other || self.precedes(other)
    }

    /// Whether this is the last instant that can be held: no instant is
    /// later.
    pub open spec fn is_last(self) -> bool {
        self.secs == i64::MAX && self.nanos == u32::MAX
    }

    /// The instant one nanosecond later: the next nanosecond of the same
    /// second, or the start of the next second. The last instant is its own
    /// next.
    pub open spec fn next(self) -> Timestamp {
        if self.nanos < 999_999_999 {
            Timestamp { secs: self.secs, nanos: (self.nanos + 1) as u32 }
        } else if self.secs < i64::MAX {
            Timestamp { secs: (self.secs + 1) as i64, nanos: 0 }
        } else if self.nanos < u32::MAX {
            Timestamp { secs: self.secs, nanos: (self.nanos + 1) as u32 }
        } else {
            self
        }
    }

    /// The later of two instants.
    pub open spec fn later_of(self, other: Timestamp) -> Timestamp {
        if self.precedes(other) {
            other
        } else {
            self
        }
    }

    /// Whether the calendar holds this instant, so that it can be written as
    /// text.
    pub open spec fn writable(self) -> bool {
        rfc3339_of(self) is Some
    }

    /// The current reading of the system clock: some instant since 1970 that
    /// the calendar holds.
    pub fn now() -> (t: Timestamp)
        ensures
            t.secs >= 0,
            t.nanos < 1_000_000_000,
            t.writable(),
    {
        utc_now()
    }

    /// Whether `self` is strictly earlier than `other`.
    pub fn is_before(&self, other: &Timestamp) -> (b: bool)
        ensures
            b == self.precedes(*other),
    {
        self.secs < other.secs || (self.secs == other.secs && self.nanos < other.nanos)
    }

    /// The instant one nanosecond later, or this instant where none is
    /// later.
    pub fn successor(&self) -> (t: Timestamp)
        ensures
            t == self.next(),
    {
        if self.nanos < 999_999_999 {
            Timestamp { secs: self.secs, nanos: self.nanos + 1 }
        } else if self.secs < i64::MAX {
            Timestamp { secs: self.secs + 1, nanos: 0 }
        } else if self.nanos < u32::MAX {
            Timestamp { secs: self.secs, nanos: self.nanos + 1 }
        } else {
            *self
        }
    }

    /// The later of this instant and `other`.
    pub fn latest(&self, other: &Timestamp) -> (t: Timestamp)
        ensures
            t == self.later_of(*other),
    {
        if self.is_before(other) {
            *other
        } else {
            *self
        }
    }

    /// Reads an RFC 3339 text. Fails, with the parser's message, exactly on
    /// the texts that denote no instant.
    pub fn from_rfc3339(text: &str) -> (r: Result<Timestamp, String>)
        ensures
            r is Ok <==> parsed_rfc3339(text@) is Some,
            r matches Ok(t) ==> parsed_rfc3339(text@) == Some(t),
    {
        match parse_rfc3339(text) {
            Ok(t) => Ok(t),
            Err(e) => Err(parse_error_text(&e)),
        }
    }

    /// The RFC 3339 text of this instant, or `None` where the calendar cannot
    /// hold it.
    pub fn to_rfc3339(&self) -> (r: Option<String>)
        ensures
            r is Some <==> rfc3339_of(*self) is Some,
            r matches Some(s) ==> rfc3339_of(*self) == Some(s@),
    {
        format_rfc3339(*self)
    }
}

/// The order of instants is strict: nothing precedes itself, and of two
/// instants at most one precedes the other.
pub proof fn lemma_precedes_is_strict(a: Timestamp, b: Timestamp)
    ensures
        !a.precedes(a),
        a.precedes(b) ==> !b.precedes(a),
        a.precedes(b) || b.precedes(a) || a == b,
{
}

/// Every instant but the last precedes its next, and the later of two
/// instants is one of them and before neither.
pub proof fn lemma_next_and_later(a: Timestamp, b: Timestamp)
    ensures
        !a.is_last() ==> a.precedes(a.next()),
        a.later_of(b) == a || a.later_of(b) == b,
        a.not_after(a.later_of(b)),
        b.not_after(a.later_of(b)),
{
}

/// The order of instants is transitive.
pub proof fn lemma_precedes_is_transitive(a: Timestamp, b: Timestamp, c: Timestamp)
    requires
        a.precedes(b),
        b.precedes(c),
    ensures
        a.precedes(c),
{
}

} // verus!

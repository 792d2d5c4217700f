//! A UTC timestamp that decodes from either an ISO-8601 / RFC 3339 date-time
//! string or an integer of seconds since the Unix epoch. Upstream payloads are
//! inconsistent about which of the two they carry, so decoding dispatches on
//! the shape of the value node and normalizes both into one canonical instant.

use vstd::prelude::*;

use crate::json::{Json, Value};
use chrono::TimeZone;

verus! {

/// Epoch seconds of the earliest calendar instant the formatter can
/// represent: the first second of year -262143.
pub const MIN_EPOCH_SECS: i64 = -8334601228800;

/// Epoch seconds of the latest calendar instant the formatter can
/// represent: the last second of year 262142.
pub const MAX_EPOCH_SECS: i64 = 8210266876799;

/// The epoch-seconds integers that correspond to exactly one calendar instant.
pub open spec fn in_epoch_range(n: int) -> bool {
    MIN_EPOCH_SECS <= n <= MAX_EPOCH_SECS
}

/// A single instant in UTC time, accurate to the second. Equality and
/// ordering go by the instant value alone.
#[derive(Clone, Copy, Debug, PartialEq, Eq, Structural, PartialOrd, Ord)]
pub struct DateTime {
    secs: i64,
}

/// Why a value node failed to decode as a timestamp.
#[derive(Clone, Debug, PartialEq, Eq)]
pub enum DecodeError {
    /// The node was neither a date-time string nor seconds since the Unix
    /// epoch (or the compact format required a number and got none).
    FormatMismatch,
    /// The string does not conform to the date-time grammar; carries the
    /// underlying parser's message.
    ParseFailure(String),
    /// The unsigned value does not fit the signed range used for the
    /// epoch-seconds interpretation.
    RangeFailure(u64),
    /// The integer corresponds to no legal calendar instant.
    IllegalInstant(i64),
    /// The integer corresponds to more than one instant; both candidates are
    /// carried, in epoch seconds, for diagnosis.
    AmbiguousInstant { value: i64, earliest: i64, latest: i64 },
}

/// The instant, in epoch seconds, that the date-time parser reads out of a
/// string, if the string conforms to its grammar.
pub uninterp spec fn parsed_epoch(s: Seq<char>) -> Option<int>;

/// The RFC 3339 text of the instant with the given epoch seconds.
pub uninterp spec fn rfc3339_text(n: int) -> Seq<char>;

/// Relies on chrono's `FromStr` for `DateTime<Utc>` (RFC 3339 / ISO 8601 with
/// documented relaxations) and on `DateTime::timestamp`: the parse depends on
/// the characters alone, and the epoch seconds of any parsed instant lie in
/// the representable calendar range.
#[verifier::external_body]
fn parse_instant_str(s: &str) -> (r: Result<i64, String>)
    ensures
        r is Ok <==> parsed_epoch(s@) is Some,
        r matches Ok(n) ==> parsed_epoch(s@) == Some(n as int) && in_epoch_range(n as int),
{
    match s.parse::<chrono::DateTime<chrono::Utc>>() {
        Ok(dt) => Ok(dt.timestamp()),
        Err(e) => Err(format!("{}", e)),
    }
}

/// Outcome of interpreting an epoch-seconds integer as a calendar instant.
enum EpochOutcome {
    Single(i64),
    Ambiguous(i64, i64),
    NoInstant,
}

/// Relies on chrono's `Utc.timestamp_opt(secs, 0)`: per its documentation it
/// returns `Single` exactly on the seconds values the calendar can represent
/// (those between the first second of year -262143 and the last second of
/// year 262142) and `None` otherwise, and `DateTime::from_timestamp` is
/// documented to round-trip with `DateTime::timestamp`, so a `Single` instant
/// carries the very seconds it was made from. Nothing is assumed about the
/// ambiguous outcome.
#[verifier::external_body]
fn resolve_epoch(secs: i64) -> (r: EpochOutcome)
    ensures
        r is Single <==> in_epoch_range(secs as int),
        r matches EpochOutcome::Single(t) ==> t == secs,
{
    match chrono::Utc.timestamp_opt(secs, 0) {
        chrono::MappedLocalTime::Single(dt) => EpochOutcome::Single(dt.timestamp()),
        chrono::MappedLocalTime::Ambiguous(a, b) => EpochOutcome::Ambiguous(
            a.timestamp(),
            b.timestamp(),
        ),
        chrono::MappedLocalTime::None => EpochOutcome::NoInstant,
    }
}

/// Relies on chrono's `DateTime::from_timestamp` (total on the representable
/// range, round-tripping with `timestamp`) and `to_rfc3339`: the text depends
/// on the instant alone, and it is an RFC 3339 rendering, which the date-time
/// parser above reads back as the same instant.
#[verifier::external_body]
fn format_epoch(secs: i64) -> (r: String)
    requires
        in_epoch_range(secs as int),
    ensures
        r@ == rfc3339_text(secs as int),
        parsed_epoch(r@) == Some(secs as int),
{
    match chrono::DateTime::<chrono::Utc>::from_timestamp(secs, 0) {
        Some(dt) => dt.to_rfc3339(),
        None => String::new(),
    }
}

/// The numeric decoding path shared by signed and unsigned nodes.
fn decode_epoch(n: i64) -> (r: Result<DateTime, DecodeError>)
    ensures
        in_epoch_range(n as int) ==> (r matches Ok(d) && d.epoch() == n as int),
        !in_epoch_range(n as int) ==> ({
            ||| (r matches Err(DecodeError::IllegalInstant(m)) && m == n)
            ||| (r matches Err(DecodeError::AmbiguousInstant { value, .. }) && value == n)
        }),
{
    match resolve_epoch(n) {
        EpochOutcome::Single(t) => Ok(DateTime { secs: t }),
        EpochOutcome::Ambiguous(a, b) => Err(
            DecodeError::AmbiguousInstant { value: n, earliest: a, latest: b },
        ),
        EpochOutcome::NoInstant => Err(DecodeError::IllegalInstant(n)),
    }
}

impl DateTime {
    /// The instant as seconds since the Unix epoch.
    pub closed spec fn epoch(self) -> int {
        self.secs as int
    }

    /// The canonical instant lies in the representable calendar range.
    pub open spec fn wf(self) -> bool {
        in_epoch_range(self.epoch())
    }

    /// The instant as seconds since the Unix epoch.
    pub fn epoch_secs(&self) -> (r: i64)
        ensures
            r as int == self.epoch(),
    {
        self.secs
    }

    /// Direct construction from known-good epoch seconds.
    pub fn from_epoch_secs(secs: i64) -> (r: Option<DateTime>)
        ensures
            in_epoch_range(secs as int) ==> (r matches Some(d) && d.epoch() == secs as int
                && d.wf()),
            !in_epoch_range(secs as int) ==> r is None,
    {
        if MIN_EPOCH_SECS <= secs && secs <= MAX_EPOCH_SECS {
            Some(DateTime { secs })
        } else {
            None
        }
    }

    /// Decodes a structured-value node into a canonical UTC instant. In the
    /// human-readable format the node may be a date-time string or an epoch
    /// integer; the compact format requires the numeric form directly.
    /// Unsigned values are range-checked before being treated as signed, so an
    /// oversized value is rejected rather than wrapped around.
    pub fn decode(v: &Value, human_readable: bool) -> (r: Result<DateTime, DecodeError>)
        ensures
            (match v@ {
                Json::Str(s) => {
                    if human_readable {
                        match parsed_epoch(s) {
                            Some(t) => r matches Ok(d) && d.epoch() == t,
                            None => r matches Err(DecodeError::ParseFailure(_)),
                        }
                    } else {
                        r == Err::<DateTime, DecodeError>(DecodeError::FormatMismatch)
                    }
                },
                Json::Int(n) => {
                    if n > i64::MAX as int {
                        r matches Err(DecodeError::RangeFailure(u)) && u as int == n
                    } else if in_epoch_range(n) {
                        r matches Ok(d) && d.epoch() == n
                    } else {
                        ||| (r matches Err(DecodeError::IllegalInstant(m)) && m as int == n)
                        ||| (r matches Err(DecodeError::AmbiguousInstant { value, .. })
                            && value as int == n)
                    }
                },
                _ => r == Err::<DateTime, DecodeError>(DecodeError::FormatMismatch),
            }),
            r matches Ok(d) ==> d.wf(),
    {
        match v {
            Value::Str(s) => {
                if human_readable {
                    match parse_instant_str(s.as_str()) {
                        Ok(n) => Ok(DateTime { secs: n }),
                        Err(msg) => Err(DecodeError::ParseFailure(msg)),
                    }
                } else {
                    Err(DecodeError::FormatMismatch)
                }
            },
            Value::Int(i) => decode_epoch(*i),
            Value::UInt(u) => {
                if *u > i64::MAX as u64 {
                    Err(DecodeError::RangeFailure(*u))
                } else {
                    decode_epoch(*u as i64)
                }
            },
            _ => Err(DecodeError::FormatMismatch),
        }
    }

    /// RFC 3339 / ISO-8601 text of this instant.
    pub fn to_rfc3339(&self) -> (r: String)
        requires
            self.wf(),
        ensures
            r@ == rfc3339_text(self.epoch()),
            parsed_epoch(r@) == Some(self.epoch()),
    {
        format_epoch(self.secs)
    }

    /// Formatting an instant and decoding the text again yields an equal
    /// instant: the string round-trips.
    pub fn redecoded(&self) -> (r: DateTime)
        requires
            self.wf(),
        ensures
            r == *self,
    {
        let s = self.to_rfc3339();
        let r = DateTime::decode(&Value::Str(s), true);
        r.unwrap()
    }

    /// Ordering goes by the instant value alone.
    pub fn is_before(&self, other: &DateTime) -> (r: bool)
        ensures
            r == (self.epoch() < other.epoch()),
    {
        self.secs < other.secs
    }
}

/// The epoch seconds determine the instant: two timestamps are equal exactly
/// when they denote the same second. In particular decoding is deterministic.
pub proof fn lemma_epoch_determines_instant(d1: DateTime, d2: DateTime)
    ensures
        d1 == d2 <==> d1.epoch() == d2.epoch(),
{
}

/// Instants decoded from adjacent epoch integers are exactly one second
/// apart, and distinct.
pub proof fn lemma_adjacent_epochs_distinct(d1: DateTime, d2: DateTime, n: int)
    requires
        d1.epoch() == n,
        d2.epoch() == n + 1,
    ensures
        d2.epoch() - d1.epoch() == 1,
        d1 != d2,
{
}

} // verus!

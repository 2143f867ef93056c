//! One log record: level, origin, message, and its capture timestamp.
use vstd::prelude::*;

use crate::level::LogLevel;

verus! {

/// Holds in the timestamp text an RFC 3339 clock renders: decimal digits and
/// the punctuation `-`, `:`, `T`, `Z`, `+`.
pub open spec fn is_timestamp_char(c: char) -> bool {
    ('0' <= c && c <= '9') || c == '-' || c == ':' || c == 'T' || c == 'Z' || c == '+'
}

/// One leveled, timestamped, message-bearing log event. It is supplied per
/// call and never stored by the backend.
pub struct LogRecord {
    /// Severity of the event.
    pub level: LogLevel,
    /// Module or component the event came from, when known.
    pub origin: Option<String>,
    /// Free-form message text.
    pub message: String,
    /// Capture time, already rendered in RFC 3339 form.
    pub timestamp: String,
}

/// Mathematical image of a [`LogRecord`], with texts as character sequences.
pub ghost struct RecordModel {
    pub level: LogLevel,
    pub origin: Option<Seq<char>>,
    pub message: Seq<char>,
    pub timestamp: Seq<char>,
}

impl View for LogRecord {
    type V = RecordModel;

    open spec fn view(&self) -> RecordModel {
        RecordModel {
            level: self.level,
            origin: match self.origin {
                Some(s) => Some(s@),
                None => None,
            },
            message: self.message@,
            timestamp: self.timestamp@,
        }
    }
}

impl LogRecord {
    /// A record whose capture time the caller supplies.
    pub fn new(level: LogLevel, origin: Option<String>, message: String, timestamp: String) -> (r:
        LogRecord)
        ensures
            r@.level == level,
            r@.origin == match origin {
                Some(s) => Some(s@),
                None => None::<Seq<char>>,
            },
            r@.message == message@,
            r@.timestamp == timestamp@,
    {
        LogRecord { level, origin, message, timestamp }
    }

    /// A record captured now: its timestamp is the current time in RFC 3339
    /// form, whose text stays within the timestamp alphabet.
    pub fn capture(level: LogLevel, origin: Option<String>, message: String) -> (r: LogRecord)
        ensures
            r@.level == level,
            r@.origin == match origin {
                Some(s) => Some(s@),
                None => None::<Seq<char>>,
            },
            r@.message == message@,
            forall|i: int| 0 <= i < r@.timestamp.len() ==> is_timestamp_char(#[trigger] r@.timestamp[i]),
    {
        LogRecord { level, origin, message, timestamp: now_rfc3339() }
    }
}

/// Relies on `time::now` and `time::Tm::rfc3339`: the current local time
/// rendered in RFC 3339 form. Its text holds only decimal digits, `-`, `:`,
/// `T`, `Z` and `+`, as the crate's RFC 3339 formatter emits nothing else.
#[verifier::external_body]
fn now_rfc3339() -> (r: String)
    ensures
        forall|i: int| 0 <= i < r@.len() ==> is_timestamp_char(#[trigger] r@[i]),
{
    format!("{}", time::now().rfc3339())
}

} // verus!

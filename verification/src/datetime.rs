//! Instants written in the RFC 3339 notation.
use vstd::prelude::*;
use vstd::string::StringExecFns;
use time::format_description::well_known::Rfc3339;
use time::{OffsetDateTime, PrimitiveDateTime};

verus! {

/// `OffsetDateTime` of time: an instant with its offset from UTC, carried
/// as it is.
#[verifier::external_type_specification]
#[verifier::external_body]
pub struct ExOffsetDateTime(OffsetDateTime);

/// `PrimitiveDateTime` of time: a date and a time of day without an
/// offset, carried as it is.
#[verifier::external_type_specification]
#[verifier::external_body]
pub struct ExPrimitiveDateTime(PrimitiveDateTime);

/// `error::Parse` of time: why a text was not read as an instant.
#[verifier::external_type_specification]
#[verifier::external_body]
pub struct ExParseError(time::error::Parse);

/// `error::Format` of time: why an instant was not written.
#[verifier::external_type_specification]
#[verifier::external_body]
pub struct ExFormatError(time::error::Format);

/// Why a text is no instant.
#[derive(Debug)]
pub enum Error {
    /// The text is not written in the RFC 3339 notation; it is kept here.
    DateFailParse(String),
}

/// What stands before the rejected text in the message of an [`Error`].
pub const DATE_FAIL_PARSE_PREFIX: &'static str = "日期解析失败:";

impl Error {
    /// The message of the error: a fixed text, then the text that was
    /// rejected.
    pub fn message(&self) -> (text: String)
        ensures
            text@ == match *self {
                Error::DateFailParse(moment) => DATE_FAIL_PARSE_PREFIX@ + moment@,
            },
    {
        match self {
            Error::DateFailParse(moment) => {
                String::from_str(DATE_FAIL_PARSE_PREFIX).concat(moment.as_str())
            },
        }
    }
}

/// `OffsetDateTime::UNIX_EPOCH` of time: midnight of 1970-01-01 in UTC.
#[verifier::external_body]
pub fn unix_epoch() -> OffsetDateTime {
    OffsetDateTime::UNIX_EPOCH
}

/// `OffsetDateTime::now_utc` of time: the current instant in UTC. Nothing
/// is claimed of it.
#[verifier::external_body]
pub fn now_utc() -> OffsetDateTime {
    OffsetDateTime::now_utc()
}

/// `PrimitiveDateTime::new` of time on the date and the time of day of an
/// instant: the instant without its offset.
#[verifier::external_body]
fn without_offset(instant: OffsetDateTime) -> PrimitiveDateTime {
    PrimitiveDateTime::new(instant.date(), instant.time())
}

/// The current date and time in UTC, without the offset.
pub fn now_utc_primitive() -> PrimitiveDateTime {
    without_offset(now_utc())
}

/// `OffsetDateTime::format` of time with its `Rfc3339` description: the
/// instant in the RFC 3339 notation, or the error of an instant that has
/// none.
#[verifier::external_body]
fn format_rfc3339(time: OffsetDateTime) -> Result<String, time::error::Format> {
    time.format(&Rfc3339)
}

/// Whether the text writes an instant in the RFC 3339 notation, as the
/// parser of time reads it.
pub uninterp spec fn is_rfc3339(text: Seq<char>) -> bool;

/// `OffsetDateTime::parse` of time with its `Rfc3339` description: the
/// instant that `moment` writes, or the error of a text that writes none.
/// Claimed: whether it succeeds depends on the text alone.
#[verifier::external_body]
fn parse_rfc3339(moment: &str) -> (outcome: Result<OffsetDateTime, time::error::Parse>)
    ensures
        outcome is Ok == is_rfc3339(moment@),
{
    OffsetDateTime::parse(moment, &Rfc3339)
}

/// What is handed out for the outcome of writing an instant: the text that
/// was written, or nothing where the instant has no notation.
pub fn notation_of(outcome: Result<String, time::error::Format>) -> (notation: Option<String>)
    ensures
        match outcome {
            Ok(text) => notation == Some(text),
            Err(_) => notation is None,
        },
{
    match outcome {
        Ok(text) => Some(text),
        Err(_) => None,
    }
}

/// Writes an instant in the RFC 3339 notation; `None` for an instant that
/// the notation cannot write.
pub fn format_time(time: OffsetDateTime) -> Option<String> {
    notation_of(format_rfc3339(time))
}

/// Reads an instant written in the RFC 3339 notation. A text that is
/// rejected comes back in the error.
pub fn parse_utc(moment: &str) -> (outcome: Result<OffsetDateTime, Error>)
    ensures
        outcome is Ok <==> is_rfc3339(moment@),
        outcome matches Err(Error::DateFailParse(rejected)) ==> rejected@ == moment@,
{
    match parse_rfc3339(moment) {
        Ok(instant) => Ok(instant),
        Err(_) => Err(Error::DateFailParse(String::from_str(moment))),
    }
}

} // verus!

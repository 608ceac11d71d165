use crate::reactor::broker::{
    error_code, error_description, error_detail, io_failure, is_io_failure, is_type_error,
    type_error_with_detail,
};
use redis::RedisError;
use std::fmt::Debug;
use std::num::ParseFloatError;
use std::num::ParseIntError;
use std::str::Utf8Error;
use vstd::prelude::*;
use vstd::std_specs::convert::FromSpecImpl;
use vstd::string::to_string_from_display_ensures;

verus! {

#[verifier::external_type_specification]
#[verifier::external_body]
pub struct ExUtf8Error(Utf8Error);

#[verifier::external_type_specification]
#[verifier::external_body]
pub struct ExParseFloatError(ParseFloatError);

#[verifier::external_type_specification]
#[verifier::external_body]
pub struct ExParseIntError(ParseIntError);

#[verifier::external_type_specification]
#[verifier::external_body]
pub struct ExJsonError(serde_json::Error);

/// Why a stream entry could not be decoded.
#[derive(Debug)]
pub enum ParseError {
    /// A field's value is not valid UTF-8.
    Utf8(Utf8Error),
    /// A field does not hold a float.
    ParseFloat(ParseFloatError),
    /// A field does not hold an integer.
    ParseInt(ParseIntError),
    /// The fields are not the JSON that the entry type asks for.
    Serde(serde_json::Error),
    /// The broker's reply itself was at fault.
    Redis(RedisError),
}

/// What a handler returns in place of success.
#[derive(Debug)]
pub enum TaskError<T: Send + Debug> {
    /// Bypass error handling and delete the stream entry via XDEL.
    Delete,
    /// Skip the acknowledgement of the stream entry.
    SkipAcknowledgement,
    /// Pass through of the handler's own error.
    Error(T),
}

/// The message under which a decode failure with the given cause reaches the
/// broker-error surface; a broker error passes through and has none.
pub open spec fn failure_message(err: ParseError) -> Option<Seq<char>> {
    match err {
        ParseError::Utf8(_) => Some("Invalid utf8 value"@),
        ParseError::ParseFloat(_) => Some("Invalid float value"@),
        ParseError::ParseInt(_) => Some("Invalid integer value"@),
        ParseError::Serde(_) => Some("Invalid JSON value"@),
        ParseError::Redis(_) => None,
    }
}

/// Whether `text` is a rendering of the cause that `err` wraps.
pub open spec fn is_cause_text(err: ParseError, text: Seq<char>) -> bool {
    exists|s: String|
        s@ == text && match err {
            ParseError::Utf8(e) => to_string_from_display_ensures::<Utf8Error>(&e, s),
            ParseError::ParseFloat(e) => to_string_from_display_ensures::<ParseFloatError>(&e, s),
            ParseError::ParseInt(e) => to_string_from_display_ensures::<ParseIntError>(&e, s),
            ParseError::Serde(e) => to_string_from_display_ensures::<serde_json::Error>(&e, s),
            ParseError::Redis(e) => to_string_from_display_ensures::<RedisError>(&e, s),
        }
}

/// Whether `out` is what a decode failure `err` becomes on the broker-error
/// surface: a broker error unchanged; any other cause a type error without a
/// code, under the cause's message and with the cause's text as its detail.
pub open spec fn surfaces_as(err: ParseError, out: RedisError) -> bool {
    match err {
        ParseError::Redis(e) => out == e,
        _ => {
            &&& is_type_error(out)
            &&& !is_io_failure(out)
            &&& error_code(out) is None
            &&& Some(error_description(out)) == failure_message(err)
            &&& error_detail(out) matches Some(detail)
            &&& is_cause_text(err, detail)
        },
    }
}

/// Whether a broker error is transient: a failure of input or output, such as
/// a connection that dropped or a call that timed out. A loop meets such an
/// error by backing off and trying again; any other error ends it.
pub open spec fn transient(err: RedisError) -> bool {
    is_io_failure(err)
}

/// Whether a broker error is transient, so that the loop in which it arose
/// backs off and tries again instead of ending with it.
pub fn is_transient(err: &RedisError) -> (yes: bool)
    ensures
        yes == transient(*err),
{
    io_failure(err)
}

/// A decode failure ends the loop in which it arises, unless it wraps a broker
/// error that is itself transient: no other cause makes a transient error.
pub proof fn lemma_decode_failures_are_fatal(err: ParseError, out: RedisError)
    requires
        surfaces_as(err, out),
    ensures
        !(err is Redis) ==> !transient(out),
        err matches ParseError::Redis(e) ==> transient(out) == transient(e),
{
}

impl ParseError {
    /// The text of the cause, as the cause itself renders it.
    pub fn message(&self) -> (text: String)
        ensures
            is_cause_text(*self, text@),
    {
        match self {
            ParseError::Utf8(e) => e.to_string(),
            ParseError::ParseFloat(e) => e.to_string(),
            ParseError::ParseInt(e) => e.to_string(),
            ParseError::Serde(e) => e.to_string(),
            ParseError::Redis(e) => e.to_string(),
        }
    }
}

impl<T: Send + Debug> TaskError<T> {
    /// The message of a directive; a handler's own error has none here.
    pub fn directive_message(&self) -> (text: Option<&'static str>)
        ensures
            (match *self {
                TaskError::Delete => text matches Some(t) && t@ == "Stream entry marked for deletion"@,
                TaskError::SkipAcknowledgement => text matches Some(t) && t@
                    == "Stream entry acknowledgment skipped"@,
                TaskError::Error(_) => text is None,
            }),
    {
        match self {
            TaskError::Delete => Some("Stream entry marked for deletion"),
            TaskError::SkipAcknowledgement => Some("Stream entry acknowledgment skipped"),
            TaskError::Error(_) => None,
        }
    }
}

/// The conversion renders the cause as text, and no function gives the text
/// of a cause: what comes out is told by `surfaces_as`, not by `from_spec`.
impl FromSpecImpl<ParseError> for RedisError {
    open spec fn obeys_from_spec() -> bool {
        false
    }

    open spec fn from_spec(err: ParseError) -> RedisError {
        match err {
            ParseError::Redis(e) => e,
            _ => arbitrary(),
        }
    }
}

impl From<ParseError> for RedisError {
    /// A decode failure on the broker-error surface.
    fn from(err: ParseError) -> (out: RedisError)
        ensures
            surfaces_as(err, out),
    {
        match err {
            ParseError::Utf8(e) => {
                let detail = e.to_string();
                type_error_with_detail("Invalid utf8 value", detail)
            },
            ParseError::ParseFloat(e) => {
                let detail = e.to_string();
                type_error_with_detail("Invalid float value", detail)
            },
            ParseError::ParseInt(e) => {
                let detail = e.to_string();
                type_error_with_detail("Invalid integer value", detail)
            },
            ParseError::Serde(e) => {
                let detail = e.to_string();
                type_error_with_detail("Invalid JSON value", detail)
            },
            ParseError::Redis(e) => e,
        }
    }
}

impl FromSpecImpl<Utf8Error> for ParseError {
    open spec fn obeys_from_spec() -> bool {
        true
    }

    open spec fn from_spec(e: Utf8Error) -> ParseError {
        ParseError::Utf8(e)
    }
}

impl From<Utf8Error> for ParseError {
    fn from(e: Utf8Error) -> (err: ParseError) {
        ParseError::Utf8(e)
    }
}

impl FromSpecImpl<ParseFloatError> for ParseError {
    open spec fn obeys_from_spec() -> bool {
        true
    }

    open spec fn from_spec(e: ParseFloatError) -> ParseError {
        ParseError::ParseFloat(e)
    }
}

impl From<ParseFloatError> for ParseError {
    fn from(e: ParseFloatError) -> (err: ParseError) {
        ParseError::ParseFloat(e)
    }
}

impl FromSpecImpl<ParseIntError> for ParseError {
    open spec fn obeys_from_spec() -> bool {
        true
    }

    open spec fn from_spec(e: ParseIntError) -> ParseError {
        ParseError::ParseInt(e)
    }
}

impl From<ParseIntError> for ParseError {
    fn from(e: ParseIntError) -> (err: ParseError) {
        ParseError::ParseInt(e)
    }
}

impl FromSpecImpl<serde_json::Error> for ParseError {
    open spec fn obeys_from_spec() -> bool {
        true
    }

    open spec fn from_spec(e: serde_json::Error) -> ParseError {
        ParseError::Serde(e)
    }
}

impl From<serde_json::Error> for ParseError {
    fn from(e: serde_json::Error) -> (err: ParseError) {
        ParseError::Serde(e)
    }
}

impl FromSpecImpl<RedisError> for ParseError {
    open spec fn obeys_from_spec() -> bool {
        true
    }

    open spec fn from_spec(e: RedisError) -> ParseError {
        ParseError::Redis(e)
    }
}

impl From<RedisError> for ParseError {
    fn from(e: RedisError) -> (err: ParseError) {
        ParseError::Redis(e)
    }
}

impl<T: Send + Debug> FromSpecImpl<T> for TaskError<T> {
    open spec fn obeys_from_spec() -> bool {
        true
    }

    open spec fn from_spec(e: T) -> TaskError<T> {
        TaskError::Error(e)
    }
}

impl<T: Send + Debug> From<T> for TaskError<T> {
    fn from(e: T) -> (err: TaskError<T>) {
        TaskError::Error(e)
    }
}

} // verus!

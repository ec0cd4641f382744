//! Failures, and how each is shown to a client.

use vstd::prelude::*;
use vstd::std_specs::convert::FromSpecImpl;
use crate::response::{Body, BodySpec, Response, ResponseSpec};

verus! {

/// A failure of the store, reduced to what the service reads of it: whether a statement that
/// awaits exactly one row found none, and otherwise the driver's description.
#[derive(Debug)]
pub enum StoreError {
    RowNotFound,
    Other(String),
}

/// The mathematical content of a [`StoreError`].
pub ghost enum StoreErrorSpec {
    RowNotFound,
    Other(Seq<char>),
}

impl View for StoreError {
    type V = StoreErrorSpec;

    open spec fn view(&self) -> StoreErrorSpec {
        match *self {
            StoreError::RowNotFound => StoreErrorSpec::RowNotFound,
            StoreError::Other(text) => StoreErrorSpec::Other(text@),
        }
    }
}

/// A failure of a request.
#[derive(Debug)]
pub enum Error {
    /// The store failed; the store's own description of the failure.
    Sqlx(String),
    /// The store holds no row where exactly one was awaited.
    NotFound,
    /// The request itself is malformed; the reason.
    Validation(String),
}

/// The mathematical content of an [`Error`].
pub ghost enum ErrorSpec {
    Sqlx(Seq<char>),
    NotFound,
    Validation(Seq<char>),
}

impl View for Error {
    type V = ErrorSpec;

    open spec fn view(&self) -> ErrorSpec {
        match *self {
            Error::Sqlx(text) => ErrorSpec::Sqlx(text@),
            Error::NotFound => ErrorSpec::NotFound,
            Error::Validation(text) => ErrorSpec::Validation(text@),
        }
    }
}

pub const INTERNAL_SERVER_ERROR: u16 = 500;

pub const NOT_FOUND: u16 = 404;

pub const BAD_REQUEST: u16 = 400;

impl StoreErrorSpec {
    /// How the driver describes the failure.
    pub open spec fn description(self) -> Seq<char> {
        match self {
            StoreErrorSpec::RowNotFound => "no rows returned by a query that expected to return at least one row"@,
            StoreErrorSpec::Other(text) => text,
        }
    }
}

/// The error that a failure of the store becomes where no row was awaited: a failure of the
/// store, whatever it is.
pub open spec fn failure_of(failure: StoreErrorSpec) -> ErrorSpec {
    ErrorSpec::Sqlx(failure.description())
}

/// The error that a failure of the store becomes where a row was awaited: the absence of the
/// row is `NotFound`, everything else a failure of the store.
pub open spec fn error_of(failure: StoreErrorSpec) -> ErrorSpec {
    match failure {
        StoreErrorSpec::RowNotFound => ErrorSpec::NotFound,
        StoreErrorSpec::Other(text) => ErrorSpec::Sqlx(text),
    }
}

impl ErrorSpec {
    /// The status code of the response.
    pub open spec fn status(self) -> u16 {
        match self {
            ErrorSpec::Sqlx(_) => INTERNAL_SERVER_ERROR,
            ErrorSpec::NotFound => NOT_FOUND,
            ErrorSpec::Validation(_) => BAD_REQUEST,
        }
    }

    /// The message shown to the client.
    pub open spec fn message(self) -> Seq<char> {
        match self {
            ErrorSpec::Sqlx(text) => text,
            ErrorSpec::NotFound => "Resource not found"@,
            ErrorSpec::Validation(text) => text,
        }
    }

    /// The response: the status, and the message in the envelope.
    pub open spec fn response(self) -> ResponseSpec {
        ResponseSpec { status: self.status(), body: BodySpec::Json(envelope(json_string(self.message()))) }
    }
}

/// The digits of base sixteen, in lower case.
pub open spec fn hex_digits() -> Seq<char> {
    "0123456789abcdef"@
}

/// How one character stands inside a JSON string literal: the double quote and the reverse
/// solidus behind a reverse solidus; backspace, tab, line feed, form feed and carriage return
/// as their letter behind a reverse solidus; every other character below U+0020 as `\u00` and
/// its two digits in base sixteen; every other character as it is.
pub open spec fn escaped_char(c: char) -> Seq<char> {
    if c == '"' {
        seq!['\\', '"']
    } else if c == '\\' {
        seq!['\\', '\\']
    } else if c == '\u{8}' {
        seq!['\\', 'b']
    } else if c == '\t' {
        seq!['\\', 't']
    } else if c == '\n' {
        seq!['\\', 'n']
    } else if c == '\u{c}' {
        seq!['\\', 'f']
    } else if c == '\r' {
        seq!['\\', 'r']
    } else if (c as u32) < 0x20 {
        seq![
            '\\',
            'u',
            '0',
            '0',
            hex_digits()[(c as u32 / 16) as int],
            hex_digits()[(c as u32 % 16) as int],
        ]
    } else {
        seq![c]
    }
}

/// Whether a character stands for itself inside a JSON string literal.
pub open spec fn is_plain(c: char) -> bool {
    c != '"' && c != '\\' && (c as u32) >= 0x20
}

/// The characters of `text`, each as it stands inside a JSON string literal.
pub open spec fn escaped(text: Seq<char>) -> Seq<char>
    decreases text.len(),
{
    if text.len() == 0 {
        Seq::empty()
    } else {
        escaped(text.drop_last()) + escaped_char(text.last())
    }
}

/// The JSON string literal for `text`: the escaped text between double quotes.
pub open spec fn json_string(text: Seq<char>) -> Seq<char> {
    seq!['"'] + escaped(text) + seq!['"']
}

/// A text of plain characters stands in its literal as it is.
pub proof fn lemma_plain_text_is_quoted(text: Seq<char>)
    requires
        forall|i: int| 0 <= i < text.len() ==> is_plain(#[trigger] text[i]),
    ensures
        escaped(text) == text,
        json_string(text) == seq!['"'] + text + seq!['"'],
    decreases text.len(),
{
    if text.len() > 0 {
        lemma_plain_text_is_quoted(text.drop_last());
        assert(is_plain(text[text.len() - 1]));
        assert(escaped_char(text.last()) == seq![text.last()]);
        assert(text.drop_last() + seq![text.last()] =~= text);
    }
}

/// The one shape of every error body: an object whose only member, `error`, is the message,
/// given here as a JSON string literal.
pub open spec fn envelope(literal: Seq<char>) -> Seq<char> {
    "{\"error\":"@ + literal + "}"@
}

/// Calls serde_json's `Display` of `Value::String`, which serialises the value in compact
/// form: a double quote, the characters of the text, each escaped as serde_json's table of
/// escapes says, and a double quote.
#[verifier::external_body]
fn to_json_string(text: &str) -> (literal: String)
    ensures
        literal@ == json_string(text@),
{
    serde_json::Value::String(text.to_owned()).to_string()
}

/// Puts a message, already written as a JSON string literal, into the error envelope.
pub fn frame_error(literal: &str) -> (document: String)
    ensures
        document@ == envelope(literal@),
{
    String::from_str("{\"error\":").concat(literal).concat("}")
}

impl From<StoreError> for Error {
    fn from(failure: StoreError) -> (error: Error)
        ensures
            error@ == error_of(failure@),
    {
        match failure {
            StoreError::RowNotFound => Error::NotFound,
            StoreError::Other(text) => Error::Sqlx(text),
        }
    }
}

impl FromSpecImpl<StoreError> for Error {
    open spec fn obeys_from_spec() -> bool {
        true
    }

    open spec fn from_spec(failure: StoreError) -> Error {
        match failure {
            StoreError::RowNotFound => Error::NotFound,
            StoreError::Other(text) => Error::Sqlx(text),
        }
    }
}

impl Error {
    /// The error for a failure of the store where no row was awaited.
    pub fn store_failure(failure: StoreError) -> (error: Error)
        ensures
            error@ == failure_of(failure@),
    {
        match failure {
            StoreError::RowNotFound => Error::Sqlx(
                String::from_str(
                    "no rows returned by a query that expected to return at least one row",
                ),
            ),
            StoreError::Other(text) => Error::Sqlx(text),
        }
    }

    /// The status code of the response.
    pub fn status(&self) -> (status: u16)
        ensures
            status == self@.status(),
    {
        match self {
            Error::Sqlx(_) => INTERNAL_SERVER_ERROR,
            Error::NotFound => NOT_FOUND,
            Error::Validation(_) => BAD_REQUEST,
        }
    }

    /// The message shown to the client.
    pub fn message(&self) -> (message: &str)
        ensures
            message@ == self@.message(),
    {
        match self {
            Error::Sqlx(text) => text.as_str(),
            Error::NotFound => "Resource not found",
            Error::Validation(text) => text.as_str(),
        }
    }

    /// The response: the status, and the message in the envelope.
    pub fn into_response(self) -> (response: Response)
        ensures
            response@ == self@.response(),
    {
        let literal = to_json_string(self.message());
        let document = frame_error(literal.as_str());
        Response::new(self.status(), Body::Json(document))
    }
}

} // verus!

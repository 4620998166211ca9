//! What can go wrong while a request is read and answered.

use vstd::prelude::*;
use vstd::std_specs::convert::FromSpecImpl;

verus! {

/// std's error for a text that is no integer. It is carried along and
/// asked for its description; nothing else is known of it.
#[verifier::external_type_specification]
#[verifier::external_body]
pub struct ExParseIntError(core::num::ParseIntError);

/// std's error for a text that is no truth value. It is carried along and
/// asked for its description; nothing else is known of it.
#[verifier::external_type_specification]
#[verifier::external_body]
pub struct ExParseBoolError(core::str::ParseBoolError);

/// A date or time that could not be read: the description that the parser
/// gave of the failure.
#[derive(Debug)]
pub struct TimeError {
    pub message: String,
}

/// Why a filter in the query string could not be read.
#[derive(Debug)]
pub enum ParseError {
    IntError(core::num::ParseIntError),
    BoolError(core::str::ParseBoolError),
    TimeError(TimeError),
    Infallible,
    UnknownOperator(String),
}

impl From<core::num::ParseIntError> for ParseError {
    fn from(e: core::num::ParseIntError) -> (r: ParseError) {
        ParseError::IntError(e)
    }
}

impl FromSpecImpl<core::num::ParseIntError> for ParseError {
    open spec fn obeys_from_spec() -> bool {
        true
    }

    open spec fn from_spec(e: core::num::ParseIntError) -> ParseError {
        ParseError::IntError(e)
    }
}

impl From<core::str::ParseBoolError> for ParseError {
    fn from(e: core::str::ParseBoolError) -> (r: ParseError) {
        ParseError::BoolError(e)
    }
}

impl FromSpecImpl<core::str::ParseBoolError> for ParseError {
    open spec fn obeys_from_spec() -> bool {
        true
    }

    open spec fn from_spec(e: core::str::ParseBoolError) -> ParseError {
        ParseError::BoolError(e)
    }
}

impl From<TimeError> for ParseError {
    fn from(e: TimeError) -> (r: ParseError) {
        ParseError::TimeError(e)
    }
}

impl FromSpecImpl<TimeError> for ParseError {
    open spec fn obeys_from_spec() -> bool {
        true
    }

    open spec fn from_spec(e: TimeError) -> ParseError {
        ParseError::TimeError(e)
    }
}

impl From<core::convert::Infallible> for ParseError {
    fn from(e: core::convert::Infallible) -> (r: ParseError) {
        ParseError::Infallible
    }
}

impl FromSpecImpl<core::convert::Infallible> for ParseError {
    open spec fn obeys_from_spec() -> bool {
        true
    }

    open spec fn from_spec(e: core::convert::Infallible) -> ParseError {
        ParseError::Infallible
    }
}

/// The text in which `core::num::ParseIntError` describes itself, through
/// its `Display`. Nothing is claimed of it.
#[verifier::external_body]
fn int_error_text(e: &core::num::ParseIntError) -> (r: String) {
    e.to_string()
}

/// The text in which `core::str::ParseBoolError` describes itself, through
/// its `Display`. Nothing is claimed of it.
#[verifier::external_body]
fn bool_error_text(e: &core::str::ParseBoolError) -> (r: String) {
    e.to_string()
}

impl ParseError {
    /// The message of the error, given the text in which the error it
    /// carries describes itself. An unknown operator is named as it was
    /// written, whatever `detail` holds.
    pub open spec fn message_text(self, detail: Seq<char>) -> Seq<char> {
        match self {
            ParseError::IntError(_) => "Could not parse integer: "@ + detail,
            ParseError::BoolError(_) => "Could not parse boolean: "@ + detail,
            ParseError::TimeError(_) => "Could not parse date/time value: "@ + detail,
            ParseError::Infallible => "An infallible conversion somehow failed"@,
            ParseError::UnknownOperator(op) => "Unknown operator '"@ + op@ + "'"@,
        }
    }

    /// The message of the error, given the text in which the error it
    /// carries describes itself.
    pub fn message_with(&self, detail: &str) -> (r: String)
        ensures
            r@ == self.message_text(detail@),
    {
        match self {
            ParseError::IntError(_) => {
                let mut out = String::from_str("Could not parse integer: ");
                out.append(detail);
                out
            },
            ParseError::BoolError(_) => {
                let mut out = String::from_str("Could not parse boolean: ");
                out.append(detail);
                out
            },
            ParseError::TimeError(_) => {
                let mut out = String::from_str("Could not parse date/time value: ");
                out.append(detail);
                out
            },
            ParseError::Infallible => String::from_str("An infallible conversion somehow failed"),
            ParseError::UnknownOperator(op) => {
                let mut out = String::from_str("Unknown operator '");
                out.append(op.as_str());
                out.append("'");
                out
            },
        }
    }

    /// The message of the error.
    pub fn message(&self) -> (r: String)
        ensures
            exists|detail: Seq<char>| r@ == self.message_text(detail),
            self is Infallible || self is UnknownOperator ==> r@ == self.message_text(Seq::empty()),
            self matches ParseError::TimeError(e) ==> r@ == self.message_text(e.message@),
    {
        match self {
            ParseError::IntError(e) => {
                let detail = int_error_text(e);
                self.message_with(detail.as_str())
            },
            ParseError::BoolError(e) => {
                let detail = bool_error_text(e);
                self.message_with(detail.as_str())
            },
            ParseError::TimeError(e) => self.message_with(e.message.as_str()),
            _ => {
                let r = self.message_with("");
                proof {
                    reveal_strlit("");
                    assert(""@ =~= Seq::<char>::empty());
                }
                r
            },
        }
    }
}

/// The status of an answer.
#[derive(Debug, Clone, Copy, PartialEq, Eq, Structural)]
pub struct Status {
    pub code: u16,
}

pub const OK: u16 = 200;

pub const BAD_REQUEST: u16 = 400;

pub const FORBIDDEN: u16 = 403;

pub const NOT_FOUND: u16 = 404;

pub const INTERNAL_SERVER_ERROR: u16 = 500;

/// What the database layer reported: whether it found no row, and its own
/// description of the failure.
#[derive(Debug)]
pub struct DbError {
    pub not_found: bool,
    pub message: String,
}

/// What validation found wrong: its own description of the failures, and the
/// failures per field as JSON text.
#[derive(Debug)]
pub struct ValidationErrors {
    pub message: String,
    pub field_errors: String,
}

/// Why a request for a record failed.
#[derive(Debug)]
pub enum CrudError {
    NotFound,
    Forbidden,
    DbError(DbError),
    ValidationErrors(ValidationErrors),
    UnchangeableField(String),
}

impl From<DbError> for CrudError {
    fn from(e: DbError) -> (r: CrudError) {
        CrudError::DbError(e)
    }
}

impl FromSpecImpl<DbError> for CrudError {
    open spec fn obeys_from_spec() -> bool {
        true
    }

    open spec fn from_spec(e: DbError) -> CrudError {
        CrudError::DbError(e)
    }
}

impl From<ValidationErrors> for CrudError {
    fn from(e: ValidationErrors) -> (r: CrudError) {
        CrudError::ValidationErrors(e)
    }
}

impl FromSpecImpl<ValidationErrors> for CrudError {
    open spec fn obeys_from_spec() -> bool {
        true
    }

    open spec fn from_spec(e: ValidationErrors) -> CrudError {
        CrudError::ValidationErrors(e)
    }
}

/// The JSON text of an object with two members, the first a number and the
/// second a string, as serde_json writes it.
pub uninterp spec fn object_json(
    number_name: Seq<char>,
    number: u16,
    text_name: Seq<char>,
    text: Seq<char>,
) -> Seq<char>;

/// Builds a `serde_json::Value` object of two members by
/// `serde_json::Map::insert` and writes it out with its `to_string`.
/// Nothing is claimed of the text but that it is what serde_json gives for
/// these names and values.
#[verifier::external_body]
fn json_object(number_name: &str, number: u16, text_name: &str, text: &str) -> (r: String)
    ensures
        r@ == object_json(number_name@, number, text_name@, text@),
{
    let mut members = serde_json::Map::new();
    members.insert(number_name.to_string(), serde_json::Value::from(number));
    members.insert(text_name.to_string(), serde_json::Value::from(text));
    serde_json::Value::Object(members).to_string()
}

impl CrudError {
    /// The status code that answers the error: 404 where nothing was found,
    /// by the library or by the database; 403 where access was refused; 400
    /// where the request itself was at fault; 500 for any other failure of
    /// the database.
    pub open spec fn status_code(self) -> u16 {
        match self {
            CrudError::NotFound => NOT_FOUND,
            CrudError::Forbidden => FORBIDDEN,
            CrudError::DbError(e) => if e.not_found {
                NOT_FOUND
            } else {
                INTERNAL_SERVER_ERROR
            },
            CrudError::ValidationErrors(_) => BAD_REQUEST,
            CrudError::UnchangeableField(_) => BAD_REQUEST,
        }
    }

    /// The status that answers the error.
    pub fn status(&self) -> (r: Status)
        ensures
            r.code == self.status_code(),
    {
        match self {
            CrudError::NotFound => Status { code: NOT_FOUND },
            CrudError::Forbidden => Status { code: FORBIDDEN },
            CrudError::DbError(e) => {
                if e.not_found {
                    Status { code: NOT_FOUND }
                } else {
                    Status { code: INTERNAL_SERVER_ERROR }
                }
            },
            CrudError::ValidationErrors(_) => Status { code: BAD_REQUEST },
            CrudError::UnchangeableField(_) => Status { code: BAD_REQUEST },
        }
    }

    /// The message of the error.
    pub open spec fn message_text(self) -> Seq<char> {
        match self {
            CrudError::NotFound => "Not Found"@,
            CrudError::Forbidden => "Forbidden"@,
            CrudError::DbError(e) => "Error from the database layer: "@ + e.message@,
            CrudError::ValidationErrors(e) => "There are validation errors: "@ + e.message@,
            CrudError::UnchangeableField(field) => "Field "@ + field@
                + " is not allowed to be changed"@,
        }
    }

    /// The message of the error.
    pub fn message(&self) -> (r: String)
        ensures
            r@ == self.message_text(),
    {
        match self {
            CrudError::NotFound => String::from_str("Not Found"),
            CrudError::Forbidden => String::from_str("Forbidden"),
            CrudError::DbError(e) => {
                let mut out = String::from_str("Error from the database layer: ");
                out.append(e.message.as_str());
                out
            },
            CrudError::ValidationErrors(e) => {
                let mut out = String::from_str("There are validation errors: ");
                out.append(e.message.as_str());
                out
            },
            CrudError::UnchangeableField(field) => {
                let mut out = String::from_str("Field ");
                out.append(field.as_str());
                out.append(" is not allowed to be changed");
                out
            },
        }
    }

    /// The answer to a request that failed: the status, and a JSON body
    /// that gives the status code as `error` and the message as `message`.
    pub fn respond_to(&self) -> (r: (Status, String))
        ensures
            r.0.code == self.status_code(),
            r.1@ == object_json("error"@, self.status_code(), "message"@, self.message_text()),
    {
        let status = self.status();
        let message = self.message();
        let body = json_object("error", status.code, "message", message.as_str());
        (status, body)
    }
}

/// An error answers with a failure: never with a status below 400.
pub proof fn lemma_error_status_is_failure(e: CrudError)
    ensures
        400 <= e.status_code() <= 500,
{
}

} // verus!

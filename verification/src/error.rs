//! What can go wrong, and how a reply of the engine is read as an answer or as a refusal.

use crate::document;
use crate::document::ValueRef;
use crate::limits::floor::FreeDiskFloor;
use crate::text;
use vstd::prelude::*;

verus! {

#[derive(Debug)]
pub enum Error {
    /// A document could not be encoded or decoded.
    Bson(bson::error::Error),
    Closed,
    /// A thread of the engine could not be started, and why.
    EngineThread(String),
    /// A free-disk floor that could not be applied and could not be put back either, so the
    /// engine is on floors nobody chose.
    ///
    /// Separate from an ordinary failure because a caller who catches "your request failed"
    /// reasonably assumes nothing happened, and here something did.
    FreeDiskFloorNotRestored {
        /// The floor the caller asked for, which is not the one in force.
        requested: FreeDiskFloor,
        /// Why the move failed.
        cause: Box<Error>,
        /// Why putting the floors back failed.
        rollback: Box<Error>,
    },
    InvalidArgument(&'static str),
    InvalidResponse(String),
    /// A failure of the native engine itself, in its own words.
    Native(String),
    NonUtf8Path,
    /// A command the server refused.
    Server { code: Option<i64>, message: String, response: Box<bson::Document> },
}

/// What the native engine reports when a call into it fails.
#[derive(Debug)]
pub enum NativeError {
    Closed,
    Failed(String),
}

impl Error {
    /// The sentence an error is shown as.
    pub open spec fn text(self) -> Seq<char>
        decreases self,
    {
        match self {
            Error::Bson(error) => "BSON error: "@ + document::error_text(error),
            Error::Closed => "embedded MongoDB client is closed"@,
            Error::EngineThread(reason) => reason@,
            Error::FreeDiskFloorNotRestored { requested, cause, rollback } => {
                "the free disk floor could not be moved to "@ + text::decimal(
                    requested.spec_mebibytes() as nat,
                ) + " MiB and the floors could not be put back either, so the engine is on floors nobody chose -- the move failed with: "@
                    + cause.text() + "; putting them back failed with: "@ + rollback.text()
            },
            Error::InvalidArgument(reason) => reason@,
            Error::InvalidResponse(reason) => "invalid embedded MongoDB response: "@ + reason@,
            Error::Native(reason) => reason@,
            Error::NonUtf8Path => "database path is not valid UTF-8"@,
            Error::Server { code, message, .. } => {
                let number = match code {
                    Some(code) => " "@ + text::signed_decimal(code as int),
                    None => Seq::empty(),
                };
                "MongoDB error"@ + number + ": "@ + message@
            },
        }
    }

    /// Whether this says that a reply of the engine is not one it should have given, and why.
    pub open spec fn is_invalid_response(self, reason: Seq<char>) -> bool {
        self is InvalidResponse && self->InvalidResponse_0@ == reason
    }

    /// Whether this reports the refusal that a reply of these fields is.
    pub open spec fn is_refusal_in(self, fields: document::Fields) -> bool {
        &&& self is Server
        &&& self->code == refusal_code(fields)
        &&& self->message@ == refusal_message(fields)
        &&& document::fields(*self->response) == fields
    }

    /// Whether this reports the refusal that `response` is.
    pub open spec fn is_refusal(self, response: bson::Document) -> bool {
        self.is_refusal_in(document::fields(response)) && *self->response == response
    }

    /// The sentence an error is shown as.
    pub fn message(&self) -> (message: String)
        ensures
            message@ == self.text(),
        decreases self,
    {
        match self {
            Error::Bson(error) => {
                let mut message: String = "BSON error: ".to_owned();
                message.append(document::error_display(error).as_str());
                message
            },
            Error::Closed => "embedded MongoDB client is closed".to_owned(),
            Error::EngineThread(reason) => reason.clone(),
            Error::FreeDiskFloorNotRestored { requested, cause, rollback } => {
                let mut message: String = "the free disk floor could not be moved to ".to_owned();
                text::push_decimal(&mut message, requested.mebibytes() as u64);
                message.append(
                    " MiB and the floors could not be put back either, so the engine is on floors nobody chose -- the move failed with: ",
                );
                let because: String = cause.message();
                message.append(because.as_str());
                message.append("; putting them back failed with: ");
                let and_then: String = rollback.message();
                message.append(and_then.as_str());
                message
            },
            Error::InvalidArgument(reason) => (*reason).to_owned(),
            Error::InvalidResponse(reason) => {
                let mut message: String = "invalid embedded MongoDB response: ".to_owned();
                message.append(reason.as_str());
                message
            },
            Error::Native(reason) => reason.clone(),
            Error::NonUtf8Path => "database path is not valid UTF-8".to_owned(),
            Error::Server { code, message, .. } => {
                let mut shown: String = "MongoDB error".to_owned();
                if let Some(code) = code {
                    shown.append(" ");
                    text::push_signed_decimal(&mut shown, *code);
                }
                shown.append(": ");
                shown.append(message.as_str());
                shown
            },
        }
    }
}

impl From<NativeError> for Error {
    /// A closed engine is a closed client. Everything else the engine reports is passed on.
    fn from(error: NativeError) -> (converted: Self) {
        match error {
            NativeError::Closed => Error::Closed,
            NativeError::Failed(reason) => Error::Native(reason),
        }
    }
}

impl vstd::std_specs::convert::FromSpecImpl<NativeError> for Error {
    open spec fn obeys_from_spec() -> bool {
        true
    }

    open spec fn from_spec(error: NativeError) -> Self {
        match error {
            NativeError::Closed => Error::Closed,
            NativeError::Failed(reason) => Error::Native(reason),
        }
    }
}

/// Whether a double is zero, of either sign, by its bit pattern.
pub open spec fn is_zero_double(bits: u64) -> bool {
    bits == 0 || bits == 0x8000_0000_0000_0000
}

/// What the `ok` field of a reply says: whether the command succeeded, or nothing where the
/// field is missing or no number.
pub open spec fn ok_field(fields: document::Fields) -> Option<bool> {
    match document::field(fields, "ok"@) {
        Some(document::Value::Double(bits)) => Some(!is_zero_double(bits)),
        Some(document::Value::Int32(number)) => Some(number != 0),
        Some(document::Value::Int64(number)) => Some(number != 0),
        _ => None,
    }
}

/// Whether a reply lists at least one write error.
pub open spec fn has_write_errors(fields: document::Fields) -> bool {
    match document::field(fields, "writeErrors"@) {
        Some(document::Value::Array(errors)) => errors.len() > 0,
        _ => false,
    }
}

/// Where in a reply the refusal is spelled out: in the first write error, or else in the write
/// concern error, or else in the reply itself.
pub open spec fn refusal_details(fields: document::Fields) -> document::Fields {
    match document::field(fields, "writeErrors"@) {
        Some(document::Value::Array(errors)) if errors.len() > 0 && errors[0] is Document => {
            errors[0]->Document_0
        },
        _ => match document::field(fields, "writeConcernError"@) {
            Some(document::Value::Document(error)) => error,
            _ => fields,
        },
    }
}

/// The code of a refusal, where it carries one.
pub open spec fn refusal_code(fields: document::Fields) -> Option<i64> {
    match document::field(refusal_details(fields), "code"@) {
        Some(document::Value::Int32(code)) => Some(code as i64),
        Some(document::Value::Int64(code)) => Some(code),
        _ => None,
    }
}

/// What a refusal says, or a stock phrase where it says nothing.
pub open spec fn refusal_message(fields: document::Fields) -> Seq<char> {
    match document::field(refusal_details(fields), "errmsg"@) {
        Some(document::Value::Text(message)) => message,
        _ => "MongoDB command failed"@,
    }
}

/// Whether a reply that carries a valid `ok` field is a refusal.
pub open spec fn is_refused(fields: document::Fields) -> bool {
    ||| ok_field(fields) == Some(false)
    ||| has_write_errors(fields)
    ||| document::field(fields, "writeConcernError"@) is Some
}

/// Reads a reply as the answer it is, or as the refusal it is.
pub fn validate_response(response: bson::Document) -> (result: Result<bson::Document, Error>)
    ensures
        match ok_field(document::fields(response)) {
            None => result is Err && result->Err_0.is_invalid_response(
                "command response has no valid ok field"@,
            ),
            Some(_) => if is_refused(document::fields(response)) {
                result is Err && result->Err_0.is_refusal(response)
            } else {
                result == Ok::<bson::Document, Error>(response)
            },
        },
{
    let zero: bool = match document::get(&response, "ok") {
        Some(found) => match document::open(found) {
            ValueRef::Double(bits) => bits == 0 || bits == 0x8000_0000_0000_0000,
            ValueRef::Int32(number) => number == 0,
            ValueRef::Int64(number) => number == 0,
            _ => return Err(
                Error::InvalidResponse("command response has no valid ok field".to_owned()),
            ),
        },
        None => return Err(
            Error::InvalidResponse("command response has no valid ok field".to_owned()),
        ),
    };
    let write_errors: bool = match document::get(&response, "writeErrors") {
        Some(found) => match document::open(found) {
            ValueRef::Array(errors) => errors.len() > 0,
            _ => false,
        },
        None => false,
    };
    if zero || write_errors || document::get(&response, "writeConcernError").is_some() {
        return Err(server_error(response));
    }
    Ok(response)
}

/// The document in which a reply spells its refusal out.
fn details_of(response: &bson::Document) -> (details: &bson::Document)
    ensures
        document::fields(*details) == refusal_details(document::fields(*response)),
{
    if let Some(found) = document::get(response, "writeErrors") {
        if let ValueRef::Array(errors) = document::open(found) {
            if errors.len() > 0 {
                if let ValueRef::Document(details) = document::open(&errors[0]) {
                    return details;
                }
            }
        }
    }
    if let Some(found) = document::get(response, "writeConcernError") {
        if let ValueRef::Document(details) = document::open(found) {
            return details;
        }
    }
    response
}

/// The refusal that `response` is.
pub fn server_error(response: bson::Document) -> (error: Error)
    ensures
        error.is_refusal(response),
{
    let details: &bson::Document = details_of(&response);
    let code: Option<i64> = match document::get(details, "code") {
        Some(found) => match document::open(found) {
            ValueRef::Int32(code) => Some(code as i64),
            ValueRef::Int64(code) => Some(code),
            _ => None,
        },
        None => None,
    };
    let message: String = match document::get(details, "errmsg") {
        Some(found) => match document::open(found) {
            ValueRef::Text(message) => message.to_owned(),
            _ => "MongoDB command failed".to_owned(),
        },
        None => "MongoDB command failed".to_owned(),
    };
    Error::Server { code, message, response: Box::new(response) }
}

} // verus!

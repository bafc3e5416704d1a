//! A command on its way to the engine, and a reply on its way back.

use crate::document;
use crate::error;
use crate::error::{validate_response, Error};
use vstd::prelude::*;

verus! {

/// A command, and the database it is to be run on.
pub struct Request {
    pub database: String,
    pub command: bson::Document,
}

/// [`Request`] by what it holds.
#[verifier::ext_equal]
pub struct RequestView {
    pub database: Seq<char>,
    pub command: document::Fields,
}

impl View for Request {
    type V = RequestView;

    open spec fn view(&self) -> RequestView {
        RequestView { database: self.database@, command: document::fields(self.command) }
    }
}

/// The bytes a command goes to the engine as.
///
/// A command that holds a text of two gibibytes or so is left out: the format has no way to write
/// down how long that is.
pub fn encode_command(command: &bson::Document) -> (result: Result<Vec<u8>, Error>)
    requires
        document::is_countable(document::Value::Document(document::fields(*command))),
    ensures
        match document::encoded(document::fields(*command)) {
            Ok(bytes) => result is Ok && result->Ok_0@ == bytes,
            Err(error) => result == Err::<Vec<u8>, Error>(Error::Bson(error)),
        },
{
    match document::encode(command) {
        Ok(bytes) => Ok(bytes),
        Err(error) => Err(Error::Bson(error)),
    }
}

/// The answer in the bytes of a reply, or the refusal it is.
pub fn decode_response(response: &[u8]) -> (result: Result<bson::Document, Error>)
    ensures
        match document::decoded(response@) {
            Ok(fields) => match error::ok_field(fields) {
                None => result is Err && result->Err_0.is_invalid_response(
                    "command response has no valid ok field"@,
                ),
                Some(_) => if error::is_refused(fields) {
                    result is Err && result->Err_0.is_refusal_in(fields)
                } else {
                    result is Ok && document::fields(result->Ok_0) == fields
                },
            },
            Err(error) => result == Err::<bson::Document, Error>(Error::Bson(error)),
        },
{
    match document::decode(response) {
        Ok(response) => validate_response(response),
        Err(error) => Err(Error::Bson(error)),
    }
}

} // verus!

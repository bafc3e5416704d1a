//! Replies: what is an answer, what is a refusal, and what a refusal says.

use crate::document;
use crate::error;
use crate::error::Error;
use crate::limits::floor::FreeDiskFloor;
use crate::text;
use vstd::prelude::*;

verus! {

/// A reply is valid exactly where its `ok` is a number, and says success exactly where that number
/// is not zero. It is an answer only where, besides, it lists no write error and holds no write
/// concern error.
pub proof fn an_answer_is_a_reply_that_nothing_speaks_against(reply: document::Fields)
    ensures
        match document::field(reply, "ok"@) {
            Some(document::Value::Double(bits)) => error::ok_field(reply) == Some(
                bits != 0 && bits != 0x8000_0000_0000_0000,
            ),
            Some(document::Value::Int32(number)) => error::ok_field(reply) == Some(number != 0),
            Some(document::Value::Int64(number)) => error::ok_field(reply) == Some(number != 0),
            _ => error::ok_field(reply) is None,
        },
        error::is_refused(reply) <==> {
            ||| error::ok_field(reply) == Some(false)
            ||| document::field(reply, "writeErrors"@) matches Some(document::Value::Array(errors))
                && errors.len() > 0
            ||| document::field(reply, "writeConcernError"@) is Some
        },
{
}

/// Whether `details` is the document of a reply that spells its refusal out: the first write
/// error, or else the write concern error, or else the reply itself.
pub open spec fn spells_out(reply: document::Fields, details: document::Fields) -> bool {
    let first = match document::field(reply, "writeErrors"@) {
        Some(document::Value::Array(errors)) if errors.len() > 0 => Some(errors[0]),
        _ => None,
    };
    let concern = document::field(reply, "writeConcernError"@);
    ||| first == Some(document::Value::Document(details))
    ||| !(first is Some && first->0 is Document) && concern == Some(
        document::Value::Document(details),
    )
    ||| !(first is Some && first->0 is Document) && !(concern is Some && concern->0 is Document)
        && details == reply
}

/// A refusal reports the code and the message of the document that spells it out, as they stand
/// there: a code of either width as the number it is, and no code where there is none.
pub proof fn a_refusal_says_what_its_details_say(reply: document::Fields, details: document::Fields)
    requires
        spells_out(reply, details),
    ensures
        match document::field(details, "code"@) {
            Some(document::Value::Int32(code)) => error::refusal_code(reply) == Some(code as i64),
            Some(document::Value::Int64(code)) => error::refusal_code(reply) == Some(code),
            _ => error::refusal_code(reply) is None,
        },
        match document::field(details, "errmsg"@) {
            Some(document::Value::Text(message)) => error::refusal_message(reply) == message,
            _ => error::refusal_message(reply) == "MongoDB command failed"@,
        },
{
}

/// A reply is handed on exactly where its `ok` is a number other than zero and nothing speaks
/// against it; and then it is handed on as it is.
pub proof fn only_an_answer_is_handed_on(
    response: bson::Document,
    result: Result<bson::Document, Error>,
)
    requires
        call_ensures(error::validate_response, (response,), result),
    ensures
        ({
            let reply = document::fields(response);
            let succeeded = match document::field(reply, "ok"@) {
                Some(document::Value::Double(bits)) => bits != 0 && bits != 0x8000_0000_0000_0000,
                Some(document::Value::Int32(number)) => number != 0,
                Some(document::Value::Int64(number)) => number != 0,
                _ => false,
            };
            let against = (document::field(reply, "writeErrors"@) matches Some(
                document::Value::Array(errors),
            ) && errors.len() > 0) || document::field(reply, "writeConcernError"@) is Some;
            &&& result is Ok <==> succeeded && !against
            &&& result is Ok ==> result->Ok_0 == response
            &&& result is Err ==> (result->Err_0 is Server && *result->Err_0->response == response)
                || (result->Err_0 is InvalidResponse && error::ok_field(reply) is None)
        }),
{
}

/// What an error is shown as, in so many words.
pub proof fn errors_are_spelled_out(
    reason: String,
    fault: bson::error::Error,
    argument: &'static str,
    code: i64,
    response: Box<bson::Document>,
    requested: FreeDiskFloor,
    cause: Box<Error>,
    rollback: Box<Error>,
)
    ensures
        Error::Bson(fault).text() == "BSON error: "@ + document::error_text(fault),
        Error::Closed.text() == "embedded MongoDB client is closed"@,
        Error::EngineThread(reason).text() == reason@,
        Error::InvalidArgument(argument).text() == argument@,
        Error::InvalidResponse(reason).text() == "invalid embedded MongoDB response: "@ + reason@,
        Error::Native(reason).text() == reason@,
        Error::NonUtf8Path.text() == "database path is not valid UTF-8"@,
        (Error::Server { code: None, message: reason, response }).text() == "MongoDB error"@
            + Seq::<char>::empty() + ": "@ + reason@,
        (Error::Server { code: Some(code), message: reason, response }).text() == "MongoDB error"@
            + (" "@ + text::signed_decimal(code as int)) + ": "@ + reason@,
        (Error::FreeDiskFloorNotRestored { requested, cause, rollback }).text()
            == "the free disk floor could not be moved to "@ + text::decimal(
            requested.spec_mebibytes() as nat,
        ) + " MiB and the floors could not be put back either, so the engine is on floors nobody chose -- the move failed with: "@
            + cause.text() + "; putting them back failed with: "@ + rollback.text(),
{
    reveal_with_fuel(Error::text, 2);
}

/// A refusal that is reported carries the code, the message and the whole of the reply it is; and
/// a reply that is not one a command should have had is reported with the reason, as it stands.
pub proof fn what_is_reported_is_the_reply(
    error: Error,
    reply: document::Fields,
    response: bson::Document,
    reason: Seq<char>,
)
    ensures
        error.is_refusal_in(reply) <==> {
            &&& error is Server
            &&& error->code == error::refusal_code(reply)
            &&& error->message@ == error::refusal_message(reply)
            &&& document::fields(*error->response) == reply
        },
        error.is_refusal(response) ==> *error->response == response,
        error.is_invalid_response(reason) <==> (error matches Error::InvalidResponse(said) && said@
            == reason),
{
}

} // verus!

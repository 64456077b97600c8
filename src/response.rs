//! Interpreting the service's answer: the transcribed text, or an error
//! carrying the status and the most specific message available.
use vstd::prelude::*;
use crate::error::TranscribeError;

verus! {

/// The string found in the JSON document `body` at the JSON pointer
/// `pointer`, if `body` parses as JSON and holds a string there.
pub uninterp spec fn json_string_at(body: Seq<char>, pointer: Seq<char>) -> Option<Seq<char>>;

/// Relies on serde_json::from_str into a serde_json::Value, followed by
/// Value::pointer and Value::as_str: the result depends on the two strings
/// alone.
#[verifier::external_body]
fn json_str_at(body: &str, pointer: &str) -> (r: Option<String>)
    ensures
        r matches Some(s) ==> json_string_at(body@, pointer@) == Some(s@),
        r is None ==> json_string_at(body@, pointer@) is None,
{
    let value: serde_json::Value = serde_json::from_str(body).ok()?;
    value.pointer(pointer)?.as_str().map(|s| s.to_string())
}

/// The description serde_json gives of why `body` is not a JSON document,
/// if it is not one.
pub uninterp spec fn json_syntax_error(body: Seq<char>) -> Option<Seq<char>>;

/// Relies on serde_json::from_str into a serde_json::Value and on the
/// `Display` of its error: the text depends on `body` alone.
#[verifier::external_body]
fn json_error_text(body: &str) -> (r: Option<String>)
    ensures
        r matches Some(e) ==> json_syntax_error(body@) == Some(e@),
        r is None ==> json_syntax_error(body@) is None,
{
    serde_json::from_str::<serde_json::Value>(body).err().map(|e| e.to_string())
}

/// The description of a JSON document without a string `text` field.
pub open spec fn missing_text_field() -> Seq<char> {
    seq![
        'm', 'i', 's', 's', 'i', 'n', 'g', ' ', 'o', 'r', ' ', 'n', 'o', 'n', '-', 's', 't', 'r',
        'i', 'n', 'g', ' ', 'f', 'i', 'e', 'l', 'd', ' ', '`', 't', 'e', 'x', 't', '`',
    ]
}

/// The pointer to the message of an error answer: `{"error":{"message":..}}`.
pub open spec fn error_message_pointer() -> Seq<char> {
    seq!['/', 'e', 'r', 'r', 'o', 'r', '/', 'm', 'e', 's', 's', 'a', 'g', 'e']
}

/// The pointer to the text of a successful answer: `{"text":..}`.
pub open spec fn text_pointer() -> Seq<char> {
    seq!['/', 't', 'e', 'x', 't']
}

/// The body text stood in for an error answer whose body could not be read.
pub open spec fn unreadable_body() -> Seq<char> {
    seq![
        'F', 'a', 'i', 'l', 'e', 'd', ' ', 't', 'o', ' ', 'r', 'e', 'a', 'd', ' ', 'e', 'r', 'r',
        'o', 'r', ' ', 'r', 'e', 's', 'p', 'o', 'n', 's', 'e',
    ]
}

/// An HTTP status in the success class 200..=299.
pub open spec fn is_success(status: u16) -> bool {
    200 <= status <= 299
}

/// Whether `status` is a success status (200 to 299).
pub fn status_is_success(status: u16) -> (r: bool)
    ensures
        r == is_success(status),
{
    200 <= status && status <= 299
}

/// The characters of an optional string.
pub open spec fn opt_string_view(o: Option<String>) -> Option<Seq<char>> {
    match o {
        Some(s) => Some(s@),
        None => None,
    }
}

/// The outcome of an error answer, given its body text and the message
/// found in it: the found message if any, else the body text verbatim.
pub fn api_failure(status: u16, text: String, found: Option<String>) -> (r: TranscribeError)
    ensures
        r matches TranscribeError::Api { status: s, message: m } && s == status && (match found {
            Some(f) => m@ == f@,
            None => m@ == text@,
        }),
{
    match found {
        Some(m) => TranscribeError::Api { status, message: m },
        None => TranscribeError::Api { status, message: text },
    }
}

/// The outcome of a success answer, given whether its body could be read,
/// the text field found in it and, when none was found, the reason the body
/// did not parse as JSON (`None` when it parsed but lacks the field).
pub fn success_outcome(readable: bool, found: Option<String>, syntax_error: Option<String>) -> (r:
    Result<String, TranscribeError>)
    ensures
        readable && found is Some ==> (r matches Ok(t) && Some(t@) == opt_string_view(found)),
        !readable ==> (r matches Err(e) && e is ResponseParse),
        readable && found is None ==> (r matches Err(TranscribeError::ResponseParse(d)) && (
        match syntax_error {
            Some(e) => d@ == e@,
            None => d@ == missing_text_field(),
        })),
{
    if !readable {
        return Err(TranscribeError::ResponseParse(String::from_str("response body could not be read")));
    }
    match found {
        Some(t) => Ok(t),
        None => match syntax_error {
            Some(e) => Err(TranscribeError::ResponseParse(e)),
            None => {
                let d = String::from_str("missing or non-string field `text`");
                proof {
                    reveal_strlit("missing or non-string field `text`");
                    assert(d@ =~= missing_text_field());
                }
                Err(TranscribeError::ResponseParse(d))
            },
        },
    }
}

/// Interprets an answer of the service. `body` is its text, or `None` when
/// it could not be read.
/// - A non-success status gives an `Api` error with that status; its
///   message is the string at `error.message` of the body's JSON if there
///   is one, else the body text (a fixed placeholder for an unreadable body).
/// - A success status gives the string at `text` of the body's JSON, or a
///   `ResponseParse` error when there is none, carrying serde_json's
///   description when the body is not JSON at all.
pub fn interpret_response(status: u16, body: Option<String>) -> (r: Result<String, TranscribeError>)
    ensures
        !is_success(status) ==> (r matches Err(TranscribeError::Api { status: s, message: m }) && s
            == status && ({
            let text = match body {
                Some(b) => b@,
                None => unreadable_body(),
            };
            match json_string_at(text, error_message_pointer()) {
                Some(f) => m@ == f,
                None => m@ == text,
            }
        })),
        is_success(status) && body is None ==> (r matches Err(e) && e is ResponseParse),
        is_success(status) && body is Some ==> (match json_string_at(
            body->Some_0@,
            text_pointer(),
        ) {
            Some(t) => r matches Ok(v) && v@ == t,
            None => r matches Err(TranscribeError::ResponseParse(d)) && (match json_syntax_error(
                body->Some_0@,
            ) {
                Some(e) => d@ == e,
                None => d@ == missing_text_field(),
            }),
        }),
{
    if !status_is_success(status) {
        let text = match body {
            Some(b) => b,
            None => String::from_str("Failed to read error response"),
        };
        proof {
            reveal_strlit("Failed to read error response");
            assert(body is None ==> text@ =~= unreadable_body());
        }
        let found = json_str_at(text.as_str(), "/error/message");
        proof {
            reveal_strlit("/error/message");
            assert("/error/message"@ =~= error_message_pointer());
        }
        return Err(api_failure(status, text, found));
    }
    match body {
        Some(b) => {
            let found = json_str_at(b.as_str(), "/text");
            proof {
                reveal_strlit("/text");
                assert("/text"@ =~= text_pointer());
            }
            let syntax_error = match found {
                Some(_) => None,
                None => json_error_text(b.as_str()),
            };
            success_outcome(true, found, syntax_error)
        },
        None => success_outcome(false, None, None),
    }
}

} // verus!

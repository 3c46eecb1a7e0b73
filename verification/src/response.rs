//! What the server answers.
//!
//! An answer is a status and a body of text. The answers that need nothing
//! from outside are fixed; the others are made from what reading an asset,
//! reading the token or writing the token gave.

use vstd::prelude::*;
use vstd::string::*;

verus! {

/// The status of an answer.
#[derive(Clone, Copy, Debug, PartialEq, Eq)]
pub enum Status {
    Success,
    NotFound,
    BadRequest,
    ServerError,
}

/// The status as it is written in the first line of an answer.
pub open spec fn status_line_of(status: Status) -> Seq<char> {
    match status {
        Status::Success => "200 OK"@,
        Status::NotFound => "404 Not Found"@,
        Status::BadRequest => "400 Bad Request"@,
        Status::ServerError => "500 Server Error"@,
    }
}

impl Status {
    /// The status as it is written in the first line of an answer.
    pub fn line(&self) -> (line: &'static str)
        ensures
            line@ == status_line_of(*self),
    {
        match self {
            Status::Success => "200 OK",
            Status::NotFound => "404 Not Found",
            Status::BadRequest => "400 Bad Request",
            Status::ServerError => "500 Server Error",
        }
    }
}

/// An answer: its status, and the text that is sent as its body.
#[derive(Debug, PartialEq, Eq)]
pub struct Response {
    pub status: Status,
    pub body: String,
}

/// An answer as contracts see it.
pub struct Answer {
    pub status: Status,
    pub body: Seq<char>,
}

impl View for Response {
    type V = Answer;

    open spec fn view(&self) -> Answer {
        Answer { status: self.status, body: self.body@ }
    }
}

/// The answer to a request for a path that the server does not know.
pub open spec fn not_found_answer() -> Answer {
    Answer { status: Status::NotFound, body: "No resource found"@ }
}

/// The answer to a client from whose words no path could be read.
pub open spec fn bad_request_answer() -> Answer {
    Answer { status: Status::BadRequest, body: "Bad request"@ }
}

/// What stands in front of the reason when an asset could not be provided.
pub open spec fn asset_failure_prefix() -> Seq<char> {
    "Error on providing static resource: "@
}

/// The answer to a request for an asset, from what reading the asset gave:
/// its content, or the reason why there is none.
pub open spec fn asset_answer(loaded: Result<Seq<char>, Seq<char>>) -> Answer {
    match loaded {
        Ok(content) => Answer { status: Status::Success, body: content },
        Err(reason) => Answer { status: Status::ServerError, body: asset_failure_prefix() + reason },
    }
}

/// The body that tells of a token that could not be read or written.
pub open spec fn failed_text() -> Seq<char> {
    "failed"@
}

/// The body that tells of a token that was written.
pub open spec fn saved_text() -> Seq<char> {
    "saved"@
}

/// The answer to a request for the token, from what reading the token file
/// gave: its text, or nothing where it could not be read.
pub open spec fn token_answer(read: Option<Seq<char>>) -> Answer {
    match read {
        Some(token) => Answer { status: Status::Success, body: token },
        None => Answer { status: Status::Success, body: failed_text() },
    }
}

/// The answer to a request to save the token, from whether the token file
/// was written.
pub open spec fn save_answer(written: bool) -> Answer {
    Answer { status: Status::Success, body: if written { saved_text() } else { failed_text() } }
}

/// The answer to a request for a path that the server does not know. Its
/// body is not empty.
pub fn not_found() -> (response: Response)
    ensures
        response@ == not_found_answer(),
        response@.status == Status::NotFound,
        response@.body.len() > 0,
{
    proof {
        reveal_strlit("No resource found");
    }
    Response { status: Status::NotFound, body: String::from_str("No resource found") }
}

/// The answer to a client from whose words no path could be read.
pub fn bad_request() -> (response: Response)
    ensures
        response@ == bad_request_answer(),
        response@.status == Status::BadRequest,
{
    Response { status: Status::BadRequest, body: String::from_str("Bad request") }
}

/// The answer to a request for an asset. With the content of the asset the
/// answer is that content, unchanged; with the reason why the asset could not
/// be read it is a server error that names the reason.
pub fn asset_response(loaded: Result<String, String>) -> (response: Response)
    ensures
        response@ == asset_answer(
            match loaded {
                Ok(content) => Ok(content@),
                Err(reason) => Err(reason@),
            },
        ),
{
    match loaded {
        Ok(content) => Response { status: Status::Success, body: content },
        Err(reason) => Response {
            status: Status::ServerError,
            body: String::from_str("Error on providing static resource: ").concat(reason.as_str()),
        },
    }
}

/// The answer to a request for the token. With the text of the token file
/// the answer is that text, unchanged; where the file could not be read it
/// says so.
pub fn token_response(read: Option<String>) -> (response: Response)
    ensures
        response@ == token_answer(
            match read {
                Some(token) => Some(token@),
                None => None,
            },
        ),
{
    match read {
        Some(token) => Response { status: Status::Success, body: token },
        None => Response { status: Status::Success, body: String::from_str("failed") },
    }
}

/// The answer to a request to save the token: it says whether the token file
/// was written.
pub fn save_response(written: bool) -> (response: Response)
    ensures
        response@ == save_answer(written),
{
    if written {
        Response { status: Status::Success, body: String::from_str("saved") }
    } else {
        Response { status: Status::Success, body: String::from_str("failed") }
    }
}

} // verus!

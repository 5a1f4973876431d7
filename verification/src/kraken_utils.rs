//! The credential file and the values exchanged with the job service.

use vstd::prelude::*;
use vstd::string::*;
use crate::record::{terminate, terminated};
use crate::text::join;

verus! {

/// The service's answer to a login.
#[derive(Debug, PartialEq, Eq)]
pub struct TokenJSON {
    pub auth: bool,
    pub token: String,
}

/// A job as the service records it.
#[derive(Debug, PartialEq, Eq)]
pub struct JobJSON {
    pub _id: String,
    pub machine: String,
    pub name: String,
    pub description: Option<String>,
    pub status: Option<String>,
}

/// One line of a job's log as the service holds it.
#[derive(Debug, PartialEq, Eq)]
pub struct LogJSON {
    pub job_id: String,
    pub line: String,
}

/// The service's report of an error of its own.
#[derive(Debug, PartialEq, Eq)]
pub struct ErrorJSON {
    pub auth: Option<bool>,
    pub message: String,
}

/// Why a call to the service gave no result. The transport's and the parser's
/// errors are held by their messages.
#[derive(Debug, PartialEq, Eq)]
pub enum FetchError {
    /// The request did not get through.
    Http(String),
    /// The answer was not the JSON that was expected.
    Json(String),
    /// The service answered with an error of its own.
    KrakenServerError(ErrorJSON),
    /// Anything else.
    Other(String),
}

/// The message that tells the user of a [`FetchError`].
pub open spec fn fetch_error_text(error: FetchError) -> Seq<char> {
    match error {
        FetchError::Http(message) => "http error: "@ + message@,
        FetchError::Json(message) => "json parsing error: "@ + message@,
        FetchError::KrakenServerError(report) => "Server error: "@ + report.message@,
        FetchError::Other(message) => "Error: "@ + message@,
    }
}

impl FetchError {
    /// The message for the standard error stream.
    pub fn describe(&self) -> (message: String)
        ensures
            message@ == fetch_error_text(*self),
    {
        match self {
            FetchError::Http(message) => join("http error: ", message.as_str()),
            FetchError::Json(message) => join("json parsing error: ", message.as_str()),
            FetchError::KrakenServerError(report) => join(
                "Server error: ",
                report.message.as_str(),
            ),
            FetchError::Other(message) => join("Error: ", message.as_str()),
        }
    }
}

/// What is left of the credential file's text when its last character is taken
/// away; an empty text stays empty.
pub open spec fn without_last(contents: Seq<char>) -> Seq<char> {
    if contents.len() == 0 {
        contents
    } else {
        contents.drop_last()
    }
}

/// The text of the credential file that holds `token`: the token and a line feed.
pub fn store_token(token: &str) -> (contents: String)
    ensures
        contents@ == terminated(token@),
{
    terminate(token)
}

/// The token in a credential file, from what reading the file gave: the file's
/// text less its last character, or the reading's error as it is.
pub fn retrieve_token(read: Result<String, String>) -> (token: Result<String, String>)
    ensures
        match read {
            Ok(contents) => token matches Ok(text) && text@ == without_last(contents@),
            Err(error) => token matches Err(same) && same@ == error@,
        },
{
    match read {
        Ok(contents) => {
            let length: usize = contents.as_str().unicode_len();
            if length == 0 {
                Ok(contents)
            } else {
                Ok(contents.as_str().substring_char(0, length - 1).to_owned())
            }
        },
        Err(error) => Err(error),
    }
}

/// A token that was stored is the token that is retrieved.
pub proof fn law_token_round_trip(token: Seq<char>)
    ensures
        without_last(terminated(token)) == token,
{
    assert(terminated(token).drop_last() =~= token);
}

} // verus!

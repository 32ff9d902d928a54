//! What all endpoints share: the error taxonomy, the formality preference, and
//! the rules by which a reply becomes a result or an error.

pub mod document;
pub mod glossary;
pub mod languages;
pub mod translate;
pub mod usage;

use crate::http::HttpStatus;
use vstd::prelude::*;

verus! {

/// Where to report a reply that this crate cannot explain.
pub const REPO_URL: &'static str = "https://github.com/Avimitin/deepl-rs";

/// Representing error during interaction with DeepL
#[derive(Debug, Clone, PartialEq, Eq)]
pub enum Error {
    /// The transport succeeded, but the payload did not have the expected shape.
    InvalidResponse(String),
    /// The transport failed, or the service answered with a failure and a message.
    RequestFail(String),
    /// The document at the path (first) could not be read, for the cause (second).
    ReadFileError(String, String),
    /// A download named a document ID that does not exist, or a wrong document key.
    NonExistDocument,
    /// A download named a document whose translation is not finished.
    TranslationNotDone,
    /// The downloaded document could not be written.
    WriteFileError(String),
}

/// An `Error` with its texts as sequences of characters.
pub enum ErrorView {
    InvalidResponse(Seq<char>),
    RequestFail(Seq<char>),
    ReadFileError(Seq<char>, Seq<char>),
    NonExistDocument,
    TranslationNotDone,
    WriteFileError(Seq<char>),
}

impl DeepView for Error {
    type V = ErrorView;

    open spec fn deep_view(&self) -> ErrorView {
        match self {
            Error::InvalidResponse(detail) => ErrorView::InvalidResponse(detail@),
            Error::RequestFail(detail) => ErrorView::RequestFail(detail@),
            Error::ReadFileError(path, cause) => ErrorView::ReadFileError(path@, cause@),
            Error::NonExistDocument => ErrorView::NonExistDocument,
            Error::TranslationNotDone => ErrorView::TranslationNotDone,
            Error::WriteFileError(detail) => ErrorView::WriteFileError(detail@),
        }
    }
}

impl ErrorView {
    /// The message of the error.
    pub open spec fn message(self) -> Seq<char> {
        match self {
            ErrorView::InvalidResponse(detail) => "invalid response: "@ + detail,
            ErrorView::RequestFail(detail) => "request fail: "@ + detail,
            ErrorView::ReadFileError(path, cause) => "fail to read file "@ + path + ": "@ + cause,
            ErrorView::NonExistDocument =>
                "trying to download a document using a non-existing document ID or the wrong document key"@,
            ErrorView::TranslationNotDone =>
                "tries to download a translated document that is currently being processed and is not yet ready for download"@,
            ErrorView::WriteFileError(detail) => "fail to write file: "@ + detail,
        }
    }
}

impl Error {
    /// The message of the error.
    pub fn to_string(&self) -> (message: String)
        ensures
            message@ == self.deep_view().message(),
    {
        match self {
            Error::InvalidResponse(detail) => String::from_str("invalid response: ").concat(
                detail.as_str(),
            ),
            Error::RequestFail(detail) => String::from_str("request fail: ").concat(
                detail.as_str(),
            ),
            Error::ReadFileError(path, cause) => String::from_str("fail to read file ").concat(
                path.as_str(),
            ).concat(": ").concat(cause.as_str()),
            Error::NonExistDocument => String::from_str(
                "trying to download a document using a non-existing document ID or the wrong document key",
            ),
            Error::TranslationNotDone => String::from_str(
                "tries to download a translated document that is currently being processed and is not yet ready for download",
            ),
            Error::WriteFileError(detail) => String::from_str("fail to write file: ").concat(
                detail.as_str(),
            ),
        }
    }
}

/// Formality preference for translation
#[derive(Debug, Clone, Copy, PartialEq, Eq)]
pub enum Formality {
    Default,
    More,
    Less,
    PreferMore,
    PreferLess,
}

impl Formality {
    /// The token the service expects for this preference.
    pub open spec fn token(self) -> Seq<char> {
        match self {
            Formality::Default => "default"@,
            Formality::More => "more"@,
            Formality::Less => "less"@,
            Formality::PreferMore => "prefer_more"@,
            Formality::PreferLess => "prefer_less"@,
        }
    }

    /// The token the service expects for this preference.
    pub fn as_ref(&self) -> (token: &'static str)
        ensures
            token@ == self.token(),
    {
        match self {
            Formality::Default => "default",
            Formality::More => "more",
            Formality::Less => "less",
            Formality::PreferMore => "prefer_more",
            Formality::PreferLess => "prefer_less",
        }
    }

    /// The token, owned.
    pub fn to_string(&self) -> (token: String)
        ensures
            token@ == self.token(),
    {
        String::from_str(self.as_ref())
    }
}

/// `prefix` followed by `cause`.
pub(crate) fn prefixed(prefix: &str, cause: &str) -> (text: String)
    ensures
        text@ == prefix@ + cause@,
{
    String::from_str(prefix).concat(cause)
}

/// The error for a request that got no reply: the transport's own words.
pub fn request_fail(cause: &str) -> (error: Error)
    ensures
        error.deep_view() == ErrorView::RequestFail(cause@),
{
    Error::RequestFail(String::from_str(cause))
}

/// What to do with a reply once its status is known.
#[derive(Debug, Clone, PartialEq, Eq)]
pub enum ReplyStep {
    /// Read the body as the result of the call.
    ReadResult,
    /// Read the body as text and report it through `extract_deepl_error`.
    ReadFailure,
    /// Report this error; the body is not read.
    Reject(Error),
}

/// The step after a reply with the status code `code`: the body of a success
/// (200 to 299) is the result, any other body describes a failure.
pub open spec fn reply_step_for(code: int) -> ReplyStep {
    if 200 <= code <= 299 {
        ReplyStep::ReadResult
    } else {
        ReplyStep::ReadFailure
    }
}

/// Decides by the status how a reply is read.
pub fn reply_step(status: HttpStatus) -> (step: ReplyStep)
    ensures
        step == reply_step_for(status.value()),
{
    if status.is_success() {
        ReplyStep::ReadResult
    } else {
        ReplyStep::ReadFailure
    }
}

/// The calls that send a request and, by `reply_step`, read a JSON document
/// from a successful reply.
#[derive(Debug, Clone, Copy, PartialEq, Eq)]
pub enum Exchange {
    TranslateText,
    UploadDocument,
    DocumentStatus,
    CreateGlossary,
    ListGlossaries,
    GlossaryDetails,
    GlossaryLanguagePairs,
    Languages,
    Usage,
}

impl Exchange {
    /// The error for a request of this call that got no reply.
    pub open spec fn send_failed(self, cause: Seq<char>) -> ErrorView {
        match self {
            Exchange::UploadDocument => ErrorView::RequestFail("fail to upload file: "@ + cause),
            _ => ErrorView::RequestFail(cause),
        }
    }

    /// The error for a successful reply whose body is not the JSON document
    /// that this call expects.
    pub open spec fn decode_failed(self, cause: Seq<char>) -> ErrorView {
        match self {
            Exchange::UploadDocument => ErrorView::InvalidResponse(
                "fail to decode response body: "@ + cause,
            ),
            Exchange::DocumentStatus => ErrorView::InvalidResponse(
                "response is not JSON: "@ + cause,
            ),
            Exchange::ListGlossaries => ErrorView::InvalidResponse(
                "Unexpected error when requesting list_all_glossaries, please open issue on "@
                    + REPO_URL@ + ": "@ + cause,
            ),
            _ => ErrorView::InvalidResponse("convert json bytes to Rust type: "@ + cause),
        }
    }

    /// The error for a request that got no reply; `cause` is what the
    /// transport said.
    pub fn send_failure(&self, cause: &str) -> (error: Error)
        ensures
            error.deep_view() == self.send_failed(cause@),
    {
        match self {
            Exchange::UploadDocument => Error::RequestFail(prefixed("fail to upload file: ", cause)),
            _ => request_fail(cause),
        }
    }

    /// The error for a body that could not be decoded; `cause` is what the
    /// decoder said.
    pub fn decode_failure(&self, cause: &str) -> (error: Error)
        ensures
            error.deep_view() == self.decode_failed(cause@),
    {
        match self {
            Exchange::UploadDocument => Error::InvalidResponse(
                prefixed("fail to decode response body: ", cause),
            ),
            Exchange::DocumentStatus => Error::InvalidResponse(
                prefixed("response is not JSON: ", cause),
            ),
            Exchange::ListGlossaries => Error::InvalidResponse(
                String::from_str(
                    "Unexpected error when requesting list_all_glossaries, please open issue on ",
                ).concat(REPO_URL).concat(": ").concat(cause),
            ),
            _ => Error::InvalidResponse(prefixed("convert json bytes to Rust type: ", cause)),
        }
    }
}

/// The text of a failure that the service reported: the status line `line`,
/// then a space and the body where the body could be read.
pub open spec fn failure_text(line: Seq<char>, message: Option<Seq<char>>) -> Seq<char> {
    match message {
        Some(message) => line + " "@ + message,
        None => line,
    }
}

/// The error for a reply that was no success. `line` is its status line,
/// `message` its body if that could be read as text.
pub fn describe_failure(line: String, message: Option<String>) -> (error: Error)
    ensures
        error.deep_view() == ErrorView::RequestFail(failure_text(line@, message.deep_view())),
{
    match message {
        Some(message) => Error::RequestFail(line.concat(" ").concat(message.as_str())),
        None => Error::RequestFail(line),
    }
}

/// Turn DeepL API error message into [`Error`]
///
/// `status` is the status of a reply that was no success, `message` its body
/// if that could be read as text.
pub fn extract_deepl_error(status: HttpStatus, message: Option<String>) -> (error: Error)
    ensures
        error.deep_view() == ErrorView::RequestFail(
            failure_text(status.line(), message.deep_view()),
        ),
{
    describe_failure(status.to_string(), message)
}

} // verus!

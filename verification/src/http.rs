//! Plain descriptions of HTTP traffic: status codes, URLs and requests.

use vstd::prelude::*;

verus! {

/// The text that the `url` crate gives for `input` resolved against `base`,
/// or `None` where it does not resolve it.
pub uninterp spec fn resolved_url(base: Seq<char>, input: Seq<char>) -> Option<Seq<char>>;

/// Resolves `input` against the absolute URL `base`, as a browser would.
///
/// Trusted: calls `reqwest::Url::join` with `input` on `base`, which
/// `reqwest::Url::parse` brings into a `Url` first, and returns the
/// serialization of the outcome; `None` where `base` is no absolute URL or
/// `input` does not resolve against it. The outcome depends on the two texts
/// alone, so it is given the name `resolved_url`.
#[verifier::external_body]
pub(crate) fn join_url(base: &str, input: &str) -> (url: Option<String>)
    ensures
        url.deep_view() == resolved_url(base@, input@),
{
    match reqwest::Url::parse(base) {
        Ok(parsed) => match parsed.join(input) {
            Ok(joined) => Some(String::from(joined)),
            Err(_) => None,
        },
        Err(_) => None,
    }
}

/// The text that the `http` crate prints for the status code `code`: the
/// number, a space and the canonical reason phrase of the code or, for a code
/// that has none, the words `<unknown status code>`.
pub uninterp spec fn status_display(code: u16) -> Seq<char>;

/// Trusted: builds a `reqwest::StatusCode` with `from_u16`, which accepts
/// exactly the codes from 100 to 999, and formats it with its `Display`,
/// a function of the code alone.
#[verifier::external_body]
fn display_status(code: u16) -> (text: Option<String>)
    ensures
        text is Some <==> 100 <= code <= 999,
        text matches Some(t) ==> t@ == status_display(code),
{
    match reqwest::StatusCode::from_u16(code) {
        Ok(status) => Some(status.to_string()),
        Err(_) => None,
    }
}

/// The status code of an HTTP response.
#[derive(Debug, Clone, Copy, PartialEq, Eq)]
pub struct HttpStatus {
    code: u16,
}

impl HttpStatus {
    #[verifier::type_invariant]
    spec fn in_range(self) -> bool {
        100 <= self.code <= 999
    }

    /// The numeric code.
    pub closed spec fn value(self) -> int {
        self.code as int
    }

    /// The status as a text: the code, a space and the canonical reason phrase
    /// of the code or, for a code that has none, a placeholder.
    pub closed spec fn line(self) -> Seq<char> {
        status_display(self.code)
    }

    /// Accepts the codes that can stand in a status line: 100 to 999.
    pub fn new(code: u16) -> (status: Option<HttpStatus>)
        ensures
            status is Some <==> 100 <= code <= 999,
            status matches Some(s) ==> s.value() == code,
    {
        if 100 <= code && code <= 999 {
            Some(HttpStatus { code })
        } else {
            None
        }
    }

    /// The numeric code.
    pub fn code(&self) -> (code: u16)
        ensures
            code == self.value(),
            100 <= code <= 999,
    {
        proof {
            use_type_invariant(self);
        }
        self.code
    }

    /// Whether the code is within 200 to 299.
    pub fn is_success(&self) -> (yes: bool)
        ensures
            yes == (200 <= self.value() <= 299),
    {
        200 <= self.code && self.code <= 299
    }

    /// The code, a space and its canonical reason phrase, such as
    /// `404 Not Found`. A code without such a phrase gives the placeholder
    /// instead, as in `456 <unknown status code>`.
    pub fn to_string(&self) -> (text: String)
        ensures
            text@ == self.line(),
    {
        proof {
            use_type_invariant(self);
        }
        display_status(self.code).unwrap()
    }
}

/// A list of named texts, as sequences of characters.
pub type Fields = Seq<(Seq<char>, Seq<char>)>;

/// A named text, owned.
pub fn field(name: &str, value: &str) -> (pair: (String, String))
    ensures
        pair.deep_view() == (name@, value@),
{
    (String::from_str(name), String::from_str(value))
}

/// An empty list of fields.
pub fn no_fields() -> (fields: Vec<(String, String)>)
    ensures
        fields.deep_view() == Seq::<(Seq<char>, Seq<char>)>::empty(),
{
    Vec::new()
}

/// Adds the field `name` with `value` at the end of `fields`.
pub fn push_field(fields: &mut Vec<(String, String)>, name: &str, value: &str)
    ensures
        final(fields).deep_view() == old(fields).deep_view().push((name@, value@)),
{
    fields.push(field(name, value));
}

/// `fields`, and behind them the field `name` where `value` is given.
pub open spec fn with_optional(
    fields: Fields,
    name: Seq<char>,
    value: Option<Seq<char>>,
) -> Fields {
    match value {
        Some(value) => fields.push((name, value)),
        None => fields,
    }
}

/// Adds the field `name` at the end of `fields` where `value` is given.
pub fn push_optional(fields: &mut Vec<(String, String)>, name: &str, value: Option<&str>)
    ensures
        final(fields).deep_view() == with_optional(
            old(fields).deep_view(),
            name@,
            value.deep_view(),
        ),
{
    match value {
        Some(value) => push_field(fields, name, value),
        None => {},
    }
}

/// The request methods that the API uses.
#[derive(Debug, Clone, Copy, PartialEq, Eq)]
pub enum Method {
    Get,
    Post,
    Delete,
}

/// What a request carries in its body.
#[derive(Debug, Clone, PartialEq, Eq)]
pub enum Payload {
    /// Nothing.
    Empty,
    /// The fields, form-encoded; a name may occur more than once.
    Form(Vec<(String, String)>),
    /// A JSON object with one string member for each field.
    Json(Vec<(String, String)>),
    /// A multipart form: one text part for each field, then the part `file`
    /// with the document's bytes, sent under the file name `file_name`.
    Multipart { texts: Vec<(String, String)>, file_name: String },
}

/// A `Payload` with its texts as sequences of characters.
pub enum PayloadView {
    Empty,
    Form(Fields),
    Json(Fields),
    Multipart { texts: Fields, file_name: Seq<char> },
}

impl DeepView for Payload {
    type V = PayloadView;

    open spec fn deep_view(&self) -> PayloadView {
        match self {
            Payload::Empty => PayloadView::Empty,
            Payload::Form(fields) => PayloadView::Form(fields.deep_view()),
            Payload::Json(fields) => PayloadView::Json(fields.deep_view()),
            Payload::Multipart { texts, file_name } => PayloadView::Multipart {
                texts: texts.deep_view(),
                file_name: file_name@,
            },
        }
    }
}

/// One HTTP request, ready to be sent.
#[derive(Debug, Clone, PartialEq, Eq)]
pub struct Request {
    pub method: Method,
    /// The absolute URL, without the query.
    pub url: String,
    pub headers: Vec<(String, String)>,
    /// The query parameters, to be appended to the URL.
    pub query: Vec<(String, String)>,
    pub payload: Payload,
}

/// A `Request` with its texts as sequences of characters.
pub struct RequestView {
    pub method: Method,
    pub url: Seq<char>,
    pub headers: Fields,
    pub query: Fields,
    pub payload: PayloadView,
}

impl DeepView for Request {
    type V = RequestView;

    open spec fn deep_view(&self) -> RequestView {
        RequestView {
            method: self.method,
            url: self.url@,
            headers: self.headers.deep_view(),
            query: self.query.deep_view(),
            payload: self.payload.deep_view(),
        }
    }
}

} // verus!

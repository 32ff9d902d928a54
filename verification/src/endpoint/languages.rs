//! The languages that the service translates from and to.

use crate::http::{no_fields, push_field, Method, Payload, PayloadView, Request};
use crate::DeepLApi;
use vstd::prelude::*;

verus! {

/// Information about a supported language
#[derive(Debug, Clone, PartialEq, Eq)]
pub struct LangInfo {
    /// Language code
    pub language: String,
    /// Language name
    pub name: String,
    /// Denotes a target language supports formality
    pub supports_formality: Option<bool>,
}

/// Language type used to request supported languages
#[derive(Debug, Clone, Copy, PartialEq, Eq)]
pub enum LangType {
    /// Source language
    Source,
    /// Target language
    Target,
}

impl LangType {
    /// The token the service expects for this type.
    pub open spec fn token(self) -> Seq<char> {
        match self {
            LangType::Source => "source"@,
            LangType::Target => "target"@,
        }
    }

    /// The token the service expects for this type.
    pub fn as_ref(&self) -> (token: &'static str)
        ensures
            token@ == self.token(),
    {
        match self {
            LangType::Source => "source",
            LangType::Target => "target",
        }
    }
}

impl DeepLApi {
    ///
    /// Retrieve supported languages for a given [`LangType`]
    ///
    /// The request names the type in its query.
    pub fn languages(&self, lang_type: LangType) -> (request: Option<Request>)
        ensures
            request.deep_view() == self.planned(
                Method::Get,
                "languages"@,
                Seq::empty(),
                seq![("type"@, lang_type.token())],
                PayloadView::Empty,
            ),
    {
        let mut query = no_fields();
        push_field(&mut query, "type", lang_type.as_ref());
        self.plan(Method::Get, "languages", no_fields(), query, Payload::Empty)
    }
}

} // verus!

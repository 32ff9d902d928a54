//! Typed request and response handling for the DeepL translation API.
//!
//! The crate holds no socket and reads no file. It builds the description of
//! each HTTP request, says how a reply is to be read, and maps the API's
//! parameters to the exact tokens the service expects. Every function is
//! verified against its contract.

pub mod endpoint;
pub mod http;
pub mod lang;
pub mod text;

pub use crate::endpoint::document::{
    DocumentStatusResp, DocumentTranslateStatus, UploadDocumentResp,
};
pub use crate::endpoint::translate::{TagHandling, TranslateTextResp};
pub use crate::endpoint::usage::UsageResponse;
pub use crate::endpoint::{Error, Formality};
pub use crate::lang::Lang;

use crate::http::{
    join_url, no_fields, push_field, resolved_url, Fields, Method, Payload, PayloadView, Request,
    RequestView,
};
use vstd::prelude::*;

verus! {

/// Base URL of the API for paying accounts.
pub open spec fn pro_endpoint() -> Seq<char> {
    "https://api.deepl.com/v2/"@
}

/// Base URL of the API for free accounts.
pub open spec fn free_endpoint() -> Seq<char> {
    "https://api-free.deepl.com/v2/"@
}

/// The value of the `Authorization` header for the account key `key`.
pub open spec fn authorization(key: Seq<char>) -> Seq<char> {
    "DeepL-Auth-Key "@ + key
}

/// What every request to the API needs: the key of the account and its tier.
#[derive(Debug, Clone, PartialEq, Eq)]
pub struct DeepLApi {
    key: String,
    is_pro: bool,
}

impl DeepLApi {
    /// The key of the account.
    pub closed spec fn account_key(&self) -> Seq<char> {
        self.key@
    }

    /// Whether the account is of the paid tier.
    pub closed spec fn pro(&self) -> bool {
        self.is_pro
    }

    /// The `Authorization` header's value.
    pub open spec fn key_view(&self) -> Seq<char> {
        authorization(self.account_key())
    }

    /// The base URL, which goes by the tier.
    pub open spec fn endpoint_view(&self) -> Seq<char> {
        if self.pro() {
            pro_endpoint()
        } else {
            free_endpoint()
        }
    }

    /// Starts the configuration of an instance for the account key `key`.
    pub fn with(key: &str) -> (builder: DeepLApiBuilder)
        ensures
            builder.key_view() == key@,
            !builder.pro(),
    {
        DeepLApiBuilder::init(String::from_str(key))
    }

    /// The `Authorization` header's value.
    pub fn key(&self) -> (key: String)
        ensures
            key@ == self.key_view(),
    {
        String::from_str("DeepL-Auth-Key ").concat(self.key.as_str())
    }

    /// The base URL.
    pub fn endpoint(&self) -> (endpoint: &'static str)
        ensures
            endpoint@ == self.endpoint_view(),
    {
        if self.is_pro {
            "https://api.deepl.com/v2/"
        } else {
            "https://api-free.deepl.com/v2/"
        }
    }

    /// The request that this instance sends to `url`: it carries the
    /// `Authorization` header before the headers in `more_headers`.
    pub open spec fn addressed(
        &self,
        method: Method,
        url: Seq<char>,
        more_headers: Fields,
        query: Fields,
        payload: PayloadView,
    ) -> RequestView {
        RequestView {
            method,
            url,
            headers: seq![("Authorization"@, self.key_view())] + more_headers,
            query,
            payload,
        }
    }

    /// The request that this instance makes of `route`: the request to the
    /// URL that the route resolves to against the base URL. There is none
    /// where the route does not resolve to a URL.
    pub open spec fn planned(
        &self,
        method: Method,
        route: Seq<char>,
        more_headers: Fields,
        query: Fields,
        payload: PayloadView,
    ) -> Option<RequestView> {
        match resolved_url(self.endpoint_view(), route) {
            Some(url) => Some(self.addressed(method, url, more_headers, query, payload)),
            None => None,
        }
    }

    /// The URL of `route` below the base URL, where the route resolves to one.
    pub fn get_endpoint(&self, route: &str) -> (url: Option<String>)
        ensures
            url.deep_view() == resolved_url(self.endpoint_view(), route@),
    {
        join_url(self.endpoint(), route)
    }

    /// Describes the request to `url`; see `addressed`.
    pub fn request_at(
        &self,
        method: Method,
        url: String,
        more_headers: Vec<(String, String)>,
        query: Vec<(String, String)>,
        payload: Payload,
    ) -> (request: Request)
        ensures
            request.deep_view() == self.addressed(
                method,
                url@,
                more_headers.deep_view(),
                query.deep_view(),
                payload.deep_view(),
            ),
    {
        let mut headers = no_fields();
        push_field(&mut headers, "Authorization", self.key().as_str());
        let mut more = more_headers;
        headers.append(&mut more);
        proof {
            assert(headers.deep_view() =~= seq![("Authorization"@, self.key_view())]
                + more_headers.deep_view());
        }
        Request { method, url, headers, query, payload }
    }

    /// Describes the request for `route` that has no headers of its own and no
    /// query; see `planned`.
    pub fn plain_request(&self, method: Method, route: &str, payload: Payload) -> (request:
        Option<Request>)
        ensures
            request.deep_view() == self.planned(
                method,
                route@,
                Seq::empty(),
                Seq::empty(),
                payload.deep_view(),
            ),
    {
        self.plan(method, route, no_fields(), no_fields(), payload)
    }

    /// Describes the request for `route`; see `planned`.
    pub fn plan(
        &self,
        method: Method,
        route: &str,
        more_headers: Vec<(String, String)>,
        query: Vec<(String, String)>,
        payload: Payload,
    ) -> (request: Option<Request>)
        ensures
            request.deep_view() == self.planned(
                method,
                route@,
                more_headers.deep_view(),
                query.deep_view(),
                payload.deep_view(),
            ),
    {
        match self.get_endpoint(route) {
            Some(url) => Some(self.request_at(method, url, more_headers, query, payload)),
            None => None,
        }
    }
}

/// Every request that an instance plans carries, as its first header,
/// `Authorization` with the value `DeepL-Auth-Key`, a space and the key of the
/// account.
pub proof fn lemma_planned_request_is_authorized(
    api: DeepLApi,
    method: Method,
    route: Seq<char>,
    more_headers: Fields,
    query: Fields,
    payload: PayloadView,
)
    ensures
        api.planned(method, route, more_headers, query, payload) matches Some(request) ==> {
            &&& request.headers.len() == 1 + more_headers.len()
            &&& request.headers[0] == ("Authorization"@, "DeepL-Auth-Key "@ + api.account_key())
        },
{
}

/// Collects the settings of a `DeepLApi`.
#[derive(Debug, Clone, PartialEq, Eq)]
pub struct DeepLApiBuilder {
    is_pro: bool,
    key: String,
}

impl DeepLApiBuilder {
    /// The account key as it was given.
    pub closed spec fn key_view(&self) -> Seq<char> {
        self.key@
    }

    /// Whether the paid tier was chosen.
    pub closed spec fn pro(&self) -> bool {
        self.is_pro
    }

    /// The settings to start from: the free tier.
    fn init(key: String) -> (builder: Self)
        ensures
            builder.key_view() == key@,
            !builder.pro(),
    {
        Self { key, is_pro: false }
    }

    /// Chooses between the paid tier (`true`) and the free tier.
    pub fn is_pro(&mut self, is_pro: bool) -> (builder: &mut Self)
        ensures
            builder.pro() == is_pro,
            builder.key_view() == old(self).key_view(),
            *final(self) == *final(builder),
    {
        self.is_pro = is_pro;
        self
    }

    /// The configured instance.
    pub fn new(&self) -> (api: DeepLApi)
        ensures
            api.account_key() == self.key_view(),
            api.pro() == self.pro(),
    {
        DeepLApi { key: self.key.clone(), is_pro: self.is_pro }
    }
}

} // verus!

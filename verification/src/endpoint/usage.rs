//! How much of the account's allowance is used.

use crate::http::{Method, Payload, PayloadView, Request};
use crate::DeepLApi;
use vstd::prelude::*;

verus! {

/// Response from the usage API
#[derive(Debug, Clone, Copy, PartialEq, Eq)]
pub struct UsageResponse {
    /// Characters translated so far in the current billing period.
    pub character_count: u64,
    /// Current maximum number of characters that can be translated per billing period.
    pub character_limit: u64,
}

impl DeepLApi {
    /// Get the current DeepL API usage
    pub fn get_usage(&self) -> (request: Option<Request>)
        ensures
            request.deep_view() == self.planned(
                Method::Post,
                "usage"@,
                Seq::empty(),
                Seq::empty(),
                PayloadView::Empty,
            ),
    {
        self.plain_request(Method::Post, "usage", Payload::Empty)
    }
}

} // verus!

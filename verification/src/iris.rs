//! The Iris API: where its requests go, and what its answers mean for the registration
//! checks.
use vstd::prelude::*;
use vstd::string::*;
use crate::captcha::IrisReply;
use crate::strings::{decimal, push_i64};

verus! {

/// The Iris API as the bot calls it: the bot's identifier and token, the base address and
/// the API version.
#[derive(Debug, Clone)]
pub struct IrisAPI {
    pub api_id: i64,
    pub api_token: String,
    pub base_url: String,
    pub api_version: String,
}

impl IrisAPI {
    /// The API at `https://iris-tg.ru/api`, version 0.5, with the bot's identifier and token.
    pub fn new(api_id: i64, api_token: String) -> (r: IrisAPI)
        ensures
            r.api_id == api_id,
            r.api_token@ == api_token@,
            r.base_url@ == "https://iris-tg.ru/api"@,
            r.api_version@ == "0.5"@,
    {
        IrisAPI {
            api_id,
            api_token,
            base_url: "https://iris-tg.ru/api".to_string(),
            api_version: "0.5".to_string(),
        }
    }

    /// `BASE/ID_TOKEN/vVERSION/METHOD`, the address of an API method.
    pub open spec fn url_spec(&self, method: Seq<char>) -> Seq<char> {
        self.base_url@ + "/"@ + decimal(self.api_id as int) + "_"@ + self.api_token@ + "/v"@ + self.api_version@ + "/"@
            + method
    }

    /// The address of an API method.
    pub fn request_url(&self, method: &str) -> (r: String)
        ensures
            r@ == self.url_spec(method@),
    {
        let mut r = String::new();
        r.append(self.base_url.as_str());
        r.append("/");
        push_i64(&mut r, self.api_id);
        r.append("_");
        r.append(self.api_token.as_str());
        r.append("/v");
        r.append(self.api_version.as_str());
        r.append("/");
        r.append(method);
        r
    }

    /// The method and query of a registration lookup: `user_info/reg` with `user_id`.
    pub fn user_reg_request(user_id: i64) -> (r: (&'static str, Vec<(String, String)>))
        ensures
            r.0@ == "user_info/reg"@,
            r.1@.len() == 1,
            r.1@[0].0@ == "user_id"@,
            r.1@[0].1@ == decimal(user_id as int),
    {
        let mut v = String::new();
        push_i64(&mut v, user_id);
        ("user_info/reg", vec![("user_id".to_string(), v)])
    }

    /// The method of the order book: `trade/orderbook`, without a query.
    pub fn order_book_request() -> (r: (&'static str, Vec<(String, String)>))
        ensures
            r.0@ == "trade/orderbook"@,
            r.1@.len() == 0,
    {
        ("trade/orderbook", Vec::new())
    }
}

/// What a failed Iris request was, as far as the checks distinguish.
#[derive(Debug, Clone)]
pub enum IrisFailure {
    /// The API answered with an error code and a description.
    Api { code: i32, description: String },
    /// Anything else: a network failure, or an unexpected answer.
    Other,
}

/// How a failed answer is classified: an error body the API explains is an API error;
/// anything else is another failure.
pub fn classify_failure(api_error: Option<(i32, String)>) -> (r: IrisFailure)
    ensures
        match api_error {
            Some((code, d)) => r matches IrisFailure::Api { code: c, description: e } && c == code && e@ == d@,
            None => r is Other,
        },
{
    match api_error {
        Some((code, description)) => IrisFailure::Api { code, description },
        None => IrisFailure::Other,
    }
}

/// What a registration lookup answered: the registration time, a refusal with code 403, or
/// another failure.
pub fn registration_reply(result: Result<i64, IrisFailure>) -> (r: IrisReply)
    ensures
        r == match result {
            Ok(ms) => IrisReply::Registered(ms),
            Err(IrisFailure::Api { code, .. }) => if code == 403 { IrisReply::Forbidden } else { IrisReply::Failed },
            Err(IrisFailure::Other) => IrisReply::Failed,
        },
{
    match result {
        Ok(ms) => IrisReply::Registered(ms),
        Err(IrisFailure::Api { code, .. }) => if code == 403 {
            IrisReply::Forbidden
        } else {
            IrisReply::Failed
        },
        Err(IrisFailure::Other) => IrisReply::Failed,
    }
}

} // verus!

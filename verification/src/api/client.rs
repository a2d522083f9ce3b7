//! The REST client's decisions: where a request goes, what it carries, how
//! long it waits for the rate limiter, and whether it is made again.
//!
//! The client does not send anything. Whoever owns the HTTP connection asks
//! it before each request and tells it of each response.

use crate::api::json::{json_of, Json};
use crate::api::model::value::{required, required_defect, DecodeError};
use crate::api::ratelimit::{
    backoff_for, pre_checked_at, Backoff, RateLimitError, RateLimits, RateLimitsView,
    ResponseInfo,
};
use crate::api::text::{strip_quotes, without};
use crate::api::{ENDPOINT_URL, USER_AGENT};
use vstd::prelude::*;
use vstd::string::StringExecFns;

verus! {

/// The path of the request that asks for the gateway's address.
pub const GATEWAY_PATH: &'static str = "/gateway";

/// The address of a request: the root of the REST interface and the path.
pub open spec fn endpoint_text(path: Seq<char>) -> Seq<char> {
    ENDPOINT_URL@ + path
}

/// Builds the address of a request.
pub fn endpoint(path: &str) -> (r: String)
    ensures
        r@ == endpoint_text(path@),
{
    let mut url = String::from_str(ENDPOINT_URL);
    url.append(path);
    url
}

/// The headers that every request carries: the content type, the client's
/// name, and the token.
pub open spec fn header_texts(token: Seq<char>) -> Seq<(Seq<char>, Seq<char>)> {
    seq![
        ("Content-Type"@, "application/json"@),
        ("User-Agent"@, USER_AGENT@),
        ("Authorization"@, token),
    ]
}

/// The names and values of a list of headers, as texts.
pub open spec fn pair_views(pairs: Seq<(String, String)>) -> Seq<(Seq<char>, Seq<char>)> {
    Seq::new(pairs.len(), |i: int| (pairs[i].0@, pairs[i].1@))
}

/// Builds the headers of a request.
pub fn headers(token: &str) -> (r: Vec<(String, String)>)
    ensures
        pair_views(r@) == header_texts(token@),
{
    let mut out: Vec<(String, String)> = Vec::new();
    out.push(("Content-Type".to_owned(), "application/json".to_owned()));
    out.push(("User-Agent".to_owned(), USER_AGENT.to_owned()));
    out.push(("Authorization".to_owned(), token.to_owned()));
    assert(pair_views(out@) =~= header_texts(token@));
    out
}

/// What the caller does next with a request.
#[derive(Clone, Copy, Debug, PartialEq, Eq)]
pub enum Next {
    /// Wait for so many milliseconds, then send the request once more.
    Retry { delay_ms: u64 },
    /// Wait for so many milliseconds, then hand the last response to
    /// whoever asked.
    Complete { delay_ms: u64 },
}

/// What follows a response: the first response to a request is answered
/// with one more try where the limiter asks for it; the second response
/// stands whatever it is, after the wait that the limiter asks for.
pub open spec fn next_for(retried: bool, backoff: Backoff) -> Next {
    match backoff {
        Backoff::Proceed => Next::Complete { delay_ms: 0 },
        Backoff::RetryAfter(delay_ms) => if retried {
            Next::Complete { delay_ms }
        } else {
            Next::Retry { delay_ms }
        },
    }
}

/// What follows `response`, or the error of a response that the limiter
/// cannot act on.
pub open spec fn outcome_for(retried: bool, response: ResponseInfo) -> Result<
    Next,
    RateLimitError,
> {
    match backoff_for(response) {
        Ok(backoff) => Ok(next_for(retried, backoff)),
        Err(e) => Err(e),
    }
}

/// One request on its way: where it goes and whether it has been made
/// again already.
#[derive(Debug, Clone)]
pub struct Request {
    pub url: String,
    pub retried: bool,
}

/// The deciding half of the REST client. It owns the rate limiter.
#[derive(Debug)]
pub struct Client {
    ratelimits: RateLimits,
}

impl View for Client {
    type V = RateLimitsView;

    closed spec fn view(&self) -> RateLimitsView {
        self.ratelimits@
    }
}

impl Client {
    /// A client whose limiter has seen no response.
    pub fn new() -> (r: Client)
        ensures
            r@.global == crate::api::ratelimit::RateLimit::fresh(),
            r@.routes == Map::<Seq<char>, crate::api::ratelimit::RateLimit>::empty(),
    {
        Client { ratelimits: RateLimits::default() }
    }

    /// Plans a request to `path` at second `now`: accounts for it in the
    /// limiter and returns the request with the milliseconds to wait
    /// before it is sent.
    pub fn begin_at(&mut self, path: &str, now: i64) -> (r: (Request, u64))
        ensures
            r.0.url@ == endpoint_text(path@),
            !r.0.retried,
            pre_checked_at(old(self)@, final(self)@, r.1, endpoint_text(path@), now),
    {
        let url = endpoint(path);
        let delay_ms = self.ratelimits.pre_check_at(url.as_str(), now);
        (Request { url, retried: false }, delay_ms)
    }

    /// Plans a request to `path` at the second that the clock shows.
    pub fn begin(&mut self, path: &str) -> (r: (Request, u64))
        ensures
            r.0.url@ == endpoint_text(path@),
            !r.0.retried,
            exists|now: i64| #[trigger]
                pre_checked_at(old(self)@, final(self)@, r.1, endpoint_text(path@), now),
    {
        let url = endpoint(path);
        let ghost before = self.ratelimits@;
        let delay_ms = self.ratelimits.pre_check(url.as_str());
        let r = (Request { url, retried: false }, delay_ms);
        proof {
            let now = choose|now: i64| #[trigger]
                pre_checked_at(before, self.ratelimits@, delay_ms, r.0.url@, now);
            assert(pre_checked_at(old(self)@, self@, r.1, endpoint_text(path@), now));
        }
        r
    }

    /// Takes note of a response to `request` and says what the caller does
    /// next. The limiter takes over the response's headers in every case.
    pub fn responded(&mut self, request: &mut Request, response: &ResponseInfo) -> (r: Result<
        Next,
        RateLimitError,
    >)
        ensures
            final(self)@ == old(self)@.updated(old(request).url@, response.headers),
            r == outcome_for(old(request).retried, *response),
            final(request).url == old(request).url,
            final(request).retried == (old(request).retried || r matches Ok(Next::Retry { .. })),
    {
        match self.ratelimits.check_for_ratelimit(request.url.as_str(), response) {
            Ok(Backoff::Proceed) => Ok(Next::Complete { delay_ms: 0 }),
            Ok(Backoff::RetryAfter(delay_ms)) => if request.retried {
                Ok(Next::Complete { delay_ms })
            } else {
                request.retried = true;
                Ok(Next::Retry { delay_ms })
            },
            Err(e) => Err(e),
        }
    }
}

/// The defect of the answer to the gateway request: its `url` is missing
/// or no string.
pub open spec fn gateway_url_defect(j: Json) -> Option<DecodeError> {
    required_defect::<String>(j, "url")
}

/// The address that the answer to the gateway request names: its `url`
/// without any double quotes.
pub open spec fn gateway_url_text(j: Json) -> Seq<char> {
    without(j.field("url"@)->0.as_text()->0, '"')
}

/// Reads the gateway's address out of the answer to the gateway request.
pub fn gateway_url(body: &serde_json::Value) -> (r: Result<String, DecodeError>)
    ensures
        r is Ok == gateway_url_defect(json_of(*body)) is None,
        r matches Ok(url) ==> url@ == gateway_url_text(json_of(*body)),
        r matches Err(e) ==> gateway_url_defect(json_of(*body)) == Some(e),
{
    let url: String = required(body, "url")?;
    Ok(strip_quotes(url.as_str()))
}

/// A request that meets `429` is made again exactly once, after at least
/// the wait that the response asks for; when the second response is a
/// `429` too, it stands, and the caller still waits as long as it asks.
pub proof fn lemma_retry_once(first: ResponseInfo, second: ResponseInfo, seconds: u64)
    requires
        first.status == crate::api::ratelimit::TOO_MANY_REQUESTS,
        first.headers.retry_after == Some(seconds),
        seconds * 1000 + crate::api::ratelimit::RETRY_BUFFER_MS <= u64::MAX,
    ensures
        outcome_for(false, first) matches Ok(Next::Retry { delay_ms }) && delay_ms == seconds * 1000
            + crate::api::ratelimit::RETRY_BUFFER_MS,
        outcome_for(true, second) matches Ok(next) ==> next is Complete,
{
}

} // verus!

//! The adaptive rate limiter that guards every REST call: one bucket for
//! the whole account and one for each route.
//!
//! The limiter decides; it never sleeps. `pre_check` and
//! `check_for_ratelimit` return the number of milliseconds that the caller
//! has to wait before it goes on.

use crate::api::clock::unix_seconds;
use crate::api::text::text_eq;
use vstd::prelude::*;

verus! {

/// Seconds by which an expired bucket's reset time is moved on.
pub const GRACE_SECONDS: isize = 3;

/// Milliseconds added to the wait for a bucket's reset.
pub const RESET_BUFFER_MS: u64 = 900;

/// Milliseconds added to the wait that a `429` response asks for.
pub const RETRY_BUFFER_MS: u64 = 100;

/// The status of a response that was refused for too many requests.
pub const TOO_MANY_REQUESTS: u16 = 429;

/// `n`, or the largest `u64` where `n` is larger.
pub open spec fn clamp_u64(n: int) -> u64 {
    if n > u64::MAX {
        u64::MAX
    } else if n < 0 {
        0
    } else {
        n as u64
    }
}

/// `n`, or the nearest `isize` where `n` is none.
pub open spec fn clamp_isize(n: int) -> isize {
    if n > isize::MAX {
        isize::MAX
    } else if n < isize::MIN {
        isize::MIN
    } else {
        n as isize
    }
}

/// The rate-limit headers of a response, as numbers.
#[derive(Clone, Copy, Debug, PartialEq, Eq)]
pub struct RateLimitHeaders {
    /// Whether `X-RateLimit-Global` is there.
    pub global: bool,
    /// `X-RateLimit-Reset`: the second at which the bucket is refilled.
    pub reset: Option<isize>,
    /// `X-RateLimit-Limit`: the requests that a full bucket allows.
    pub limit: Option<isize>,
    /// `X-RateLimit-Remaining`: the requests that the bucket still allows.
    pub remaining: Option<isize>,
    /// `Retry-After`: the seconds to wait before the request is made again.
    pub retry_after: Option<u64>,
}

/// What the limiter reads of a response.
#[derive(Clone, Copy, Debug, PartialEq, Eq)]
pub struct ResponseInfo {
    pub status: u16,
    pub headers: RateLimitHeaders,
}

/// What the caller does after a response.
#[derive(Clone, Copy, Debug, PartialEq, Eq)]
pub enum Backoff {
    /// The response stands.
    Proceed,
    /// Wait for so many milliseconds, then make the request once more.
    RetryAfter(u64),
}

/// A response that the limiter cannot act on.
#[derive(Clone, Copy, Debug, PartialEq, Eq)]
pub enum RateLimitError {
    /// The response has status `429` and does not say how long to wait.
    MissingRetryAfter,
}

/// What to do after `response`: retry after a `429`, else proceed.
pub open spec fn backoff_for(response: ResponseInfo) -> Result<Backoff, RateLimitError> {
    if response.status == TOO_MANY_REQUESTS {
        match response.headers.retry_after {
            Some(seconds) => Ok(Backoff::RetryAfter(clamp_u64(seconds * 1000 + RETRY_BUFFER_MS))),
            None => Err(RateLimitError::MissingRetryAfter),
        }
    } else {
        Ok(Backoff::Proceed)
    }
}

/// A rate-limit bucket: how many requests are left until which second.
/// A bucket whose `limit` is 0 has seen no response yet and never throttles.
#[derive(Clone, Copy, Debug, PartialEq, Eq)]
pub struct RateLimit {
    pub reset: isize,
    pub limit: isize,
    pub remaining: isize,
}

impl Default for RateLimit {
    fn default() -> (r: Self)
        ensures
            r == RateLimit::fresh(),
    {
        RateLimit { reset: 0, limit: 0, remaining: 0 }
    }
}

impl RateLimit {
    /// The bucket that has seen no response.
    pub open spec fn fresh() -> RateLimit {
        RateLimit { reset: 0, limit: 0, remaining: 0 }
    }

    /// Whether a request at second `now` has to wait: the bucket is in use,
    /// it is empty, and its reset is not yet past.
    pub open spec fn throttles(self, now: i64) -> bool {
        self.limit != 0 && self.reset >= now && self.remaining <= 0
    }

    /// The milliseconds that a request at second `now` has to wait: up to
    /// the reset and a little longer, or nothing.
    pub open spec fn delay_at(self, now: i64) -> u64 {
        if self.throttles(now) {
            clamp_u64((self.reset - now) * 1000 + RESET_BUFFER_MS)
        } else {
            0
        }
    }

    /// The bucket after a request at second `now` was let through. A bucket
    /// whose reset is past is refilled and its reset moved on; any other
    /// bucket in use gives up one request.
    pub open spec fn checked_at(self, now: i64) -> RateLimit {
        if self.limit == 0 {
            self
        } else if self.reset < now {
            RateLimit {
                reset: clamp_isize(self.reset + GRACE_SECONDS),
                limit: self.limit,
                remaining: self.limit,
            }
        } else {
            RateLimit {
                reset: self.reset,
                limit: self.limit,
                remaining: clamp_isize(self.remaining - 1),
            }
        }
    }

    /// The bucket after a response with these headers: each header that is
    /// there replaces the bucket's number.
    pub open spec fn updated(self, headers: RateLimitHeaders) -> RateLimit {
        RateLimit {
            reset: match headers.reset {
                Some(reset) => reset,
                None => self.reset,
            },
            limit: match headers.limit {
                Some(limit) => limit,
                None => self.limit,
            },
            remaining: match headers.remaining {
                Some(remaining) => remaining,
                None => self.remaining,
            },
        }
    }

    /// The bucket after each of `responses` in turn.
    pub open spec fn updated_by_all(self, responses: Seq<ResponseInfo>) -> RateLimit
        decreases responses.len(),
    {
        if responses.len() == 0 {
            self
        } else {
            self.updated_by_all(responses.drop_last()).updated(responses.last().headers)
        }
    }

    /// Accounts for a request at second `now` and returns the milliseconds
    /// that it has to wait first.
    pub fn pre_check(&mut self, now: i64) -> (delay_ms: u64)
        ensures
            *final(self) == old(self).checked_at(now),
            delay_ms == old(self).delay_at(now),
    {
        if self.limit == 0 {
            return 0;
        }
        let difference: i128 = self.reset as i128 - now as i128;
        if difference < 0 {
            self.reset = if self.reset > isize::MAX - GRACE_SECONDS {
                isize::MAX
            } else {
                self.reset + GRACE_SECONDS
            };
            self.remaining = self.limit;
            return 0;
        }
        let mut delay_ms: u64 = 0;
        if self.remaining <= 0 {
            let wait: i128 = difference * 1000 + RESET_BUFFER_MS as i128;
            delay_ms = if wait > u64::MAX as i128 {
                u64::MAX
            } else {
                wait as u64
            };
        }
        self.remaining = if self.remaining == isize::MIN {
            isize::MIN
        } else {
            self.remaining - 1
        };
        delay_ms
    }

    /// Takes over the rate-limit headers of a response and says whether the
    /// request has to be made again.
    pub fn check_for_ratelimit(&mut self, response: &ResponseInfo) -> (r: Result<
        Backoff,
        RateLimitError,
    >)
        ensures
            *final(self) == old(self).updated(response.headers),
            r == backoff_for(*response),
    {
        if let Some(reset) = response.headers.reset {
            self.reset = reset;
        }
        if let Some(limit) = response.headers.limit {
            self.limit = limit;
        }
        if let Some(remaining) = response.headers.remaining {
            self.remaining = remaining;
        }
        if response.status == TOO_MANY_REQUESTS {
            match response.headers.retry_after {
                Some(seconds) => {
                    let wait: u128 = seconds as u128 * 1000 + RETRY_BUFFER_MS as u128;
                    let delay_ms: u64 = if wait > u64::MAX as u128 {
                        u64::MAX
                    } else {
                        wait as u64
                    };
                    Ok(Backoff::RetryAfter(delay_ms))
                },
                None => Err(RateLimitError::MissingRetryAfter),
            }
        } else {
            Ok(Backoff::Proceed)
        }
    }
}

/// A bucket that has run dry makes the next request wait for its reset:
/// whatever responses filled the bucket, where it is then in use and empty
/// and its reset is not past, `pre_check` returns a delay that ends no
/// earlier than the reset (or the longest delay there is).
pub proof fn lemma_empty_bucket_waits_for_reset(
    start: RateLimit,
    responses: Seq<ResponseInfo>,
    now: i64,
)
    requires
        start.updated_by_all(responses).limit != 0,
        start.updated_by_all(responses).remaining <= 0,
        now <= start.updated_by_all(responses).reset,
    ensures
        ({
            let bucket = start.updated_by_all(responses);
            bucket.delay_at(now) == u64::MAX || now * 1000 + bucket.delay_at(now) >= bucket.reset
                * 1000
        }),
{
}

/// A bucket that has seen no response never throttles.
pub proof fn lemma_fresh_bucket_never_waits(now: i64)
    ensures
        RateLimit::fresh().delay_at(now) == 0,
        RateLimit::fresh().checked_at(now) == RateLimit::fresh(),
{
}


/// The bucket of one route.
#[derive(Debug)]
struct Route {
    url: String,
    bucket: RateLimit,
}

/// The limiter of one REST client: the bucket of the whole account and the
/// bucket of each route that has answered so far.
#[derive(Debug)]
pub struct RateLimits {
    global: RateLimit,
    endpoints: Vec<Route>,
}

/// What a limiter holds: the global bucket and the buckets by route.
pub struct RateLimitsView {
    pub global: RateLimit,
    pub routes: Map<Seq<char>, RateLimit>,
}

impl RateLimitsView {
    /// The bucket of `url`, or a fresh one where the route has none yet.
    pub open spec fn route(self, url: Seq<char>) -> RateLimit {
        if self.routes.contains_key(url) {
            self.routes[url]
        } else {
            RateLimit::fresh()
        }
    }

    /// The milliseconds that a request to `url` at second `now` has to
    /// wait: the longer of the global bucket's wait and the route's.
    pub open spec fn delay_at(self, url: Seq<char>, now: i64) -> u64 {
        let global = self.global.delay_at(now);
        let route = self.route(url).delay_at(now);
        if global >= route {
            global
        } else {
            route
        }
    }

    /// The limiter after a request to `url` at second `now` was let
    /// through: the global bucket and, where there is one, the route's
    /// bucket have accounted for it.
    pub open spec fn checked_at(self, url: Seq<char>, now: i64) -> RateLimitsView {
        RateLimitsView {
            global: self.global.checked_at(now),
            routes: if self.routes.contains_key(url) {
                self.routes.insert(url, self.routes[url].checked_at(now))
            } else {
                self.routes
            },
        }
    }

    /// The limiter after a response from `url`: its headers go to the
    /// global bucket where they say so, else to the route's bucket, which
    /// is made where there was none.
    pub open spec fn updated(self, url: Seq<char>, headers: RateLimitHeaders) -> RateLimitsView {
        if headers.global {
            RateLimitsView { global: self.global.updated(headers), routes: self.routes }
        } else {
            RateLimitsView {
                global: self.global,
                routes: self.routes.insert(url, self.route(url).updated(headers)),
            }
        }
    }

    /// The limiter after each of `responses` from `url` in turn.
    pub open spec fn updated_by_all(
        self,
        url: Seq<char>,
        responses: Seq<ResponseInfo>,
    ) -> RateLimitsView
        decreases responses.len(),
    {
        if responses.len() == 0 {
            self
        } else {
            self.updated_by_all(url, responses.drop_last()).updated(url, responses.last().headers)
        }
    }
}

/// Whether `url` is the route of entry `i`.
spec fn is_at(endpoints: Seq<Route>, url: Seq<char>, i: int) -> bool {
    0 <= i < endpoints.len() && endpoints[i].url@ == url
}

/// Whether entry `i` is the first entry of `url`.
spec fn is_first(endpoints: Seq<Route>, url: Seq<char>, i: int) -> bool {
    is_at(endpoints, url, i) && forall|k: int| 0 <= k < i ==> !is_at(endpoints, url, k)
}

/// The buckets of a list of routes, by route. Where a route occurs twice,
/// its first entry counts.
spec fn routes_of(endpoints: Seq<Route>) -> Map<Seq<char>, RateLimit>
    decreases endpoints.len(),
{
    if endpoints.len() == 0 {
        Map::empty()
    } else {
        let earlier = routes_of(endpoints.drop_last());
        if earlier.contains_key(endpoints.last().url@) {
            earlier
        } else {
            earlier.insert(endpoints.last().url@, endpoints.last().bucket)
        }
    }
}

/// The routes of a list are the routes of its entries.
proof fn lemma_routes_domain(endpoints: Seq<Route>, url: Seq<char>)
    ensures
        routes_of(endpoints).contains_key(url) <==> exists|i: int| is_at(endpoints, url, i),
    decreases endpoints.len(),
{
    if endpoints.len() > 0 {
        let earlier = endpoints.drop_last();
        let n = endpoints.len() - 1;
        lemma_routes_domain(earlier, url);
        lemma_routes_domain(earlier, endpoints.last().url@);
        if routes_of(endpoints).contains_key(url) {
            if routes_of(earlier).contains_key(url) {
                let i = choose|i: int| is_at(earlier, url, i);
                assert(is_at(endpoints, url, i));
            } else {
                assert(is_at(endpoints, url, n));
            }
        }
        if exists|i: int| is_at(endpoints, url, i) {
            let i = choose|i: int| is_at(endpoints, url, i);
            if i < n {
                assert(is_at(earlier, url, i));
            }
        }
    }
}

/// The first entry of a route holds the route's bucket.
proof fn lemma_first_entry(endpoints: Seq<Route>, url: Seq<char>, i: int)
    requires
        is_first(endpoints, url, i),
    ensures
        routes_of(endpoints).contains_key(url),
        routes_of(endpoints)[url] == endpoints[i].bucket,
    decreases endpoints.len(),
{
    let earlier = endpoints.drop_last();
    let n = endpoints.len() - 1;
    lemma_routes_domain(earlier, url);
    if i == n {
        assert forall|k: int| !is_at(earlier, url, k) by {
            if is_at(earlier, url, k) {
                assert(is_at(endpoints, url, k));
            }
        }
    } else {
        assert(is_first(earlier, url, i)) by {
            assert(is_at(earlier, url, i));
            assert forall|k: int| 0 <= k < i implies !is_at(earlier, url, k) by {
                if is_at(earlier, url, k) {
                    assert(is_at(endpoints, url, k));
                }
            }
        }
        lemma_first_entry(earlier, url, i);
    }
}

/// Lists with the same routes and buckets, entry by entry, hold the same.
proof fn lemma_same_entries(a: Seq<Route>, b: Seq<Route>)
    requires
        a.len() == b.len(),
        forall|k: int|
            0 <= k < a.len() ==> (#[trigger] a[k]).url@ == b[k].url@ && a[k].bucket == b[k].bucket,
    ensures
        routes_of(a) =~= routes_of(b),
    decreases a.len(),
{
    if a.len() > 0 {
        let n = a.len() - 1;
        assert forall|k: int| 0 <= k < n implies (#[trigger] a.drop_last()[k]).url@
            == b.drop_last()[k].url@ && a.drop_last()[k].bucket == b.drop_last()[k].bucket by {
            assert(a[k].url@ == b[k].url@);
        }
        lemma_same_entries(a.drop_last(), b.drop_last());
        assert(a[n].url@ == b[n].url@);
    }
}

/// Putting another bucket into the first entry of a route changes that
/// route's bucket and no other.
proof fn lemma_replace_first(endpoints: Seq<Route>, url: Seq<char>, i: int, after: Seq<Route>)
    requires
        is_first(endpoints, url, i),
        after.len() == endpoints.len(),
        forall|k: int| 0 <= k < after.len() ==> (#[trigger] after[k]).url@ == endpoints[k].url@,
        forall|k: int|
            0 <= k < after.len() && k != i ==> (#[trigger] after[k]).bucket == endpoints[k].bucket,
    ensures
        routes_of(after) =~= routes_of(endpoints).insert(url, after[i].bucket),
    decreases endpoints.len(),
{
    let earlier = endpoints.drop_last();
    let earlier_after = after.drop_last();
    let n = endpoints.len() - 1;
    lemma_routes_domain(earlier, url);
    lemma_routes_domain(earlier, endpoints.last().url@);
    lemma_routes_domain(earlier_after, after.last().url@);
    if i == n {
        assert forall|k: int| 0 <= k < n implies (#[trigger] earlier_after[k]).url@
            == earlier[k].url@ && earlier_after[k].bucket == earlier[k].bucket by {
            assert(after[k].url@ == endpoints[k].url@);
            assert(after[k].bucket == endpoints[k].bucket);
        }
        lemma_same_entries(earlier_after, earlier);
        assert forall|k: int| !is_at(earlier, url, k) by {
            if is_at(earlier, url, k) {
                assert(is_at(endpoints, url, k));
            }
        }
    } else {
        assert(is_first(earlier, url, i)) by {
            assert(is_at(earlier, url, i));
            assert forall|k: int| 0 <= k < i implies !is_at(earlier, url, k) by {
                if is_at(earlier, url, k) {
                    assert(is_at(endpoints, url, k));
                }
            }
        }
        assert forall|k: int| 0 <= k < earlier_after.len() implies (
        #[trigger] earlier_after[k]).url@ == earlier[k].url@ by {
            assert(after[k].url@ == endpoints[k].url@);
        }
        assert forall|k: int| 0 <= k < earlier_after.len() && k != i implies (
        #[trigger] earlier_after[k]).bucket == earlier[k].bucket by {
            assert(after[k].bucket == endpoints[k].bucket);
        }
        lemma_replace_first(earlier, url, i, earlier_after);
        assert(after[n].url@ == endpoints[n].url@);
        assert(after[n].bucket == endpoints[n].bucket);
        assert(earlier_after[i] == after[i]);
        assert(is_at(earlier, url, i));
    }
}

impl View for RateLimits {
    type V = RateLimitsView;

    closed spec fn view(&self) -> RateLimitsView {
        RateLimitsView { global: self.global, routes: routes_of(self.endpoints@) }
    }
}

impl Default for RateLimits {
    fn default() -> (r: Self)
        ensures
            r@.global == RateLimit::fresh(),
            r@.routes == Map::<Seq<char>, RateLimit>::empty(),
    {
        RateLimits { global: RateLimit::default(), endpoints: Vec::new() }
    }
}

/// Whether a limiter went from `before` to `after`, and asked for
/// `delay_ms`, by accounting for a request to `url` at second `now`.
pub open spec fn pre_checked_at(
    before: RateLimitsView,
    after: RateLimitsView,
    delay_ms: u64,
    url: Seq<char>,
    now: i64,
) -> bool {
    after == before.checked_at(url, now) && delay_ms == before.delay_at(url, now)
}

impl RateLimits {
    /// Where the first bucket of `url` stands in the list.
    fn find(&self, url: &str) -> (r: Option<usize>)
        ensures
            r is Some == self@.routes.contains_key(url@),
            r matches Some(i) ==> is_first(self.endpoints@, url@, i as int),
    {
        let mut i: usize = 0;
        while i < self.endpoints.len()
            invariant
                i <= self.endpoints.len(),
                forall|k: int| 0 <= k < i ==> !is_at(self.endpoints@, url@, k),
            decreases self.endpoints.len() - i,
        {
            if text_eq(self.endpoints[i].url.as_str(), url) {
                proof {
                    assert(is_at(self.endpoints@, url@, i as int));
                    lemma_routes_domain(self.endpoints@, url@);
                }
                return Some(i);
            }
            i += 1;
        }
        proof {
            lemma_routes_domain(self.endpoints@, url@);
        }
        None
    }

    /// Puts `bucket` in the place of the bucket of entry `i`.
    fn replace(&mut self, i: usize, url: &str, bucket: RateLimit)
        requires
            is_first(old(self).endpoints@, url@, i as int),
        ensures
            final(self).global == old(self).global,
            final(self)@.routes == old(self)@.routes.insert(url@, bucket),
    {
        let ghost before = self.endpoints@;
        self.endpoints[i].bucket = bucket;
        proof {
            lemma_replace_first(before, url@, i as int, self.endpoints@);
        }
    }

    /// Accounts for a request to `url` at second `now`, in the global
    /// bucket and in the route's, and returns the milliseconds that the
    /// request has to wait first.
    pub fn pre_check_at(&mut self, url: &str, now: i64) -> (delay_ms: u64)
        ensures
            pre_checked_at(old(self)@, final(self)@, delay_ms, url@, now),
    {
        let global_delay = self.global.pre_check(now);
        let mut route_delay: u64 = 0;
        match self.find(url) {
            Some(i) => {
                proof {
                    lemma_first_entry(self.endpoints@, url@, i as int);
                }
                let mut bucket = self.endpoints[i].bucket;
                route_delay = bucket.pre_check(now);
                self.replace(i, url, bucket);
            },
            None => {},
        }
        if global_delay >= route_delay {
            global_delay
        } else {
            route_delay
        }
    }

    /// Accounts for a request to `url` at the second that the clock shows,
    /// and returns the milliseconds that the request has to wait first.
    pub fn pre_check(&mut self, url: &str) -> (delay_ms: u64)
        ensures
            exists|now: i64| #[trigger]
                pre_checked_at(old(self)@, final(self)@, delay_ms, url@, now),
    {
        let now = unix_seconds();
        self.pre_check_at(url, now)
    }

    /// Takes over the rate-limit headers of a response from `url`, in the
    /// global bucket where the headers say so and in the route's bucket
    /// otherwise, and says whether the request has to be made again.
    pub fn check_for_ratelimit(&mut self, url: &str, response: &ResponseInfo) -> (r: Result<
        Backoff,
        RateLimitError,
    >)
        ensures
            final(self)@ == old(self)@.updated(url@, response.headers),
            r == backoff_for(*response),
    {
        if response.headers.global {
            self.global.check_for_ratelimit(response)
        } else {
            match self.find(url) {
                Some(i) => {
                    proof {
                        lemma_first_entry(self.endpoints@, url@, i as int);
                    }
                    let mut bucket = self.endpoints[i].bucket;
                    let r = bucket.check_for_ratelimit(response);
                    self.replace(i, url, bucket);
                    r
                },
                None => {
                    let mut bucket = RateLimit::default();
                    let r = bucket.check_for_ratelimit(response);
                    let ghost before = self.endpoints@;
                    self.endpoints.push(Route { url: url.to_owned(), bucket });
                    assert(self.endpoints@.drop_last() =~= before);
                    r
                },
            }
        }
    }
}

/// A route whose bucket has run dry makes the next request wait for the
/// bucket's reset: whatever responses the route gave, where its bucket is
/// then in use and empty and its reset is not past, the delay that
/// `pre_check` returns ends no earlier than the reset (or is the longest
/// delay there is).
pub proof fn lemma_empty_route_waits_for_reset(
    start: RateLimitsView,
    url: Seq<char>,
    responses: Seq<ResponseInfo>,
    now: i64,
)
    requires
        start.updated_by_all(url, responses).route(url).limit != 0,
        start.updated_by_all(url, responses).route(url).remaining <= 0,
        now <= start.updated_by_all(url, responses).route(url).reset,
    ensures
        ({
            let limits = start.updated_by_all(url, responses);
            let delay_ms = limits.delay_at(url, now);
            delay_ms == u64::MAX || now * 1000 + delay_ms >= limits.route(url).reset * 1000
        }),
{
}

/// A route that has given no response never waits on its own account: the
/// delay is the global bucket's.
pub proof fn lemma_unknown_route_never_waits(limits: RateLimitsView, url: Seq<char>, now: i64)
    requires
        !limits.routes.contains_key(url),
    ensures
        limits.delay_at(url, now) == limits.global.delay_at(now),
        limits.checked_at(url, now).routes == limits.routes,
{
}

} // verus!

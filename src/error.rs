use vstd::prelude::*;
use crate::rate_limiter::RateLimitError;
use crate::types::RateLimitErrorResponse;

verus! {

/// HTTP status of a server-side failure.
pub const STATUS_INTERNAL_SERVER_ERROR: u16 = 500;

/// HTTP status of a throttled request.
pub const STATUS_TOO_MANY_REQUESTS: u16 = 429;

/// The errors an endpoint can end with.
#[derive(Debug)]
pub enum ApiError {
    Filesystem(String),
    Charcoal(String),
    Github(String),
    Ai(String),
    RateLimit(RateLimitError),
}

impl From<RateLimitError> for ApiError {
    fn from(e: RateLimitError) -> (r: Self) {
        ApiError::RateLimit(e)
    }
}

impl vstd::std_specs::convert::FromSpecImpl<RateLimitError> for ApiError {
    open spec fn obeys_from_spec() -> bool {
        true
    }

    open spec fn from_spec(e: RateLimitError) -> Self {
        ApiError::RateLimit(e)
    }
}

/// Seconds from `now` until `reset_time`: zero once it has passed, and at most
/// the largest `u64`.
pub open spec fn retry_after(reset_time: i64, now: i64) -> u64 {
    if reset_time <= now {
        0
    } else if reset_time - now > u64::MAX {
        u64::MAX
    } else {
        (reset_time - now) as u64
    }
}

/// The body of the "too many requests" response for a rejection with quota
/// `limit` whose window ends at `reset_time`, built at time `now`.
pub fn rate_limit_response(limit: u32, reset_time: i64, now: i64) -> (r: RateLimitErrorResponse)
    ensures
        r.error@ == "Rate limit exceeded"@,
        r.requests_limit == limit,
        r.reset_time == reset_time,
        r.retry_after_seconds == retry_after(reset_time, now),
{
    let diff: i128 = reset_time as i128 - now as i128;
    let retry: u64 = if diff <= 0 {
        0
    } else if diff > u64::MAX as i128 {
        u64::MAX
    } else {
        diff as u64
    };
    RateLimitErrorResponse {
        error: String::from_str("Rate limit exceeded"),
        requests_limit: limit,
        reset_time,
        retry_after_seconds: retry,
    }
}

impl ApiError {
    /// The HTTP status the error is answered with: 429 for a rejection by the
    /// rate limiter, 500 for the others.
    pub fn status_code(&self) -> (r: u16)
        ensures
            r == (if self is RateLimit {
                STATUS_TOO_MANY_REQUESTS
            } else {
                STATUS_INTERNAL_SERVER_ERROR
            }),
    {
        match self {
            ApiError::RateLimit(_) => STATUS_TOO_MANY_REQUESTS,
            _ => STATUS_INTERNAL_SERVER_ERROR,
        }
    }

    /// How the error is answered at time `now`: a rejection by the rate limiter
    /// gets the body of a "too many requests" response, every other error a bare
    /// internal server error status.
    pub fn respond_to(&self, now: i64) -> (r: Result<RateLimitErrorResponse, u16>)
        ensures
            match *self {
                ApiError::RateLimit(RateLimitError::LimitExceeded { limit, reset_time }) => {
                    &&& r is Ok
                    &&& r->Ok_0.error@ == "Rate limit exceeded"@
                    &&& r->Ok_0.requests_limit == limit
                    &&& r->Ok_0.reset_time == reset_time
                    &&& r->Ok_0.retry_after_seconds == retry_after(reset_time, now)
                },
                _ => r == Err::<RateLimitErrorResponse, u16>(STATUS_INTERNAL_SERVER_ERROR),
            },
    {
        match self {
            ApiError::RateLimit(RateLimitError::LimitExceeded { limit, reset_time }) => Ok(
                rate_limit_response(*limit, *reset_time, now),
            ),
            _ => Err(STATUS_INTERNAL_SERVER_ERROR),
        }
    }
}

} // verus!

//! The shared access-token cache.
//!
//! The cache itself is a plain value; callers keep it behind a reader-writer
//! lock. A caller first takes the read lock and asks [`TokenCache::check`];
//! on a miss it takes the write lock, asks again (another caller may have
//! refreshed meanwhile), and only if that still misses fetches a token and
//! hands the outcome to [`TokenCache::complete_refresh`]. Clock readings are
//! milliseconds of a monotonic clock.

use vstd::prelude::*;

use crate::authentication::{Token, TokenResponse};
use crate::error::Error;

verus! {

/// Seconds before the server-reported expiry from which a token is no longer
/// handed out.
pub const SAFETY_MARGIN_SECS: u64 = 60;

/// The cached token of one client.
#[derive(Debug, Clone)]
pub enum TokenCache {
    /// A fixed bearer value that never expires and is never refreshed.
    Static(String),
    /// A token fetched from the token endpoint, if one has been fetched.
    Fetched(Option<Token>),
}

/// The clock reading from which a token fetched at `now` with a lifetime of
/// `expires_in` seconds is no longer handed out: the lifetime less the safety
/// margin (not below zero) after `now`, saturating at the largest reading.
pub open spec fn usable_until(now: int, expires_in: int) -> int {
    let usable_secs = if expires_in > SAFETY_MARGIN_SECS { expires_in - SAFETY_MARGIN_SECS } else { 0 };
    let end = now + usable_secs * 1000;
    if end > i64::MAX { i64::MAX as int } else { end }
}

impl TokenCache {
    /// The bearer value that may be handed out at clock reading `now`, if any.
    pub open spec fn valid_value(self, now: int) -> Option<Seq<char>> {
        match self {
            TokenCache::Static(v) => Some(v@),
            TokenCache::Fetched(Some(t)) => if now < t.expires_at { Some(t.access_token@) } else { None },
            TokenCache::Fetched(None) => None,
        }
    }

    /// The cache after a successful fetch at `now` that returned `resp`.
    pub open spec fn refreshed(self, resp: TokenResponse, now: int) -> TokenCache {
        match self {
            TokenCache::Static(_) => self,
            TokenCache::Fetched(_) => TokenCache::Fetched(
                Some(Token { access_token: resp.access_token, expires_at: usable_until(now, resp.expires_in as int) as i64 }),
            ),
        }
    }

    /// A cache that holds no token yet.
    pub fn new() -> (r: TokenCache)
        ensures
            r == TokenCache::Fetched(None),
    {
        TokenCache::Fetched(None)
    }

    /// A cache that always hands out `token`.
    pub fn with_static_token(token: String) -> (r: TokenCache)
        ensures
            r == TokenCache::Static(token),
    {
        TokenCache::Static(token)
    }

    /// The bearer value to hand out at clock reading `now`, or `None` when a
    /// refresh is due.
    pub fn check(&self, now: i64) -> (r: Option<String>)
        ensures
            match r {
                Some(v) => self.valid_value(now as int) == Some(v@),
                None => self.valid_value(now as int) is None,
            },
    {
        match self {
            TokenCache::Static(v) => Some(v.clone()),
            TokenCache::Fetched(Some(t)) => {
                if now < t.expires_at {
                    Some(t.access_token.clone())
                } else {
                    None
                }
            },
            TokenCache::Fetched(None) => None,
        }
    }

    /// Records the outcome of a token fetch made at clock reading `now`.
    ///
    /// On success the fetched token replaces the cached one and its value is
    /// returned. On failure the error is returned and the cache is left as it
    /// was, a stale token included. A static cache is never replaced.
    pub fn complete_refresh(&mut self, outcome: Result<TokenResponse, Error>, now: i64) -> (r: Result<String, Error>)
        ensures
            match outcome {
                Ok(resp) => {
                    &&& *final(self) == old(self).refreshed(resp, now as int)
                    &&& r is Ok
                    &&& r->Ok_0@ == match *old(self) {
                        TokenCache::Static(v) => v@,
                        TokenCache::Fetched(_) => resp.access_token@,
                    }
                },
                Err(e) => *final(self) == *old(self) && r == Err::<String, Error>(e),
            },
    {
        match outcome {
            Err(e) => Err(e),
            Ok(resp) => {
                match self {
                    TokenCache::Static(v) => Ok(v.clone()),
                    TokenCache::Fetched(_) => {
                        let usable_secs: u64 = if resp.expires_in > SAFETY_MARGIN_SECS {
                            resp.expires_in - SAFETY_MARGIN_SECS
                        } else {
                            0
                        };
                        let end: i128 = now as i128 + usable_secs as i128 * 1000;
                        let expires_at: i64 = if end > i64::MAX as i128 { i64::MAX } else { end as i64 };
                        let value = resp.access_token.clone();
                        *self = TokenCache::Fetched(Some(Token { access_token: resp.access_token, expires_at }));
                        Ok(value)
                    },
                }
            },
        }
    }
}

/// How many token fetches a sequence of callers makes when each, in turn and
/// holding the write lock, checks the cache at its clock reading in `times`
/// and fetches only on a miss, every fetch answering `resp`.
pub open spec fn fetch_count(c: TokenCache, times: Seq<i64>, resp: TokenResponse) -> nat
    decreases times.len(),
{
    if times.len() == 0 {
        0
    } else if c.valid_value(times[0] as int) is Some {
        fetch_count(c, times.drop_first(), resp)
    } else {
        1 + fetch_count(c.refreshed(resp, times[0] as int), times.drop_first(), resp)
    }
}

proof fn lemma_no_fetch_while_valid(c: TokenCache, times: Seq<i64>, resp: TokenResponse)
    requires
        forall|i: int| 0 <= i < times.len() ==> (#[trigger] c.valid_value(times[i] as int)) is Some,
    ensures
        fetch_count(c, times, resp) == 0,
    decreases times.len(),
{
    if times.len() > 0 {
        assert(c.valid_value(times[0] as int) is Some);
        assert forall|i: int| 0 <= i < times.drop_first().len() implies (#[trigger] c.valid_value(
            times.drop_first()[i] as int,
        )) is Some by {
            assert(times.drop_first()[i] == times[i + 1]);
            assert(c.valid_value(times[i + 1] as int) is Some);
        }
        lemma_no_fetch_while_valid(c, times.drop_first(), resp);
    }
}

/// When no valid token is cached, callers that are served one after the
/// other under the write lock make exactly one fetch between them, provided
/// they are all served before the fetched token's usable window ends: every
/// caller after the first finds the fresh token on its second check.
pub proof fn lemma_single_fetch_for_concurrent_callers(c: TokenCache, times: Seq<i64>, resp: TokenResponse)
    requires
        times.len() > 0,
        c.valid_value(times[0] as int) is None,
        forall|i: int|
            0 <= i < times.len() ==> (#[trigger] times[i] as int) < usable_until(
                times[0] as int,
                resp.expires_in as int,
            ),
    ensures
        fetch_count(c, times, resp) == 1,
{
    let c1 = c.refreshed(resp, times[0] as int);
    assert(c is Fetched);
    let rest = times.drop_first();
    assert forall|i: int| 0 <= i < rest.len() implies (#[trigger] c1.valid_value(rest[i] as int)) is Some by {
        assert(rest[i] == times[i + 1]);
        assert((times[i + 1] as int) < usable_until(times[0] as int, resp.expires_in as int));
    }
    lemma_no_fetch_while_valid(c1, rest, resp);
}

/// A token handed out after a refresh at `fetched_at` has, at the moment it
/// is handed out, more than the safety margin left of the lifetime that the
/// server reported for it.
pub proof fn lemma_handed_out_token_keeps_margin(c: TokenCache, resp: TokenResponse, fetched_at: i64, now: i64)
    requires
        c is Fetched,
        fetched_at <= now,
        c.refreshed(resp, fetched_at as int).valid_value(now as int) is Some,
    ensures
        c.refreshed(resp, fetched_at as int).valid_value(now as int) == Some(resp.access_token@),
        fetched_at + resp.expires_in * 1000 - now > SAFETY_MARGIN_SECS * 1000,
{
}

} // verus!

//! A counter of requests that locks the sensitive endpoints for a while once
//! too many requests came in too short a time.

use crate::utils::time_utils::current_timestamp;
use vstd::prelude::*;

verus! {

/// Counts requests and locks once `max_requests` came within
/// `max_requests_time` seconds, for `block_duration` seconds.
pub struct BasicRateLimiter {
    counter: u32,
    last_update: i64,
    is_limited: bool,
    max_requests: u32,
    max_requests_time: u32,
    block_duration: u32,
}

/// A rate limiter as contracts see it.
pub struct RateLimit {
    pub counter: int,
    pub last_update: int,
    pub is_limited: bool,
    pub max_requests: int,
    pub max_requests_time: int,
    pub block_duration: int,
}

/// A limiter that was made at the moment `now`.
pub open spec fn fresh_limit(
    max_requests: u32,
    max_requests_time: u32,
    block_duration: u32,
    now: int,
) -> RateLimit {
    RateLimit {
        counter: 0,
        last_update: now,
        is_limited: false,
        max_requests: max_requests as int,
        max_requests_time: max_requests_time as int,
        block_duration: block_duration as int,
    }
}

/// Whether the period that `limit` is in has run out at the moment `now`: the
/// block where it is locked, the counting window where it is not.
pub open spec fn expired_at(limit: RateLimit, now: int) -> bool {
    if limit.is_limited {
        now - limit.last_update >= limit.block_duration
    } else {
        now - limit.last_update >= limit.max_requests_time
    }
}

/// `limit` after a request at the moment `now`. A period that has run out
/// starts anew, unlocked, and the request is not counted. Else the request
/// is counted, and the limiter locks, from `now` on, once the count has
/// reached `max_requests`.
pub open spec fn after_update(limit: RateLimit, now: int) -> RateLimit {
    if expired_at(limit, now) {
        RateLimit { counter: 0, last_update: now, is_limited: false, ..limit }
    } else if limit.counter + 1 >= limit.max_requests {
        RateLimit { counter: limit.counter + 1, last_update: now, is_limited: true, ..limit }
    } else {
        RateLimit { counter: limit.counter + 1, ..limit }
    }
}

impl View for BasicRateLimiter {
    type V = RateLimit;

    closed spec fn view(&self) -> RateLimit {
        RateLimit {
            counter: self.counter as int,
            last_update: self.last_update as int,
            is_limited: self.is_limited,
            max_requests: self.max_requests as int,
            max_requests_time: self.max_requests_time as int,
            block_duration: self.block_duration as int,
        }
    }
}

impl BasicRateLimiter {
    /// A limiter made at the moment `now`, unlocked and with nothing counted.
    pub fn new_at(max_requests: u32, max_requests_time: u32, block_duration: u32, now: i64) -> (limiter:
        Self)
        ensures
            limiter@ == fresh_limit(max_requests, max_requests_time, block_duration, now as int),
    {
        Self {
            counter: 0,
            last_update: now,
            is_limited: false,
            max_requests,
            max_requests_time,
            block_duration,
        }
    }

    /// A limiter made now, by this machine's clock.
    pub fn new(max_requests: u32, max_requests_time: u32, block_duration: u32) -> (limiter: Self)
        ensures
            exists|now: i64|
                limiter@ == fresh_limit(
                    max_requests,
                    max_requests_time,
                    block_duration,
                    now as int,
                ),
    {
        Self::new_at(max_requests, max_requests_time, block_duration, current_timestamp())
    }

    /// Whether the limiter is locked.
    pub fn is_locked(&self) -> (locked: bool)
        ensures
            locked == self@.is_limited,
    {
        self.is_limited
    }

    /// Number of requests counted in the present period.
    pub fn counter(&self) -> (counter: u32)
        ensures
            counter == self@.counter,
    {
        self.counter
    }

    /// Whether the present period has run out at the moment `now`.
    pub fn is_expired_at(&self, now: i64) -> (expired: bool)
        ensures
            expired == expired_at(self@, now as int),
    {
        let elapsed: i128 = now as i128 - self.last_update as i128;
        if self.is_locked() {
            elapsed >= self.block_duration as i128
        } else {
            elapsed >= self.max_requests_time as i128
        }
    }

    /// Whether the present period has run out now, by this machine's clock.
    pub fn is_expired(&self) -> (expired: bool)
        ensures
            exists|now: i64| expired == expired_at(self@, now as int),
    {
        self.is_expired_at(current_timestamp())
    }

    /// Takes a request at the moment `now` into account and says whether the
    /// limiter is locked after it.
    pub fn update_at(&mut self, now: i64) -> (locked: bool)
        requires
            old(self)@.counter < u32::MAX,
        ensures
            final(self)@ == after_update(old(self)@, now as int),
            locked == final(self)@.is_limited,
    {
        if self.is_expired_at(now) {
            self.counter = 0;
            self.last_update = now;
            self.is_limited = false;
        } else {
            self.counter += 1;
            if self.counter >= self.max_requests {
                self.is_limited = true;
                self.last_update = now;
            }
        }
        self.is_limited
    }

    /// Takes a request into account that comes now, by this machine's clock,
    /// and says whether the limiter is locked after it.
    pub fn update(&mut self) -> (locked: bool)
        requires
            old(self)@.counter < u32::MAX,
        ensures
            exists|now: i64| final(self)@ == after_update(old(self)@, now as int),
            locked == final(self)@.is_limited,
    {
        self.update_at(current_timestamp())
    }
}

/// Whether a caller has to update the limiter before it goes by its answer:
/// always while it is unlocked, and once the block has run out.
pub open spec fn needs_update(limit: RateLimit, now: int) -> bool {
    !limit.is_limited || expired_at(limit, now)
}

/// Whether the limiter has to be updated at the moment `now`, and whether it
/// is locked as it stands.
pub fn rate_limiter_needs_update(limiter: &BasicRateLimiter, now: i64) -> (answer: (bool, bool))
    ensures
        answer.0 == needs_update(limiter@, now as int),
        answer.1 == limiter@.is_limited,
{
    (
        !limiter.is_locked() || (limiter.is_locked() && limiter.is_expired_at(now)),
        limiter.is_locked(),
    )
}

/// The limiter after a request was checked against it at the moment `now`:
/// it is updated where it has to be, and left alone while a block runs.
pub open spec fn after_check(limit: RateLimit, now: int) -> RateLimit {
    if needs_update(limit, now) {
        after_update(limit, now)
    } else {
        limit
    }
}

/// Checks a request that comes at the moment `now` against the limiter and
/// says whether the request is refused. While a block runs nothing is
/// counted.
pub fn check_rate_limit_at(limiter: &mut BasicRateLimiter, now: i64) -> (refused: bool)
    requires
        old(limiter)@.counter < u32::MAX,
    ensures
        final(limiter)@ == after_check(old(limiter)@, now as int),
        refused == final(limiter)@.is_limited,
{
    let answer = rate_limiter_needs_update(limiter, now);
    if answer.0 {
        limiter.update_at(now)
    } else {
        answer.1
    }
}

} // verus!

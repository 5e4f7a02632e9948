//! Limiting how often one address may ask within a span of time.

use vstd::hash_map::StringHashMap;
use vstd::prelude::*;

verus! {

/// What is remembered of one address.
#[derive(Clone, Copy, Debug, PartialEq, Eq, Structural)]
pub struct RateLimitEntry {
    /// When the current window began, in milliseconds on the caller's clock.
    pub last_request: u64,
    /// How many requests the current window has seen.
    pub request_count: u32,
}

/// Counts requests by address and says when an address asks too often.
pub struct RateLimitService {
    limiters: StringHashMap<RateLimitEntry>,
    max_requests: u32,
    window_millis: u64,
}

/// What is remembered of an address after one more request at the time
/// `now`: a window that is over gives way to a new one that begins now,
/// and the request is counted.
pub open spec fn counted(entry: Option<RateLimitEntry>, now: u64, window_millis: u64) -> RateLimitEntry {
    let current = match entry {
        Some(e) => if now > e.last_request && now - e.last_request > window_millis {
            RateLimitEntry { last_request: now, request_count: 0 }
        } else {
            e
        },
        None => RateLimitEntry { last_request: now, request_count: 0 },
    };
    RateLimitEntry {
        last_request: current.last_request,
        request_count: if current.request_count < u32::MAX {
            (current.request_count + 1) as u32
        } else {
            u32::MAX
        },
    }
}

impl RateLimitService {
    /// What is remembered, by address.
    pub closed spec fn entries(&self) -> Map<Seq<char>, RateLimitEntry> {
        self.limiters@
    }

    /// How many requests a window admits.
    pub closed spec fn max_requests(&self) -> u32 {
        self.max_requests
    }

    /// How long a window lasts, in milliseconds.
    pub closed spec fn window_millis(&self) -> u64 {
        self.window_millis
    }

    /// A limiter that admits ten requests a minute and remembers nothing yet.
    pub fn new() -> (service: RateLimitService)
        ensures
            service.entries() == Map::<Seq<char>, RateLimitEntry>::empty(),
            service.max_requests() == 10,
            service.window_millis() == 60000,
    {
        RateLimitService { limiters: StringHashMap::new(), max_requests: 10, window_millis: 60000 }
    }

    /// Counts a request from the address `ip` at the time `now` and says
    /// whether it is within the limit.
    pub fn check(&mut self, ip: &str, now: u64) -> (allowed: bool)
        ensures
            final(self).max_requests() == old(self).max_requests(),
            final(self).window_millis() == old(self).window_millis(),
            final(self).entries() == old(self).entries().insert(
                ip@,
                counted(
                    if old(self).entries().contains_key(ip@) {
                        Some(old(self).entries()[ip@])
                    } else {
                        None
                    },
                    now,
                    old(self).window_millis(),
                ),
            ),
            allowed == (final(self).entries()[ip@].request_count <= old(self).max_requests()),
    {
        let mut entry = match self.limiters.get(ip) {
            Some(e) => *e,
            None => RateLimitEntry { last_request: now, request_count: 0 },
        };
        if now > entry.last_request && now - entry.last_request > self.window_millis {
            entry.request_count = 0;
            entry.last_request = now;
        }
        if entry.request_count < u32::MAX {
            entry.request_count = entry.request_count + 1;
        }
        self.limiters.insert(ip.to_string(), entry);
        entry.request_count <= self.max_requests
    }
}

} // verus!

//! The discovery cache's bookkeeping: freshness against a time-to-live, ages,
//! and the cache location. Reading and writing the cache file is the
//! surrounding program's concern; every decision about its content is here.

use vstd::prelude::*;
use vstd::string::StringExecFns;

use crate::discovery::TemplateInfo;
use crate::error::Error;
use crate::trusted::{now_unix, os_cache_dir};

verus! {

/// Seconds in one hour.
pub const SECONDS_PER_HOUR: i64 = 3600;

/// A cached template list with the moment it was written, in seconds since
/// the Unix epoch.
#[derive(Debug)]
pub struct CachedTemplates {
    /// When the cache was created, in seconds since the Unix epoch.
    pub last_updated: i64,
    /// The cached template list.
    pub templates: Vec<TemplateInfo>,
}

/// Whether a cache written at `last_updated` is still fresh at `now` under a
/// time-to-live in hours: strictly younger than the time-to-live.
pub open spec fn spec_is_fresh(last_updated: int, now: int, ttl_hours: int) -> bool {
    now - last_updated < ttl_hours * 3600
}

impl CachedTemplates {
    /// Caches a template list as of now.
    pub fn new(templates: Vec<TemplateInfo>) -> (r: CachedTemplates)
        ensures
            r.templates == templates,
    {
        CachedTemplates { last_updated: now_unix(), templates }
    }

    /// Whether this cache is still fresh at a given moment, under a
    /// time-to-live in hours.
    pub fn is_fresh_at(&self, now: i64, ttl_hours: i64) -> (r: bool)
        ensures
            r == spec_is_fresh(self.last_updated as int, now as int, ttl_hours as int),
    {
        let age: i128 = (now as i128) - (self.last_updated as i128);
        proof {
            assert((ttl_hours as i128) * (SECONDS_PER_HOUR as i128) <= i128::MAX && (
            ttl_hours as i128) * (SECONDS_PER_HOUR as i128) >= i128::MIN) by (nonlinear_arith)
                requires
                    i64::MIN <= ttl_hours <= i64::MAX,
            ;
        }
        age < (ttl_hours as i128) * (SECONDS_PER_HOUR as i128)
    }

    /// Whether this cache is still fresh now, under a time-to-live in hours;
    /// the moment is read from the system clock, so nothing more is promised
    /// than `is_fresh_at` gives for some moment.
    pub fn is_fresh(&self, ttl_hours: i64) -> bool {
        self.is_fresh_at(now_unix(), ttl_hours)
    }

    /// The cache's age in whole hours at a given moment, truncated toward
    /// zero.
    pub fn age_hours_at(&self, now: i64) -> (r: i64)
        ensures
            ({
                let diff = now as int - self.last_updated as int;
                if diff >= 0 {
                    r as int == diff / 3600
                } else {
                    r as int == 0 - ((0 - diff) / 3600)
                }
            }),
    {
        let diff: i128 = (now as i128) - (self.last_updated as i128);
        let negative = diff < 0;
        let magnitude: u128 = if negative {
            (0i128 - diff) as u128
        } else {
            diff as u128
        };
        let hours: u128 = magnitude / 3600;
        proof {
            assert(hours <= 0x1_0000_0000_0000_0000u128 / 3600) by (nonlinear_arith)
                requires
                    hours == magnitude / 3600,
                    magnitude <= 0x1_0000_0000_0000_0000u128,
            ;
        }
        if negative {
            0i64 - (hours as i64)
        } else {
            hours as i64
        }
    }

    /// The cache's age in whole hours, read against the system clock.
    pub fn age_hours(&self) -> i64 {
        self.age_hours_at(now_unix())
    }
}

/// Where and for how long discovery results are cached.
#[derive(Debug)]
pub struct Cache {
    /// The cache directory.
    pub cache_dir: String,
    /// The time-to-live of cached results, in hours.
    pub ttl_hours: i64,
}

impl Cache {
    /// Builds the cache bookkeeping from the platform's cache root, if there
    /// is one: the scaffolder's own directory under it, with the given
    /// time-to-live.
    pub fn from_cache_root(root: Option<String>, ttl_hours: i64) -> (r: Result<Cache, Error>)
        ensures
            ({
                match root {
                    Some(d) => r matches Ok(c) && c.cache_dir@ == d@ + "/x402"@ && c.ttl_hours
                        == ttl_hours,
                    None => r matches Err(e) && e@ == crate::error::ErrorV::CacheError(
                        "Cannot determine cache directory"@,
                    ),
                }
            }),
    {
        match root {
            Some(d) => Ok(Cache { cache_dir: d.concat("/x402"), ttl_hours }),
            None => Err(
                Error::CacheError(String::from_str("Cannot determine cache directory")),
            ),
        }
    }

    /// A cache under the platform's cache directory with the default
    /// time-to-live of one hour; fails when the platform reports none. The
    /// caller creates the directory.
    pub fn new() -> (r: Result<Cache, Error>)
        ensures
            r matches Ok(c) ==> c.ttl_hours == 1,
            r matches Err(e) ==> e@ == crate::error::ErrorV::CacheError(
                "Cannot determine cache directory"@,
            ),
    {
        Self::with_ttl(1)
    }

    /// A cache under the platform's cache directory with a custom
    /// time-to-live in hours; fails when the platform reports none.
    pub fn with_ttl(ttl_hours: i64) -> (r: Result<Cache, Error>)
        ensures
            r matches Ok(c) ==> c.ttl_hours == ttl_hours,
            r matches Err(e) ==> e@ == crate::error::ErrorV::CacheError(
                "Cannot determine cache directory"@,
            ),
    {
        Self::from_cache_root(os_cache_dir(), ttl_hours)
    }

    /// The cache's time-to-live, in hours.
    pub fn ttl(&self) -> (r: i64)
        ensures
            r == self.ttl_hours,
    {
        self.ttl_hours
    }

    /// The cache file's path: `templates.json` in the cache directory.
    pub fn cache_file_path(&self) -> (r: String)
        ensures
            r@ == self.cache_dir@ + "/templates.json"@,
    {
        self.cache_dir.clone().concat("/templates.json")
    }
}

impl Default for Cache {
    /// The platform cache with the default time-to-live, or a fixed fallback
    /// directory when the platform reports none.
    fn default() -> (r: Cache)
        ensures
            r.ttl_hours == 1,
    {
        match Cache::new() {
            Ok(c) => c,
            Err(_) => Cache {
                cache_dir: String::from_str("/tmp/x402-cache"),
                ttl_hours: 1,
            },
        }
    }
}

} // verus!

//! Freshness classes of the three endpoints: which cache-control
//! directives each response carries. The top-tracks snapshot is
//! quasi-static and cacheable for a day, the currently-playing response
//! must always be fresh, and recent plays may be cached briefly.

use vstd::prelude::*;

verus! {

/// The top-tracks snapshot may be cached for a day.
pub const TOP_TRACKS_MAX_AGE_SECS: u64 = 86400;

/// The recently-played response may be cached for three minutes.
pub const RECENT_MAX_AGE_SECS: u64 = 180;

/// The three read-only endpoints of the service.
#[derive(Clone, Copy, Debug, PartialEq, Eq, Structural)]
pub enum Endpoint {
    TopTracks,
    NowPlaying,
    RecentlyPlayed,
}

/// The cache-control directives attached to a response.
#[derive(Clone, Copy, Debug, PartialEq, Eq)]
pub struct CachePolicy {
    pub max_age_secs: Option<u64>,
    pub no_cache: bool,
    pub no_store: bool,
}

/// The freshness class of each endpoint: a day for top tracks, never
/// stored for the currently-playing response, three minutes for recent
/// plays.
pub open spec fn spec_cache_policy(endpoint: Endpoint) -> CachePolicy {
    match endpoint {
        Endpoint::TopTracks => CachePolicy {
            max_age_secs: Some(TOP_TRACKS_MAX_AGE_SECS),
            no_cache: false,
            no_store: false,
        },
        Endpoint::NowPlaying => CachePolicy { max_age_secs: None, no_cache: true, no_store: true },
        Endpoint::RecentlyPlayed => CachePolicy {
            max_age_secs: Some(RECENT_MAX_AGE_SECS),
            no_cache: false,
            no_store: false,
        },
    }
}

/// The cache-control directives for one endpoint's response.
pub fn cache_policy(endpoint: Endpoint) -> (p: CachePolicy)
    ensures
        p == spec_cache_policy(endpoint),
{
    match endpoint {
        Endpoint::TopTracks => CachePolicy {
            max_age_secs: Some(TOP_TRACKS_MAX_AGE_SECS),
            no_cache: false,
            no_store: false,
        },
        Endpoint::NowPlaying => CachePolicy { max_age_secs: None, no_cache: true, no_store: true },
        Endpoint::RecentlyPlayed => CachePolicy {
            max_age_secs: Some(RECENT_MAX_AGE_SECS),
            no_cache: false,
            no_store: false,
        },
    }
}

} // verus!

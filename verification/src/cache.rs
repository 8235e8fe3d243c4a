//! The slow-data path: shaping of the three top-track listening windows,
//! the snapshot they form, and the single-slot fill-once-per-process cache
//! that serves it. The cache moves from empty to filled exactly once;
//! a fill is stored only when all three windows were fetched successfully,
//! and a later fill never replaces a stored snapshot (first writer wins).

use vstd::prelude::*;

use crate::error::ApiError;
use crate::error::ErrorModel;
use crate::model::SimpleTrack;
use crate::model::SimpleTrackModel;
use crate::model::TrackModel;
use crate::model::TrackRecord;
use crate::model::simple_track_views;
use crate::model::track_views;
use crate::shape::shape_track;

verus! {

/// Each listening window of the snapshot holds at most this many tracks.
pub const TOP_TRACKS_LIMIT: usize = 10;

/// The shaped top tracks of the three listening windows (roughly the last
/// four weeks, the last six months, and all time). Created at most once
/// per process lifetime and immutable afterwards.
pub struct TopTracksSnapshot {
    pub short_term_top: Vec<SimpleTrack>,
    pub mid_term_top: Vec<SimpleTrack>,
    pub long_term_top: Vec<SimpleTrack>,
}

/// Mathematical model of a [`TopTracksSnapshot`].
pub struct SnapshotModel {
    pub short_term_top: Seq<SimpleTrackModel>,
    pub mid_term_top: Seq<SimpleTrackModel>,
    pub long_term_top: Seq<SimpleTrackModel>,
}

impl View for TopTracksSnapshot {
    type V = SnapshotModel;

    open spec fn view(&self) -> SnapshotModel {
        SnapshotModel {
            short_term_top: simple_track_views(self.short_term_top@),
            mid_term_top: simple_track_views(self.mid_term_top@),
            long_term_top: simple_track_views(self.long_term_top@),
        }
    }
}

/// Every window of a well-formed snapshot is capped at the window limit.
pub open spec fn snapshot_wf(s: SnapshotModel) -> bool {
    &&& s.short_term_top.len() <= TOP_TRACKS_LIMIT
    &&& s.mid_term_top.len() <= TOP_TRACKS_LIMIT
    &&& s.long_term_top.len() <= TOP_TRACKS_LIMIT
}

/// What one fetched window of top tracks yields: the provider's records,
/// or the upstream error of that fetch.
pub type FetchResult = Result<Vec<TrackRecord>, ApiError>;

/// The model of a fetched window.
pub open spec fn fetch_view(r: FetchResult) -> Result<Seq<TrackModel>, ErrorModel> {
    match r {
        Ok(tracks) => Ok(track_views(tracks@)),
        Err(e) => Err(e@),
    }
}

/// The model of a computed snapshot or of the error that prevented one.
pub open spec fn snapshot_result_view(r: Result<TopTracksSnapshot, ApiError>) -> Result<
    SnapshotModel,
    ErrorModel,
> {
    match r {
        Ok(s) => Ok(s@),
        Err(e) => Err(e@),
    }
}

/// How one fetched window is shaped: every track shaped in the order the
/// provider returned them, truncated to the first `limit` entries.
pub open spec fn shaped_window(ts: Seq<TrackModel>, limit: int) -> Seq<SimpleTrackModel> {
    ts.map_values(|t: TrackModel| shape_track(t)).take(
        if ts.len() <= limit {
            ts.len() as int
        } else {
            limit
        },
    )
}

/// A window with more tracks than the limit is truncated to exactly the
/// limit; one within the limit keeps every track.
pub proof fn lemma_window_truncates(ts: Seq<TrackModel>, limit: int)
    requires
        0 <= limit,
    ensures
        ts.len() > limit ==> shaped_window(ts, limit).len() == limit,
        ts.len() <= limit ==> shaped_window(ts, limit).len() == ts.len(),
        forall|i: int|
            0 <= i < shaped_window(ts, limit).len() ==> shaped_window(ts, limit)[i]
                == shape_track(ts[i]),
{
}

/// How a snapshot is computed from the three fetched windows: only when
/// all three succeeded, each shaped and truncated; otherwise the first
/// failure, in window order, short before mid before long.
pub open spec fn spec_fill_snapshot(
    short: Result<Seq<TrackModel>, ErrorModel>,
    mid: Result<Seq<TrackModel>, ErrorModel>,
    long: Result<Seq<TrackModel>, ErrorModel>,
) -> Result<SnapshotModel, ErrorModel> {
    match short {
        Err(e) => Err(e),
        Ok(s) => match mid {
            Err(e) => Err(e),
            Ok(m) => match long {
                Err(e) => Err(e),
                Ok(l) => Ok(
                    SnapshotModel {
                        short_term_top: shaped_window(s, TOP_TRACKS_LIMIT as int),
                        mid_term_top: shaped_window(m, TOP_TRACKS_LIMIT as int),
                        long_term_top: shaped_window(l, TOP_TRACKS_LIMIT as int),
                    },
                ),
            },
        },
    }
}

/// A snapshot is computed exactly when all three windows were fetched
/// successfully, and a computed snapshot respects the per-window cap.
pub proof fn lemma_fill_needs_all_windows(
    short: Result<Seq<TrackModel>, ErrorModel>,
    mid: Result<Seq<TrackModel>, ErrorModel>,
    long: Result<Seq<TrackModel>, ErrorModel>,
)
    ensures
        spec_fill_snapshot(short, mid, long) is Ok <==> (short is Ok && mid is Ok
            && long is Ok),
        forall|snap: SnapshotModel|
            spec_fill_snapshot(short, mid, long) == Ok::<SnapshotModel, ErrorModel>(snap)
                ==> snapshot_wf(snap),
{
    if short is Ok && mid is Ok && long is Ok {
        if let Ok(s) = short {
            lemma_window_truncates(s, TOP_TRACKS_LIMIT as int);
        }
        if let Ok(m) = mid {
            lemma_window_truncates(m, TOP_TRACKS_LIMIT as int);
        }
        if let Ok(l) = long {
            lemma_window_truncates(l, TOP_TRACKS_LIMIT as int);
        }
    }
}

/// Shapes one fetched window: every track in order, truncated to the
/// first `limit` entries.
pub fn top_window(tracks: Vec<TrackRecord>, limit: usize) -> (r: Vec<SimpleTrack>)
    ensures
        simple_track_views(r@) == shaped_window(track_views(tracks@), limit as int),
{
    let ghost orig = tracks@;
    let ghost tm = track_views(tracks@);
    let mut rest = tracks;
    let mut out: Vec<SimpleTrack> = Vec::new();
    while out.len() < limit && rest.len() > 0
        invariant
            tm == track_views(orig),
            out@.len() <= limit,
            out@.len() + rest@.len() == orig.len(),
            rest@ == orig.skip(out@.len() as int),
            forall|i: int| 0 <= i < out@.len() ==> #[trigger] out@[i]@ == shape_track(tm[i]),
        decreases rest@.len(),
    {
        let ghost done = out@.len() as int;
        let t = rest.remove(0);
        assert(t == orig[done]);
        assert(t@ == tm[done]);
        assert(rest@ =~= orig.skip(done + 1));
        out.push(crate::shape::track_to_simple(t));
    }
    proof {
        assert(simple_track_views(out@) =~= shaped_window(tm, limit as int));
    }
    out
}

/// Computes the snapshot from the three fetched windows, or surfaces the
/// first failure; no partial snapshot is ever produced.
pub fn fill_snapshot(short: FetchResult, mid: FetchResult, long: FetchResult) -> (r: Result<
    TopTracksSnapshot,
    ApiError,
>)
    ensures
        snapshot_result_view(r) == spec_fill_snapshot(
            fetch_view(short),
            fetch_view(mid),
            fetch_view(long),
        ),
{
    let s = match short {
        Ok(v) => v,
        Err(e) => {
            return Err(e);
        },
    };
    let m = match mid {
        Ok(v) => v,
        Err(e) => {
            return Err(e);
        },
    };
    let l = match long {
        Ok(v) => v,
        Err(e) => {
            return Err(e);
        },
    };
    Ok(
        TopTracksSnapshot {
            short_term_top: top_window(s, TOP_TRACKS_LIMIT),
            mid_term_top: top_window(m, TOP_TRACKS_LIMIT),
            long_term_top: top_window(l, TOP_TRACKS_LIMIT),
        },
    )
}

/// The single-slot cache: empty until the first successful fill, then
/// filled with the same snapshot until process restart. There is no other
/// invalidation; expiry-by-restart is the policy.
pub struct TopTracksCache {
    slot: Option<TopTracksSnapshot>,
}

impl View for TopTracksCache {
    type V = Option<SnapshotModel>;

    closed spec fn view(&self) -> Option<SnapshotModel> {
        match self.slot {
            Some(s) => Some(s@),
            None => None,
        }
    }
}

/// What one request against the cache yields: the slot after the request,
/// and the snapshot served or the error surfaced for this request only.
pub open spec fn spec_cache_step(
    slot: Option<SnapshotModel>,
    short: Result<Seq<TrackModel>, ErrorModel>,
    mid: Result<Seq<TrackModel>, ErrorModel>,
    long: Result<Seq<TrackModel>, ErrorModel>,
) -> (Option<SnapshotModel>, Result<SnapshotModel, ErrorModel>) {
    match slot {
        Some(s) => (Some(s), Ok(s)),
        None => match spec_fill_snapshot(short, mid, long) {
            Ok(s) => (Some(s), Ok(s)),
            Err(e) => (None, Err(e)),
        },
    }
}

impl TopTracksCache {
    /// A cache starts empty.
    pub fn new() -> (c: Self)
        ensures
            c@ is None,
    {
        TopTracksCache { slot: None }
    }

    /// Reads the slot without changing it.
    pub fn lookup(&self) -> (r: Option<&TopTracksSnapshot>)
        ensures
            match r {
                Some(s) => self@ == Some(s@),
                None => self@ is None,
            },
    {
        match &self.slot {
            Some(s) => Some(s),
            None => None,
        }
    }

    /// The set-if-unset primitive: stores the snapshot only into an empty
    /// slot. The first writer wins; a later writer's snapshot is discarded.
    pub fn set_if_empty(&mut self, snapshot: TopTracksSnapshot) -> (won: bool)
        ensures
            final(self)@ == (if old(self)@ is None {
                Some(snapshot@)
            } else {
                old(self)@
            }),
            won <==> old(self)@ is None,
    {
        match &self.slot {
            Some(_) => false,
            None => {
                self.slot = Some(snapshot);
                true
            },
        }
    }

    /// One request's pass over the cache with the three freshly fetched
    /// windows: serves the stored snapshot unchanged if one is stored;
    /// otherwise stores and serves the computed snapshot if all three
    /// fetches succeeded, and on any failure leaves the slot empty and
    /// surfaces the error for this request only.
    pub fn fill(&mut self, short: FetchResult, mid: FetchResult, long: FetchResult) -> (r: Result<
        (),
        ApiError,
    >)
        ensures
            ({
                let (slot, served) = spec_cache_step(
                    old(self)@,
                    fetch_view(short),
                    fetch_view(mid),
                    fetch_view(long),
                );
                &&& final(self)@ == slot
                &&& match r {
                    Ok(_) => served matches Ok(s) && final(self)@ == Some(s),
                    Err(e) => served == Err::<SnapshotModel, ErrorModel>(e@),
                }
            }),
    {
        if self.lookup().is_some() {
            return Ok(());
        }
        match fill_snapshot(short, mid, long) {
            Ok(snapshot) => {
                self.set_if_empty(snapshot);
                Ok(())
            },
            Err(e) => Err(e),
        }
    }
}

/// Law: the cache is filled at most once per process lifetime. Once a
/// request has been served a snapshot, every later request is served that
/// same snapshot and leaves the slot untouched, whatever its own fetches
/// returned.
pub proof fn lemma_cache_fills_at_most_once(
    slot: Option<SnapshotModel>,
    short1: Result<Seq<TrackModel>, ErrorModel>,
    mid1: Result<Seq<TrackModel>, ErrorModel>,
    long1: Result<Seq<TrackModel>, ErrorModel>,
    short2: Result<Seq<TrackModel>, ErrorModel>,
    mid2: Result<Seq<TrackModel>, ErrorModel>,
    long2: Result<Seq<TrackModel>, ErrorModel>,
)
    ensures
        ({
            let (slot1, served1) = spec_cache_step(slot, short1, mid1, long1);
            let (slot2, served2) = spec_cache_step(slot1, short2, mid2, long2);
            served1 is Ok ==> (slot2 == slot1 && served2 == served1)
        }),
{
}

/// Law: the per-window cap is an invariant of the cache. If the slot
/// holds a well-formed snapshot (or nothing), then after any request it
/// still does, and whatever snapshot the request serves is well-formed.
pub proof fn lemma_cache_preserves_window_cap(
    slot: Option<SnapshotModel>,
    short: Result<Seq<TrackModel>, ErrorModel>,
    mid: Result<Seq<TrackModel>, ErrorModel>,
    long: Result<Seq<TrackModel>, ErrorModel>,
)
    requires
        slot matches Some(s) ==> snapshot_wf(s),
    ensures
        ({
            let (slot2, served) = spec_cache_step(slot, short, mid, long);
            &&& (slot2 matches Some(s) ==> snapshot_wf(s))
            &&& (served matches Ok(s) ==> snapshot_wf(s))
        }),
{
    lemma_fill_needs_all_windows(short, mid, long);
}

/// Law: if any of the three windowed fetches fails while the cache is
/// empty, the slot stays empty, and the next request computes afresh from
/// its own three fetches — all three are retried, not just the failed one.
pub proof fn lemma_failed_fill_is_retried(
    short1: Result<Seq<TrackModel>, ErrorModel>,
    mid1: Result<Seq<TrackModel>, ErrorModel>,
    long1: Result<Seq<TrackModel>, ErrorModel>,
    short2: Result<Seq<TrackModel>, ErrorModel>,
    mid2: Result<Seq<TrackModel>, ErrorModel>,
    long2: Result<Seq<TrackModel>, ErrorModel>,
)
    requires
        short1 is Err || mid1 is Err || long1 is Err,
    ensures
        ({
            let (slot1, served1) = spec_cache_step(None, short1, mid1, long1);
            let (slot2, served2) = spec_cache_step(slot1, short2, mid2, long2);
            &&& slot1 is None
            &&& served1 is Err
            &&& served2 == spec_fill_snapshot(short2, mid2, long2)
        }),
{
    lemma_fill_needs_all_windows(short1, mid1, long1);
}

} // verus!

//! The currently-playing path. From the upstream playback snapshot the
//! service decides between three outcomes: nothing is reported (no
//! snapshot, playback paused, or no item), the playing track must be
//! hydrated with full track details before shaping, or an invariant was
//! violated (an episode item, which the requested scopes make
//! impossible). The device descriptor and the playback context are passed
//! through unchanged and never read, so their representations are left to
//! the caller as type parameters.

use vstd::prelude::*;

use crate::error::ApiError;
use crate::error::ErrorKind;
use crate::error::ErrorModel;
use crate::model::SimpleTrack;
use crate::model::SimpleTrackModel;
use crate::model::TrackModel;
use crate::model::TrackRecord;
use crate::shape::shape_track;
use crate::shape::track_to_simple;

verus! {

/// Which repeat mode playback is in.
#[derive(Clone, Copy, Debug, PartialEq, Eq, Structural)]
pub enum RepeatMode {
    Off,
    Track,
    Context,
}

/// The item a playback snapshot reports: a track, referenced by the
/// provider's track identifier, or an episode.
pub enum PlayableRef {
    Track(String),
    Episode,
}

/// Mathematical model of a [`PlayableRef`].
pub enum PlayableRefModel {
    Track(Seq<char>),
    Episode,
}

impl View for PlayableRef {
    type V = PlayableRefModel;

    open spec fn view(&self) -> PlayableRefModel {
        match self {
            PlayableRef::Track(id) => PlayableRefModel::Track(id@),
            PlayableRef::Episode => PlayableRefModel::Episode,
        }
    }
}

/// The upstream's report of the user's current playback, reduced to what
/// the service reads and forwards: whether something is actually playing,
/// the item and the elapsed play time, and the descriptor fields passed
/// through to the response.
pub struct PlaybackSnapshot<D, C> {
    pub device: D,
    pub context: Option<C>,
    pub repeat: RepeatMode,
    pub shuffled: bool,
    pub is_playing: bool,
    pub item: Option<PlayableRef>,
    pub progress_millis: Option<u64>,
}

/// Mathematical model of a [`PlaybackSnapshot`].
pub struct SnapshotStateModel<D, C> {
    pub device: D,
    pub context: Option<C>,
    pub repeat: RepeatMode,
    pub shuffled: bool,
    pub is_playing: bool,
    pub item: Option<PlayableRefModel>,
    pub progress_millis: Option<u64>,
}

impl<D, C> View for PlaybackSnapshot<D, C> {
    type V = SnapshotStateModel<D, C>;

    open spec fn view(&self) -> SnapshotStateModel<D, C> {
        SnapshotStateModel {
            device: self.device,
            context: self.context,
            repeat: self.repeat,
            shuffled: self.shuffled,
            is_playing: self.is_playing,
            item: match self.item {
                Some(i) => Some(i@),
                None => None,
            },
            progress_millis: self.progress_millis,
        }
    }
}

/// The model of an optional playback snapshot.
pub open spec fn opt_snapshot_view<D, C>(s: Option<PlaybackSnapshot<D, C>>) -> Option<
    SnapshotStateModel<D, C>,
> {
    match s {
        Some(p) => Some(p@),
        None => None,
    }
}

/// Everything needed to finish the response once the playing track's full
/// details have been fetched: the snapshot's pass-through fields, the
/// track to look up, and the elapsed play time.
pub struct HydrationRequest<D, C> {
    pub device: D,
    pub context: Option<C>,
    pub repeat: RepeatMode,
    pub shuffled: bool,
    pub track_id: String,
    pub progress_millis: u64,
}

/// Mathematical model of a [`HydrationRequest`].
pub struct HydrationModel<D, C> {
    pub device: D,
    pub context: Option<C>,
    pub repeat: RepeatMode,
    pub shuffled: bool,
    pub track_id: Seq<char>,
    pub progress_millis: u64,
}

impl<D, C> View for HydrationRequest<D, C> {
    type V = HydrationModel<D, C>;

    open spec fn view(&self) -> HydrationModel<D, C> {
        HydrationModel {
            device: self.device,
            context: self.context,
            repeat: self.repeat,
            shuffled: self.shuffled,
            track_id: self.track_id@,
            progress_millis: self.progress_millis,
        }
    }
}

/// What the snapshot calls for: an explicit "nothing playing" response,
/// or a hydration of the playing track.
pub enum PlayingDecision<D, C> {
    NoPlayback,
    Hydrate(HydrationRequest<D, C>),
}

/// Mathematical model of a [`PlayingDecision`].
pub enum DecisionModel<D, C> {
    NoPlayback,
    Hydrate(HydrationModel<D, C>),
}

impl<D, C> View for PlayingDecision<D, C> {
    type V = DecisionModel<D, C>;

    open spec fn view(&self) -> DecisionModel<D, C> {
        match self {
            PlayingDecision::NoPlayback => DecisionModel::NoPlayback,
            PlayingDecision::Hydrate(h) => DecisionModel::Hydrate(h@),
        }
    }
}

/// The model of a decision or of the error that replaced one.
pub open spec fn decision_result_view<D, C>(r: Result<PlayingDecision<D, C>, ApiError>) -> Result<
    DecisionModel<D, C>,
    ErrorModel,
> {
    match r {
        Ok(d) => Ok(d@),
        Err(e) => Err(e@),
    }
}

/// The diagnostic reported when an episode item is found playing.
pub open spec fn episode_message() -> Seq<char> {
    "a playing episode was reported, which the requested scopes rule out"@
}

/// The invariant-violation error for an episode item.
fn episode_error() -> (e: ApiError)
    ensures
        e@ == (ErrorModel { kind: ErrorKind::Invariant, message: episode_message() }),
{
    ApiError {
        kind: ErrorKind::Invariant,
        message: "a playing episode was reported, which the requested scopes rule out".to_owned(),
    }
}

/// The upstream reports an elapsed play time whenever a track is actually
/// playing; a snapshot without one cannot be answered.
pub open spec fn progress_reported<D, C>(s: Option<SnapshotStateModel<D, C>>) -> bool {
    match s {
        Some(p) => (p.is_playing && p.item matches Some(PlayableRefModel::Track(_)))
            ==> p.progress_millis is Some,
        None => true,
    }
}

/// What the snapshot calls for. "Nothing playing" exactly when there is
/// no snapshot, playback is inactive, or no item is reported; the
/// invariant error exactly when an episode is playing; otherwise the
/// hydration request carrying the snapshot's fields.
pub open spec fn spec_playing_step<D, C>(s: Option<SnapshotStateModel<D, C>>) -> Result<
    DecisionModel<D, C>,
    ErrorModel,
> {
    match s {
        None => Ok(DecisionModel::NoPlayback),
        Some(p) => if !p.is_playing {
            Ok(DecisionModel::NoPlayback)
        } else {
            match p.item {
                None => Ok(DecisionModel::NoPlayback),
                Some(PlayableRefModel::Episode) => Err(
                    ErrorModel { kind: ErrorKind::Invariant, message: episode_message() },
                ),
                Some(PlayableRefModel::Track(id)) => match p.progress_millis {
                    Some(ms) => Ok(
                        DecisionModel::Hydrate(
                            HydrationModel {
                                device: p.device,
                                context: p.context,
                                repeat: p.repeat,
                                shuffled: p.shuffled,
                                track_id: id,
                                progress_millis: ms,
                            },
                        ),
                    ),
                    None => arbitrary(),
                },
            }
        },
    }
}

/// Law: the explicit "nothing playing" response is returned exactly when
/// the upstream reports no snapshot, inactive playback, or no item.
pub proof fn lemma_no_playback_exactly_when_inactive<D, C>(s: Option<SnapshotStateModel<D, C>>)
    requires
        progress_reported(s),
    ensures
        (spec_playing_step(s) == Ok::<DecisionModel<D, C>, ErrorModel>(DecisionModel::NoPlayback))
            <==> match s {
            None => true,
            Some(p) => !p.is_playing || p.item is None,
        },
{
}

/// Decides the currently-playing response from the upstream snapshot.
pub fn playing_step<D, C>(snapshot: Option<PlaybackSnapshot<D, C>>) -> (r: Result<
    PlayingDecision<D, C>,
    ApiError,
>)
    requires
        progress_reported(opt_snapshot_view(snapshot)),
    ensures
        decision_result_view(r) == spec_playing_step(opt_snapshot_view(snapshot)),
{
    match snapshot {
        None => Ok(PlayingDecision::NoPlayback),
        Some(p) => {
            if !p.is_playing {
                return Ok(PlayingDecision::NoPlayback);
            }
            let PlaybackSnapshot { device, context, repeat, shuffled, item, progress_millis, .. } =
                p;
            match item {
                None => Ok(PlayingDecision::NoPlayback),
                Some(PlayableRef::Episode) => Err(episode_error()),
                Some(PlayableRef::Track(track_id)) => {
                    let ms = match progress_millis {
                        Some(ms) => ms,
                        None => unreached(),
                    };
                    Ok(
                        PlayingDecision::Hydrate(
                            HydrationRequest {
                                device,
                                context,
                                repeat,
                                shuffled,
                                track_id,
                                progress_millis: ms,
                            },
                        ),
                    )
                },
            }
        },
    }
}

/// The body of the currently-playing response once the track is hydrated:
/// the snapshot's fields passed through, the hydrated track shaped, and
/// the elapsed time in whole seconds.
pub struct PlayingState<D, C> {
    pub device: D,
    pub context: Option<C>,
    pub repeat: RepeatMode,
    pub shuffled: bool,
    pub playing: SimpleTrack,
    pub progress_secs: u64,
}

/// Mathematical model of a [`PlayingState`].
pub struct PlayingModel<D, C> {
    pub device: D,
    pub context: Option<C>,
    pub repeat: RepeatMode,
    pub shuffled: bool,
    pub playing: SimpleTrackModel,
    pub progress_secs: u64,
}

impl<D, C> View for PlayingState<D, C> {
    type V = PlayingModel<D, C>;

    open spec fn view(&self) -> PlayingModel<D, C> {
        PlayingModel {
            device: self.device,
            context: self.context,
            repeat: self.repeat,
            shuffled: self.shuffled,
            playing: self.playing@,
            progress_secs: self.progress_secs,
        }
    }
}

/// How the response is assembled from the hydration request and the
/// fetched track: the track shaped as every track is shaped, the elapsed
/// milliseconds converted to whole seconds.
pub open spec fn spec_hydrate<D, C>(h: HydrationModel<D, C>, t: TrackModel) -> PlayingModel<D, C> {
    PlayingModel {
        device: h.device,
        context: h.context,
        repeat: h.repeat,
        shuffled: h.shuffled,
        playing: shape_track(t),
        progress_secs: (h.progress_millis / 1000) as u64,
    }
}

/// Assembles the currently-playing response from the hydration request
/// and the track details fetched for it.
pub fn hydrate_playing<D, C>(request: HydrationRequest<D, C>, track: TrackRecord) -> (p:
    PlayingState<D, C>)
    ensures
        p@ == spec_hydrate(request@, track@),
{
    let HydrationRequest { device, context, repeat, shuffled, progress_millis, .. } = request;
    PlayingState {
        device,
        context,
        repeat,
        shuffled,
        playing: track_to_simple(track),
        progress_secs: progress_millis / 1000,
    }
}

} // verus!

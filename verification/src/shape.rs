//! The response shaper: pure mappings from provider-shaped records to the
//! service's simplified response shapes. Shaping has no failure mode;
//! missing provider fields become absent optional fields.

use vstd::prelude::*;

use crate::model::ArtistModel;
use crate::model::ArtistRecord;
use crate::model::SimpleArtist;
use crate::model::SimpleArtistModel;
use crate::model::SimpleTrack;
use crate::model::SimpleTrackModel;
use crate::model::TrackModel;
use crate::model::TrackRecord;

verus! {

/// How one provider artist is shaped: the name verbatim, the provider's
/// page URL when present.
pub open spec fn shape_artist(a: ArtistModel) -> SimpleArtistModel {
    SimpleArtistModel { name: a.name, url: a.provider_url }
}

/// How one provider track is shaped: name verbatim, artists shaped in
/// order, the first album image's URL if any images exist, the track's
/// provider page URL when present, and the duration in whole seconds
/// (integer division of the millisecond duration, remainder discarded).
pub open spec fn shape_track(t: TrackModel) -> SimpleTrackModel {
    SimpleTrackModel {
        name: t.name,
        artists: t.artists.map_values(|a: ArtistModel| shape_artist(a)),
        image_url: if t.album_image_urls.len() > 0 {
            Some(t.album_image_urls[0])
        } else {
            None
        },
        url: t.provider_url,
        duration: (t.duration_millis / 1000) as u64,
    }
}

/// A shaped track's duration is the millisecond duration divided by 1000,
/// rounded toward zero.
pub proof fn lemma_duration_is_floor_of_millis(t: TrackModel)
    ensures
        shape_track(t).duration == t.duration_millis as int / 1000,
{
}

/// A track with no album images is shaped with an absent image URL; one
/// with images is shaped with the first image's URL. Shaping never fails
/// on a missing image.
pub proof fn lemma_no_images_means_no_image_url(t: TrackModel)
    ensures
        t.album_image_urls.len() == 0 <==> shape_track(t).image_url is None,
        t.album_image_urls.len() > 0 ==> shape_track(t).image_url == Some(t.album_image_urls[0]),
{
}

/// Shapes one provider artist.
pub fn artist_to_simple(a: ArtistRecord) -> (s: SimpleArtist)
    ensures
        s@ == shape_artist(a@),
{
    SimpleArtist { name: a.name, url: a.provider_url }
}

/// Shapes a list of provider artists, keeping their order.
pub fn artists_to_simple(artists: Vec<ArtistRecord>) -> (r: Vec<SimpleArtist>)
    ensures
        r@.map_values(|s: SimpleArtist| s@) == artists@.map_values(
            |a: ArtistRecord| shape_artist(a@),
        ),
{
    let ghost am = artists@;
    let mut rest = artists;
    let mut out: Vec<SimpleArtist> = Vec::new();
    while rest.len() > 0
        invariant
            out@.len() + rest@.len() == am.len(),
            rest@ == am.skip(out@.len() as int),
            forall|i: int|
                0 <= i < out@.len() ==> #[trigger] out@[i]@ == shape_artist(am[i]@),
        decreases rest@.len(),
    {
        let ghost done = out@.len() as int;
        let a = rest.remove(0);
        assert(a == am[done]);
        assert(rest@ =~= am.skip(done + 1));
        out.push(artist_to_simple(a));
    }
    proof {
        assert(out@.map_values(|s: SimpleArtist| s@) =~= am.map_values(
            |a: ArtistRecord| shape_artist(a@),
        ));
    }
    out
}

/// Shapes one provider track into the simplified response shape.
pub fn track_to_simple(t: TrackRecord) -> (s: SimpleTrack)
    ensures
        s@ == shape_track(t@),
{
    let ghost tm = t@;
    let TrackRecord { name, artists, album_image_urls, provider_url, duration_millis } = t;
    let simple_artists = artists_to_simple(artists);
    let mut images = album_image_urls;
    let image_url = if images.len() > 0 {
        Some(images.remove(0))
    } else {
        None
    };
    let s = SimpleTrack {
        name,
        artists: simple_artists,
        image_url,
        url: provider_url,
        duration: duration_millis / 1000,
    };
    proof {
        assert(s@.artists =~= shape_track(tm).artists);
        assert(s@ == shape_track(tm));
    }
    s
}

} // verus!

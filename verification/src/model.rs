//! Data model of the service: the provider-shaped records the upstream
//! client hands over (reduced to the fields the service reads), the
//! simplified response shapes served to clients, and the mathematical
//! model (`View`) of each.

use vstd::prelude::*;

verus! {

/// An artist as the upstream provider reports it, reduced to what the
/// service reads: the display name and the provider's public page URL for
/// the artist, when one is listed among its external URLs.
pub struct ArtistRecord {
    pub name: String,
    pub provider_url: Option<String>,
}

/// A track as the upstream provider reports it, reduced to what the
/// service reads: name, its artists in order, the URLs of its album's
/// images in the order the provider lists them, the provider's public
/// page URL when listed, and the duration in milliseconds.
pub struct TrackRecord {
    pub name: String,
    pub artists: Vec<ArtistRecord>,
    pub album_image_urls: Vec<String>,
    pub provider_url: Option<String>,
    pub duration_millis: u64,
}

/// The simplified artist shape served to clients.
pub struct SimpleArtist {
    pub name: String,
    pub url: Option<String>,
}

/// The simplified track shape served to clients. `duration` is in whole
/// seconds, truncated from the provider's sub-second precision.
pub struct SimpleTrack {
    pub name: String,
    pub artists: Vec<SimpleArtist>,
    pub image_url: Option<String>,
    pub url: Option<String>,
    pub duration: u64,
}

/// Mathematical model of an [`ArtistRecord`].
pub struct ArtistModel {
    pub name: Seq<char>,
    pub provider_url: Option<Seq<char>>,
}

/// Mathematical model of a [`TrackRecord`].
pub struct TrackModel {
    pub name: Seq<char>,
    pub artists: Seq<ArtistModel>,
    pub album_image_urls: Seq<Seq<char>>,
    pub provider_url: Option<Seq<char>>,
    pub duration_millis: u64,
}

/// Mathematical model of a [`SimpleArtist`].
pub struct SimpleArtistModel {
    pub name: Seq<char>,
    pub url: Option<Seq<char>>,
}

/// Mathematical model of a [`SimpleTrack`].
pub struct SimpleTrackModel {
    pub name: Seq<char>,
    pub artists: Seq<SimpleArtistModel>,
    pub image_url: Option<Seq<char>>,
    pub url: Option<Seq<char>>,
    pub duration: u64,
}

/// The model of an optional owned string.
pub open spec fn opt_str_view(o: Option<String>) -> Option<Seq<char>> {
    match o {
        Some(s) => Some(s@),
        None => None,
    }
}

impl View for ArtistRecord {
    type V = ArtistModel;

    open spec fn view(&self) -> ArtistModel {
        ArtistModel { name: self.name@, provider_url: opt_str_view(self.provider_url) }
    }
}

impl View for TrackRecord {
    type V = TrackModel;

    open spec fn view(&self) -> TrackModel {
        TrackModel {
            name: self.name@,
            artists: self.artists@.map_values(|a: ArtistRecord| a@),
            album_image_urls: self.album_image_urls@.map_values(|u: String| u@),
            provider_url: opt_str_view(self.provider_url),
            duration_millis: self.duration_millis,
        }
    }
}

impl View for SimpleArtist {
    type V = SimpleArtistModel;

    open spec fn view(&self) -> SimpleArtistModel {
        SimpleArtistModel { name: self.name@, url: opt_str_view(self.url) }
    }
}

impl View for SimpleTrack {
    type V = SimpleTrackModel;

    open spec fn view(&self) -> SimpleTrackModel {
        SimpleTrackModel {
            name: self.name@,
            artists: self.artists@.map_values(|a: SimpleArtist| a@),
            image_url: opt_str_view(self.image_url),
            url: opt_str_view(self.url),
            duration: self.duration,
        }
    }
}

/// The models of a list of provider tracks.
pub open spec fn track_views(ts: Seq<TrackRecord>) -> Seq<TrackModel> {
    ts.map_values(|t: TrackRecord| t@)
}

/// The models of a list of shaped tracks.
pub open spec fn simple_track_views(ts: Seq<SimpleTrack>) -> Seq<SimpleTrackModel> {
    ts.map_values(|t: SimpleTrack| t@)
}

} // verus!

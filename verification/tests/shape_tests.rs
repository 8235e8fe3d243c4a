use music_feed::model::ArtistRecord;
use music_feed::model::TrackRecord;
use music_feed::shape::track_to_simple;

fn track(duration_millis: u64, image_urls: Vec<String>) -> TrackRecord {
    TrackRecord {
        name: "Song".to_owned(),
        artists: vec![
            ArtistRecord {
                name: "First Artist".to_owned(),
                provider_url: Some("https://provider.example/artist/1".to_owned()),
            },
            ArtistRecord { name: "Second Artist".to_owned(), provider_url: None },
        ],
        album_image_urls: image_urls,
        provider_url: Some("https://provider.example/track/1".to_owned()),
        duration_millis,
    }
}

#[test]
fn duration_is_millis_divided_by_thousand_rounded_down() {
    let s = track_to_simple(track(123_456, Vec::new()));
    assert_eq!(s.duration, 123);
}

#[test]
fn duration_of_exact_seconds_is_unchanged() {
    let s = track_to_simple(track(5_000, Vec::new()));
    assert_eq!(s.duration, 5);
}

#[test]
fn duration_of_sub_second_track_is_zero() {
    let s = track_to_simple(track(999, Vec::new()));
    assert_eq!(s.duration, 0);
}

#[test]
fn zero_images_gives_absent_image_url() {
    let s = track_to_simple(track(1_000, Vec::new()));
    assert_eq!(s.image_url, None);
}

#[test]
fn first_image_is_used_when_images_exist() {
    let s = track_to_simple(track(
        1_000,
        vec!["https://img.example/large.png".to_owned(), "https://img.example/small.png".to_owned()],
    ));
    assert_eq!(s.image_url, Some("https://img.example/large.png".to_owned()));
}

#[test]
fn name_and_track_url_pass_through() {
    let s = track_to_simple(track(1_000, Vec::new()));
    assert_eq!(s.name, "Song");
    assert_eq!(s.url, Some("https://provider.example/track/1".to_owned()));
}

#[test]
fn missing_track_url_stays_absent() {
    let mut t = track(1_000, Vec::new());
    t.provider_url = None;
    let s = track_to_simple(t);
    assert_eq!(s.url, None);
}

#[test]
fn artists_keep_order_and_urls() {
    let s = track_to_simple(track(1_000, Vec::new()));
    assert_eq!(s.artists.len(), 2);
    assert_eq!(s.artists[0].name, "First Artist");
    assert_eq!(s.artists[0].url, Some("https://provider.example/artist/1".to_owned()));
    assert_eq!(s.artists[1].name, "Second Artist");
    assert_eq!(s.artists[1].url, None);
}

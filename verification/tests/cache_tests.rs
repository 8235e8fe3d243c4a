use music_feed::cache::fill_snapshot;
use music_feed::cache::top_window;
use music_feed::cache::FetchResult;
use music_feed::cache::TopTracksCache;
use music_feed::cache::TOP_TRACKS_LIMIT;
use music_feed::error::ApiError;
use music_feed::error::ErrorKind;
use music_feed::model::TrackRecord;

fn named_track(name: &str) -> TrackRecord {
    TrackRecord {
        name: name.to_owned(),
        artists: Vec::new(),
        album_image_urls: Vec::new(),
        provider_url: None,
        duration_millis: 60_000,
    }
}

fn window(names: &[&str]) -> FetchResult {
    Ok(names.iter().map(|n| named_track(n)).collect())
}

fn upstream_failure(message: &str) -> FetchResult {
    Err(ApiError { kind: ErrorKind::Upstream, message: message.to_owned() })
}

#[test]
fn window_with_more_than_limit_is_truncated_to_exactly_limit() {
    let tracks: Vec<TrackRecord> = (0..12).map(|i| named_track(&format!("t{}", i))).collect();
    let shaped = top_window(tracks, TOP_TRACKS_LIMIT);
    assert_eq!(shaped.len(), 10);
    assert_eq!(shaped[0].name, "t0");
    assert_eq!(shaped[9].name, "t9");
}

#[test]
fn window_within_limit_keeps_every_track() {
    let tracks: Vec<TrackRecord> = (0..3).map(|i| named_track(&format!("t{}", i))).collect();
    let shaped = top_window(tracks, TOP_TRACKS_LIMIT);
    assert_eq!(shaped.len(), 3);
}

#[test]
fn snapshot_holds_all_three_windows_shaped() {
    let snapshot =
        fill_snapshot(window(&["s1", "s2"]), window(&["m1"]), window(&["l1", "l2", "l3"])).unwrap();
    assert_eq!(snapshot.short_term_top.len(), 2);
    assert_eq!(snapshot.short_term_top[0].name, "s1");
    assert_eq!(snapshot.short_term_top[1].name, "s2");
    assert_eq!(snapshot.mid_term_top.len(), 1);
    assert_eq!(snapshot.mid_term_top[0].name, "m1");
    assert_eq!(snapshot.long_term_top.len(), 3);
    assert_eq!(snapshot.long_term_top[2].name, "l3");
    assert_eq!(snapshot.short_term_top[0].duration, 60);
}

#[test]
fn one_failed_window_fails_the_whole_snapshot() {
    let r = fill_snapshot(window(&["s1"]), upstream_failure("mid window failed"), window(&["l1"]));
    let e = r.err().unwrap();
    assert_eq!(e.kind, ErrorKind::Upstream);
    assert_eq!(e.message, "mid window failed");
}

#[test]
fn first_failure_in_window_order_is_surfaced() {
    let r = fill_snapshot(
        upstream_failure("short window failed"),
        upstream_failure("mid window failed"),
        window(&["l1"]),
    );
    assert_eq!(r.err().unwrap().message, "short window failed");
}

#[test]
fn cache_starts_empty() {
    let cache = TopTracksCache::new();
    assert!(cache.lookup().is_none());
}

#[test]
fn cache_is_filled_at_most_once() {
    let mut cache = TopTracksCache::new();
    cache.fill(window(&["first"]), window(&["first"]), window(&["first"])).unwrap();
    let first_body: Vec<String> =
        cache.lookup().unwrap().short_term_top.iter().map(|t| t.name.clone()).collect();

    // A later request with entirely different upstream data is served the
    // stored snapshot; the slot is never recomputed.
    cache.fill(window(&["second"]), window(&["second"]), window(&["second"])).unwrap();
    let second_body: Vec<String> =
        cache.lookup().unwrap().short_term_top.iter().map(|t| t.name.clone()).collect();
    assert_eq!(first_body, vec!["first".to_owned()]);
    assert_eq!(second_body, first_body);
}

#[test]
fn failed_fill_leaves_cache_empty_and_next_request_retries() {
    let mut cache = TopTracksCache::new();
    let r = cache.fill(window(&["s1"]), upstream_failure("boom"), window(&["l1"]));
    assert_eq!(r.err().unwrap().message, "boom");
    assert!(cache.lookup().is_none());

    // The next request computes afresh from its own three fetches.
    cache.fill(window(&["s2"]), window(&["m2"]), window(&["l2"])).unwrap();
    let snapshot = cache.lookup().unwrap();
    assert_eq!(snapshot.short_term_top[0].name, "s2");
    assert_eq!(snapshot.mid_term_top[0].name, "m2");
    assert_eq!(snapshot.long_term_top[0].name, "l2");
}

#[test]
fn set_if_empty_first_writer_wins() {
    let mut cache = TopTracksCache::new();
    let first = fill_snapshot(window(&["a"]), window(&["a"]), window(&["a"])).unwrap();
    let second = fill_snapshot(window(&["b"]), window(&["b"]), window(&["b"])).unwrap();
    assert!(cache.set_if_empty(first));
    assert!(!cache.set_if_empty(second));
    assert_eq!(cache.lookup().unwrap().short_term_top[0].name, "a");
}

use music_feed::model::TrackRecord;
use music_feed::recent::recent_response;
use music_feed::recent::PlayHistoryRecord;

fn play(name: &str, played_at_millis: i64, context: Option<String>) -> PlayHistoryRecord<String> {
    PlayHistoryRecord {
        track: TrackRecord {
            name: name.to_owned(),
            artists: Vec::new(),
            album_image_urls: Vec::new(),
            provider_url: None,
            duration_millis: 90_500,
        },
        context,
        played_at_millis,
    }
}

#[test]
fn entries_come_back_sorted_newest_first() {
    let entries = recent_response(vec![
        play("older", 1_000, None),
        play("newest", 9_000, None),
        play("middle", 5_000, None),
    ]);
    assert_eq!(entries.len(), 3);
    assert_eq!(entries[0].track.name, "newest");
    assert_eq!(entries[1].track.name, "middle");
    assert_eq!(entries[2].track.name, "older");
    for pair in entries.windows(2) {
        assert!(pair[0].played_at_millis >= pair[1].played_at_millis);
    }
}

#[test]
fn already_sorted_input_is_kept() {
    let entries = recent_response(vec![play("a", 3, None), play("b", 2, None), play("c", 1, None)]);
    let names: Vec<&str> = entries.iter().map(|e| e.track.name.as_str()).collect();
    assert_eq!(names, vec!["a", "b", "c"]);
}

#[test]
fn equal_timestamps_keep_both_entries() {
    let entries = recent_response(vec![play("x", 7, None), play("y", 7, None)]);
    assert_eq!(entries.len(), 2);
    assert_eq!(entries[0].played_at_millis, 7);
    assert_eq!(entries[1].played_at_millis, 7);
    let mut names: Vec<&str> = entries.iter().map(|e| e.track.name.as_str()).collect();
    names.sort();
    assert_eq!(names, vec!["x", "y"]);
}

#[test]
fn context_and_timestamp_pass_through_unchanged() {
    let entries = recent_response(vec![play("a", 42, Some("playlist:123".to_owned()))]);
    assert_eq!(entries[0].context, Some("playlist:123".to_owned()));
    assert_eq!(entries[0].played_at_millis, 42);
}

#[test]
fn tracks_are_shaped_in_the_response() {
    let entries = recent_response(vec![play("a", 1, None)]);
    assert_eq!(entries[0].track.duration, 90);
    assert_eq!(entries[0].track.image_url, None);
}

#[test]
fn empty_history_gives_empty_response() {
    let entries = recent_response(Vec::<PlayHistoryRecord<String>>::new());
    assert!(entries.is_empty());
}

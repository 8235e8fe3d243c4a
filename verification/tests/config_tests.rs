use music_feed::config::credentials_from;
use music_feed::config::required_scopes;
use music_feed::error::error_status;
use music_feed::error::ErrorKind;
use music_feed::router::cache_policy;
use music_feed::router::Endpoint;

#[test]
fn all_values_present_gives_credentials() {
    let c = credentials_from(
        Some("id-1".to_owned()),
        Some("secret-1".to_owned()),
        Some("token-1".to_owned()),
    )
    .unwrap();
    assert_eq!(c.client_id, "id-1");
    assert_eq!(c.client_secret, "secret-1");
    assert_eq!(c.refresh_token, "token-1");
}

#[test]
fn missing_client_id_is_a_config_error() {
    let e = credentials_from(None, Some("secret".to_owned()), Some("token".to_owned()))
        .err()
        .unwrap();
    assert_eq!(e.kind, ErrorKind::Config);
    assert_eq!(e.message, "the client identifier is not set");
}

#[test]
fn missing_client_secret_is_a_config_error() {
    let e = credentials_from(Some("id".to_owned()), None, Some("token".to_owned())).err().unwrap();
    assert_eq!(e.kind, ErrorKind::Config);
    assert_eq!(e.message, "the client secret is not set");
}

#[test]
fn missing_refresh_token_is_a_config_error() {
    let e = credentials_from(Some("id".to_owned()), Some("secret".to_owned()), None).err().unwrap();
    assert_eq!(e.kind, ErrorKind::Config);
    assert_eq!(e.message, "the refresh token is not set");
}

#[test]
fn first_missing_value_is_the_one_reported() {
    let e = credentials_from(None, None, None).err().unwrap();
    assert_eq!(e.message, "the client identifier is not set");
}

#[test]
fn the_five_required_scopes_are_requested() {
    let scopes = required_scopes();
    assert_eq!(
        scopes,
        vec![
            "user-read-currently-playing".to_owned(),
            "user-read-recently-played".to_owned(),
            "user-top-read".to_owned(),
            "user-read-playback-position".to_owned(),
            "user-read-playback-state".to_owned(),
        ]
    );
}

#[test]
fn top_tracks_response_is_cacheable_for_a_day() {
    let p = cache_policy(Endpoint::TopTracks);
    assert_eq!(p.max_age_secs, Some(86_400));
    assert!(!p.no_cache);
    assert!(!p.no_store);
}

#[test]
fn now_playing_response_is_never_cached() {
    let p = cache_policy(Endpoint::NowPlaying);
    assert_eq!(p.max_age_secs, None);
    assert!(p.no_cache);
    assert!(p.no_store);
}

#[test]
fn recent_response_is_cacheable_for_three_minutes() {
    let p = cache_policy(Endpoint::RecentlyPlayed);
    assert_eq!(p.max_age_secs, Some(180));
    assert!(!p.no_cache);
    assert!(!p.no_store);
}

#[test]
fn upstream_errors_map_to_bad_gateway_and_the_rest_to_internal() {
    assert_eq!(error_status(ErrorKind::Upstream), 502);
    assert_eq!(error_status(ErrorKind::Config), 500);
    assert_eq!(error_status(ErrorKind::Invariant), 500);
}

use swr3_remix::media::local_media_path;
use swr3_remix::query::get_yt_search_query;
use swr3_remix::swr3_api::{Swr3ApiResponse, Swr3Song};
use swr3_remix::youtube_api::{get_video_url, VideoCache};

fn song(title: &str, artist: &str) -> Swr3Song {
    Swr3Song { title: title.to_string(), artist: artist.to_string() }
}

#[test]
fn plain_artist_and_title_pass_verbatim() {
    let q = get_yt_search_query(song("Song A", "X"));
    assert_eq!(q, "X \"Song A\" remix");
    assert!(q.contains("X"));
    assert!(q.contains("Song A"));
}

#[test]
fn separators_are_stripped_from_the_artist() {
    let q = get_yt_search_query(song("Titel", "Alpha;Beta;Gamma"));
    assert_eq!(q, "AlphaBetaGamma \"Titel\" remix");
}

#[test]
fn apostrophe_entity_is_decoded() {
    let q = get_yt_search_query(song("Bar", "Foo&#39;s"));
    assert_eq!(q, "Foo's \"Bar\" remix");
}

#[test]
fn entity_and_separator_together() {
    let q = get_yt_search_query(song("T", "A&#39;B;C"));
    assert_eq!(q, "A'BC \"T\" remix");
}

#[test]
fn empty_fields_still_compose() {
    let q = get_yt_search_query(song("", ""));
    assert_eq!(q, " \"\" remix");
}

#[test]
fn title_is_not_normalized() {
    let q = get_yt_search_query(song("A;B&#39;", "X"));
    assert_eq!(q, "X \"A;B&#39;\" remix");
}

#[test]
fn watch_url_is_built_from_the_id() {
    assert_eq!(get_video_url("Q4orjhvnkIk".to_string()), "https://www.youtube.com/watch?v=Q4orjhvnkIk");
}

#[test]
fn media_path_is_named_from_id_and_codec() {
    assert_eq!(local_media_path("Q4orjhvnkIk", "opus"), "downloads/Q4orjhvnkIk.opus");
}

#[test]
fn first_song_of_empty_playlist_is_none() {
    let response = Swr3ApiResponse { playlist: vec![] };
    assert!(response.first_song().is_none());
}

#[test]
fn first_song_is_the_first_playlist_entry() {
    let response = Swr3ApiResponse {
        playlist: vec![song("Song A", "X"), song("Song B", "Y")],
    };
    let first = response.first_song().unwrap();
    assert_eq!(first.title, "Song A");
    assert_eq!(first.artist, "X");
}

#[test]
fn cache_starts_empty() {
    let mut cache = VideoCache::new();
    assert!(cache.lookup(&"anything".to_string()).is_none());
}

#[test]
fn cache_returns_what_was_recorded() {
    let mut cache = VideoCache::new();
    let query = "X \"Song A\" remix".to_string();
    cache.record(query.clone(), "https://www.youtube.com/watch?v=abc".to_string());
    assert_eq!(cache.lookup(&query).unwrap(), "https://www.youtube.com/watch?v=abc");
    assert!(cache.lookup(&"other".to_string()).is_none());
}

#[test]
fn cache_keeps_the_first_recorded_result() {
    let mut cache = VideoCache::new();
    let query = "q".to_string();
    cache.record(query.clone(), "first".to_string());
    cache.record(query.clone(), "second".to_string());
    assert_eq!(cache.lookup(&query).unwrap(), "first");
}

use swr3_remix::swr3_api::Swr3Song;
use swr3_remix::tracker::{
    commit_cycle, get_wait_duration, PollOutcome, TrackerState, LONG_INTERVAL_SECS,
    MAX_WAIT_COUNT, MEDIUM_INTERVAL_SECS, SHORT_INTERVAL_SECS,
};

fn song(title: &str, artist: &str) -> Swr3Song {
    Swr3Song { title: title.to_string(), artist: artist.to_string() }
}

#[test]
fn wait_duration_tiers() {
    assert_eq!(get_wait_duration(0), 60);
    assert_eq!(get_wait_duration(1), 60);
    assert_eq!(get_wait_duration(2), 30);
    assert_eq!(get_wait_duration(3), 30);
    assert_eq!(get_wait_duration(4), 30);
    assert_eq!(get_wait_duration(5), 20);
    assert_eq!(get_wait_duration(200), 20);
}

#[test]
fn wait_duration_monotone_and_floored() {
    let mut previous = get_wait_duration(0);
    for count in 1..=255u16 {
        let current = get_wait_duration(count as u8);
        assert!(current <= previous);
        assert!(current >= SHORT_INTERVAL_SECS);
        previous = current;
    }
}

#[test]
fn initial_state() {
    let state = TrackerState::new();
    assert!(state.last_song.is_none());
    assert_eq!(state.same_song_count, 0);
    assert_eq!(state.current_interval, LONG_INTERVAL_SECS);
}

#[test]
fn same_song_three_cycles_then_new_song() {
    let state = TrackerState::new();

    let (state, outcome) = state.advance(Some(song("Song A", "X")));
    assert!(matches!(outcome, PollOutcome::NewSong(ref s) if s.title == "Song A"));
    assert_eq!(state.same_song_count, 0);

    let (state, outcome) = state.advance(Some(song("Song A", "X")));
    assert!(matches!(outcome, PollOutcome::Unchanged(1)));
    assert_eq!(state.same_song_count, 1);

    let (state, outcome) = state.advance(Some(song("Song A", "X")));
    assert!(matches!(outcome, PollOutcome::Unchanged(2)));
    assert_eq!(state.same_song_count, 2);

    let (state, outcome) = state.advance(Some(song("Song B", "Y")));
    assert!(matches!(outcome, PollOutcome::NewSong(ref s) if s.title == "Song B"));
    assert_eq!(state.same_song_count, 0);
    assert_eq!(state.last_song.as_ref().unwrap().title, "Song B");
}

#[test]
fn absence_leaves_state_untouched() {
    let state = TrackerState::new();
    let (state, _) = state.advance(Some(song("Song A", "X")));
    let (state, _) = state.advance(Some(song("Song A", "X")));
    let (mut state, _) = state.advance(Some(song("Song A", "X")));
    let interval_before = state.current_interval;
    let count_before = state.same_song_count;

    for _ in 0..5 {
        let (next, outcome) = state.advance(None);
        assert!(matches!(outcome, PollOutcome::NoData));
        assert_eq!(next.same_song_count, count_before);
        assert_eq!(next.current_interval, interval_before);
        state = next;
    }
}

#[test]
fn interval_shrinks_as_song_persists() {
    let state = TrackerState::new();
    let (mut state, _) = state.advance(Some(song("Song A", "X")));
    assert_eq!(state.current_interval, LONG_INTERVAL_SECS);
    let mut seen_medium = false;
    let mut seen_short = false;
    for _ in 0..6 {
        let (next, _) = state.advance(Some(song("Song A", "X")));
        if next.current_interval == MEDIUM_INTERVAL_SECS {
            seen_medium = true;
        }
        if next.current_interval == SHORT_INTERVAL_SECS {
            seen_short = true;
        }
        state = next;
    }
    assert!(seen_medium);
    assert!(seen_short);
    assert_eq!(state.current_interval, SHORT_INTERVAL_SECS);
}

#[test]
fn gave_up_exactly_at_boundary() {
    let boundary = TrackerState {
        last_song: Some(song("Song A", "X")),
        same_song_count: MAX_WAIT_COUNT,
        current_interval: SHORT_INTERVAL_SECS,
    };
    let (after, outcome) = boundary.advance(Some(song("Song A", "X")));
    assert!(matches!(outcome, PollOutcome::GaveUp));
    assert_eq!(after.same_song_count, MAX_WAIT_COUNT + 1);

    // One poll later the ceiling was already crossed: no second GaveUp.
    let (_, outcome) = after.advance(Some(song("Song A", "X")));
    assert!(matches!(outcome, PollOutcome::Unchanged(c) if c == MAX_WAIT_COUNT + 2));

    // One poll earlier the ceiling is not yet crossed.
    let below = TrackerState {
        last_song: Some(song("Song A", "X")),
        same_song_count: MAX_WAIT_COUNT - 1,
        current_interval: SHORT_INTERVAL_SECS,
    };
    let (_, outcome) = below.advance(Some(song("Song A", "X")));
    assert!(matches!(outcome, PollOutcome::Unchanged(c) if c == MAX_WAIT_COUNT));
}

#[test]
fn failed_pipeline_keeps_previous_state_and_retries() {
    let state = TrackerState::new();

    // Cycle 1: Song A is new, but the pipeline fails: nothing is committed.
    let (candidate, outcome) = state.advance(Some(song("Song A", "X")));
    assert!(matches!(outcome, PollOutcome::NewSong(_)));
    let state = commit_cycle(state, candidate, &outcome, false);
    assert!(state.last_song.is_none());

    // Cycle 2: the feed still reports Song A; it is treated as new again.
    let (candidate, outcome) = state.advance(Some(song("Song A", "X")));
    assert!(matches!(outcome, PollOutcome::NewSong(ref s) if s.title == "Song A"));
    let state = commit_cycle(state, candidate, &outcome, true);
    assert_eq!(state.last_song.as_ref().unwrap().title, "Song A");
    assert_eq!(state.same_song_count, 0);
}

#[test]
fn commit_is_unconditional_for_other_outcomes() {
    let state = TrackerState::new();
    let (state, _) = state.advance(Some(song("Song A", "X")));
    let (candidate, outcome) = state.advance(Some(song("Song A", "X")));
    assert!(matches!(outcome, PollOutcome::Unchanged(1)));
    // The pipeline flag only matters for NewSong outcomes.
    let state = commit_cycle(state, candidate, &outcome, false);
    assert_eq!(state.same_song_count, 1);
}

#[test]
fn song_equality_is_by_title_and_artist() {
    assert_eq!(song("Song A", "X"), song("Song A", "X"));
    assert_ne!(song("Song A", "X"), song("Song A", "Y"));
    assert_ne!(song("Song A", "X"), song("Song B", "X"));
    let copy = song("Song A", "X").clone();
    assert_eq!(copy, song("Song A", "X"));
}

//! The polling state machine: detects song changes against the last-known
//! song, counts how long the same song has persisted, recommends the poll
//! interval for that count, and gives up after a bounded number of stale
//! polls.

use vstd::prelude::*;
use crate::swr3_api::{SongView, Swr3Song};

verus! {

/// Maximum number of consecutive stale polls tolerated before the tracker
/// gives up. Most likely the feed has stopped changing.
pub const MAX_WAIT_COUNT: u8 = 20;

/// Interval while a song has just started airing.
pub const LONG_INTERVAL_SECS: u64 = 60;

/// Interval while a song has been airing for a few polls.
pub const MEDIUM_INTERVAL_SECS: u64 = 30;

/// The floor: the shortest interval, used once a song nears its typical end.
pub const SHORT_INTERVAL_SECS: u64 = 20;

/// Poll interval in seconds recommended after `count` consecutive stale
/// polls: a tiered step function, never increasing in `count` and never
/// below the floor.
pub open spec fn interval_for(count: nat) -> nat {
    if count <= 1 {
        LONG_INTERVAL_SECS as nat
    } else if count <= 4 {
        MEDIUM_INTERVAL_SECS as nat
    } else {
        SHORT_INTERVAL_SECS as nat
    }
}

/// Returns the duration in seconds the loop should wait between two polls
/// that reported the same data. Gets more aggressive the higher the given
/// `try_count` is.
pub fn get_wait_duration(try_count: u8) -> (secs: u64)
    ensures
        secs == interval_for(try_count as nat),
{
    if try_count <= 1 {
        LONG_INTERVAL_SECS
    } else if try_count <= 4 {
        MEDIUM_INTERVAL_SECS
    } else {
        SHORT_INTERVAL_SECS
    }
}

/// Mathematical value of the tracker state.
pub struct TrackerView {
    pub last_song: Option<SongView>,
    pub same_song_count: nat,
    pub current_interval: nat,
}

/// Mathematical value of a poll outcome.
pub enum OutcomeView {
    NewSong(SongView),
    Unchanged(nat),
    NoData,
    GaveUp,
}

/// What one poll cycle reported: a song change, the same song still airing
/// (with the stale count), no data from the feed, or exhaustion of the
/// stale-poll budget. `GaveUp` is terminal: the driving loop must stop.
#[derive(Debug)]
pub enum PollOutcome {
    NewSong(Swr3Song),
    Unchanged(u8),
    NoData,
    GaveUp,
}

impl View for PollOutcome {
    type V = OutcomeView;

    open spec fn view(&self) -> OutcomeView {
        match self {
            PollOutcome::NewSong(s) => OutcomeView::NewSong(s@),
            PollOutcome::Unchanged(c) => OutcomeView::Unchanged(*c as nat),
            PollOutcome::NoData => OutcomeView::NoData,
            PollOutcome::GaveUp => OutcomeView::GaveUp,
        }
    }
}

/// The tracker: last-known song, how many polls it has persisted, and the
/// currently recommended poll interval in seconds.
#[derive(Debug)]
pub struct TrackerState {
    pub last_song: Option<Swr3Song>,
    pub same_song_count: u8,
    pub current_interval: u64,
}

impl View for TrackerState {
    type V = TrackerView;

    open spec fn view(&self) -> TrackerView {
        TrackerView {
            last_song: match self.last_song {
                Some(s) => Some(s@),
                None => None,
            },
            same_song_count: self.same_song_count as nat,
            current_interval: self.current_interval as nat,
        }
    }
}

/// The state the tracker starts in: no song known yet, a zero stale count,
/// and the interval recomputed from that count.
pub open spec fn initial_tracker() -> TrackerView {
    TrackerView { last_song: None, same_song_count: 0, current_interval: interval_for(0) }
}

/// One poll cycle over tracker values: the next state and the outcome.
///
/// Absence of data leaves the state untouched. A song that differs from the
/// last-known one (also when none is known) resets the stale count. The same
/// song again raises the count; crossing the stale-poll ceiling is reported
/// as `GaveUp`, exactly at the boundary.
pub open spec fn spec_advance(s: TrackerView, observed: Option<SongView>) -> (TrackerView, OutcomeView) {
    match observed {
        None => (s, OutcomeView::NoData),
        Some(song) => {
            if s.last_song != Some(song) {
                (
                    TrackerView {
                        last_song: Some(song),
                        same_song_count: 0,
                        current_interval: interval_for(0),
                    },
                    OutcomeView::NewSong(song),
                )
            } else {
                let c = s.same_song_count + 1;
                let next = TrackerView {
                    last_song: s.last_song,
                    same_song_count: c,
                    current_interval: interval_for(c),
                };
                if c == MAX_WAIT_COUNT + 1 {
                    (next, OutcomeView::GaveUp)
                } else {
                    (next, OutcomeView::Unchanged(c))
                }
            }
        }
    }
}

/// Spec-level view of an observation.
pub open spec fn observed_view(observed: Option<Swr3Song>) -> Option<SongView> {
    match observed {
        Some(s) => Some(s@),
        None => None,
    }
}

impl TrackerState {
    /// The tracker at process start.
    pub fn new() -> (t: TrackerState)
        ensures
            t@ == initial_tracker(),
    {
        TrackerState { last_song: None, same_song_count: 0, current_interval: get_wait_duration(0) }
    }

    /// One poll cycle: feeds the observation into the state machine and
    /// returns the successor state together with the cycle's outcome.
    ///
    /// This function never fails: absence of data is a first-class outcome.
    pub fn advance(&self, observed: Option<Swr3Song>) -> (r: (TrackerState, PollOutcome))
        requires
            self.same_song_count < u8::MAX,
        ensures
            (r.0@, r.1@) == spec_advance(self@, observed_view(observed)),
    {
        match observed {
            None => {
                let unchanged = TrackerState {
                    last_song: clone_last(&self.last_song),
                    same_song_count: self.same_song_count,
                    current_interval: self.current_interval,
                };
                (unchanged, PollOutcome::NoData)
            },
            Some(song) => {
                let is_same = match &self.last_song {
                    Some(last) => *last == song,
                    None => false,
                };
                if !is_same {
                    let next = TrackerState {
                        last_song: Some(song.clone()),
                        same_song_count: 0,
                        current_interval: get_wait_duration(0),
                    };
                    (next, PollOutcome::NewSong(song))
                } else {
                    let c = self.same_song_count + 1;
                    let next = TrackerState {
                        last_song: clone_last(&self.last_song),
                        same_song_count: c,
                        current_interval: get_wait_duration(c),
                    };
                    if c == MAX_WAIT_COUNT + 1 {
                        (next, PollOutcome::GaveUp)
                    } else {
                        (next, PollOutcome::Unchanged(c))
                    }
                }
            },
        }
    }
}

/// A copy of the last-known song that keeps its value.
fn clone_last(last: &Option<Swr3Song>) -> (r: Option<Swr3Song>)
    ensures
        observed_view(r) == observed_view(*last),
{
    match last {
        Some(s) => Some(s.clone()),
        None => None,
    }
}

/// The loop's commit rule: the transition for a detected new song is kept
/// only when the resolve, download and enqueue pipeline fully succeeded;
/// a pipeline failure keeps the previous state, so the same song is treated
/// as new again on the next cycle. Every other outcome commits
/// unconditionally.
pub fn commit_cycle(prev: TrackerState, candidate: TrackerState, outcome: &PollOutcome, pipeline_ok: bool) -> (r: TrackerState)
    ensures
        r@ == (if outcome@ is NewSong && !pipeline_ok {
            prev@
        } else {
            candidate@
        }),
{
    let is_new = match outcome {
        PollOutcome::NewSong(_) => true,
        _ => false,
    };
    if is_new && !pipeline_ok {
        prev
    } else {
        candidate
    }
}

/// The tracker's invariant: the recommended interval is always the pure
/// function of the stale count.
pub open spec fn wf(s: TrackerView) -> bool {
    s.current_interval == interval_for(s.same_song_count)
}

/// Law: the tracker's invariant holds at process start and is preserved by
/// every poll cycle.
pub proof fn lemma_advance_preserves_wf(s: TrackerView, observed: Option<SongView>)
    requires
        wf(s),
    ensures
        wf(spec_advance(s, observed).0),
        wf(initial_tracker()),
{
}

/// Tracker value after feeding a whole run of observed songs, one per cycle,
/// into the state machine.
pub open spec fn spec_run(s: TrackerView, observations: Seq<SongView>) -> TrackerView
    decreases observations.len(),
{
    if observations.len() == 0 {
        s
    } else {
        spec_run(spec_advance(s, Some(observations[0])).0, observations.drop_first())
    }
}

proof fn lemma_run_count(s: TrackerView, observations: Seq<SongView>)
    requires
        observations.len() >= 1,
    ensures
        spec_run(s, observations).last_song == Some(observations.last()),
        spec_run(s, observations).same_song_count == 0 <==> (if observations.len() == 1 {
            s.last_song != Some(observations[0])
        } else {
            observations[observations.len() - 1] != observations[observations.len() - 2]
        }),
    decreases observations.len(),
{
    let stepped = spec_advance(s, Some(observations[0])).0;
    if observations.len() == 1 {
        assert(spec_run(stepped, observations.drop_first()) == stepped);
    } else {
        lemma_run_count(stepped, observations.drop_first());
        assert(observations.drop_first().last() == observations.last());
        assert(stepped.last_song == Some(observations[0]));
        if observations.len() == 2 {
            assert(observations.drop_first()[0] == observations[1]);
        } else {
            assert(observations.drop_first()[observations.len() - 2] == observations[observations.len() - 1]);
            assert(observations.drop_first()[observations.len() - 3] == observations[observations.len() - 2]);
        }
    }
}

/// Law: over any nonempty run of observed songs fed into the tracker from its
/// starting state, the stale count ends at zero exactly when the most recent
/// observation differs from the one of the cycle just before it — or was the
/// only observation so far.
pub proof fn lemma_count_zero_iff_song_changed(observations: Seq<SongView>)
    requires
        observations.len() >= 1,
    ensures
        spec_run(initial_tracker(), observations).same_song_count == 0 <==> (observations.len()
            == 1 || observations[observations.len() - 1] != observations[observations.len() - 2]),
{
    lemma_run_count(initial_tracker(), observations);
}

/// Law: the recommended poll interval never increases as the stale count
/// grows, and never drops below the configured floor.
pub proof fn lemma_interval_monotone_and_floored(low_count: nat, high_count: nat)
    requires
        low_count <= high_count,
    ensures
        interval_for(high_count) <= interval_for(low_count),
        SHORT_INTERVAL_SECS <= interval_for(high_count),
{
}

/// Law: when the same song is observed again, the tracker gives up exactly at
/// the boundary — the one poll that takes the stale count past the ceiling —
/// and on no poll after it, so `GaveUp` is reported once, not repeatedly.
pub proof fn lemma_gave_up_only_at_boundary(s: TrackerView, song: SongView)
    requires
        s.last_song == Some(song),
    ensures
        spec_advance(s, Some(song)).1 is GaveUp <==> s.same_song_count == MAX_WAIT_COUNT,
        spec_advance(s, Some(song)).1 is GaveUp ==> !(spec_advance(
            spec_advance(s, Some(song)).0,
            Some(song),
        ).1 is GaveUp),
{
}

} // verus!

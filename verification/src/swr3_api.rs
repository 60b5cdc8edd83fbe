//! The shape of the SWR3 "now playing" feed: the song value the rest of the
//! library works on, and the extraction of the currently airing song from a
//! fetched feed document.

use vstd::prelude::*;

verus! {

/// Mathematical value of a song: its title and artist as character sequences.
pub struct SongView {
    pub title: Seq<char>,
    pub artist: Seq<char>,
}

/// One entry of the feed's playlist. Equality is by (title, artist).
#[derive(Debug)]
pub struct Swr3Song {
    pub title: String,
    pub artist: String,
}

impl View for Swr3Song {
    type V = SongView;

    open spec fn view(&self) -> SongView {
        SongView { title: self.title@, artist: self.artist@ }
    }
}

impl Clone for Swr3Song {
    fn clone(&self) -> (r: Swr3Song)
        ensures
            r@ == self@,
    {
        Swr3Song { title: self.title.clone(), artist: self.artist.clone() }
    }
}

impl PartialEq for Swr3Song {
    fn eq(&self, other: &Swr3Song) -> (r: bool) {
        self.title == other.title && self.artist == other.artist
    }
}

impl vstd::std_specs::cmp::PartialEqSpecImpl for Swr3Song {
    open spec fn obeys_eq_spec() -> bool {
        true
    }

    open spec fn eq_spec(&self, other: &Swr3Song) -> bool {
        self@ == other@
    }
}

/// The feed document: a playlist whose first entry is the song now airing.
#[derive(Debug)]
pub struct Swr3ApiResponse {
    pub playlist: Vec<Swr3Song>,
}

impl Swr3ApiResponse {
    /// The currently airing song: the first playlist entry, or nothing when
    /// the feed reported an empty playlist.
    pub fn first_song(&self) -> (r: Option<Swr3Song>)
        ensures
            match r {
                Some(s) => self.playlist@.len() > 0 && s@ == self.playlist@[0]@,
                None => self.playlist@.len() == 0,
            },
    {
        if self.playlist.len() > 0 {
            Some(self.playlist[0].clone())
        } else {
            None
        }
    }
}

} // verus!

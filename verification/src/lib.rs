//! Core logic of a radio remix queuer: it follows a station's "now playing"
//! feed, decides when a new song is airing, builds the video search query for
//! it, and recommends how soon to poll again, giving up after a bounded
//! number of stale polls.

pub mod media;
pub mod query;
pub mod swr3_api;
pub mod tracker;
pub mod youtube_api;

//! The video-search side: the watch URL built from a video id, and the
//! memoization cache that maps a search query to the video URL it resolved
//! to, so a query repeated across poll cycles needs no second network call.
//! The cache is backed by `cached`'s unbounded store.

use vstd::prelude::*;
use vstd::string::StringExecFns;
use cached::Cached;
use cached::stores::UnboundCache;

verus! {

#[verifier::external_type_specification]
#[verifier::external_body]
#[verifier::reject_recursive_types(K)]
#[verifier::reject_recursive_types(V)]
#[verifier::reject_recursive_types(S)]
pub struct ExUnboundCache<K, V, S>(UnboundCache<K, V, S>);

/// The concrete store: search query strings to video URL strings.
pub type QueryStore = UnboundCache<String, String>;

/// What the store holds: the memoized video URL for each query string.
pub uninterp spec fn cache_contents(cache: QueryStore) -> Map<Seq<char>, Seq<char>>;

/// A cache with nothing memoized yet.
pub open spec fn no_entries() -> Map<Seq<char>, Seq<char>> {
    Map::empty()
}

/// Relies on `cached::stores::UnboundCache::new`: the freshly built cache
/// holds no entries.
#[verifier::external_body]
fn cache_new() -> (cache: VideoCache)
    ensures
        cache@ == no_entries(),
{
    VideoCache { store: UnboundCache::new() }
}

/// Relies on `cached::Cached::cache_get` on `UnboundCache`: a lookup in the
/// backing map, which touches only the hit and miss counters, never the
/// stored entries.
#[verifier::external_body]
fn cache_get_cloned(cache: &mut QueryStore, key: &String) -> (r: Option<String>)
    ensures
        cache_contents(*final(cache)) == cache_contents(*old(cache)),
        match r {
            Some(v) => cache_contents(*old(cache)).contains_key(key@) && v@ == cache_contents(
                *old(cache),
            )[key@],
            None => !cache_contents(*old(cache)).contains_key(key@),
        },
{
    cache.cache_get(key).cloned()
}

/// Relies on `cached::Cached::cache_set` on `UnboundCache`: an insert into
/// the backing map.
#[verifier::external_body]
fn cache_put(cache: &mut QueryStore, key: String, value: String)
    ensures
        cache_contents(*final(cache)) == cache_contents(*old(cache)).insert(key@, value@),
{
    let _ = cache.cache_set(key, value);
}

/// Memoizes video resolutions: a mapping from the query string to the video
/// URL it resolved to. Unbounded on purpose: query cardinality is small, one
/// live query at a time.
pub struct VideoCache {
    store: QueryStore,
}

impl View for VideoCache {
    type V = Map<Seq<char>, Seq<char>>;

    closed spec fn view(&self) -> Map<Seq<char>, Seq<char>> {
        cache_contents(self.store)
    }
}

impl VideoCache {
    /// An empty cache.
    pub fn new() -> (cache: VideoCache)
        ensures
            cache@ == no_entries(),
    {
        cache_new()
    }

    /// The memoized video URL for `query`, if one was recorded; the cache
    /// itself is left as it was.
    pub fn lookup(&mut self, query: &String) -> (r: Option<String>)
        ensures
            final(self)@ == old(self)@,
            match r {
                Some(url) => old(self)@.contains_key(query@) && url@ == old(self)@[query@],
                None => !old(self)@.contains_key(query@),
            },
    {
        cache_get_cloned(&mut self.store, query)
    }

    /// Records a freshly resolved URL for `query`. The first recorded result
    /// is kept: a query already memoized leaves the cache unchanged.
    pub fn record(&mut self, query: String, url: String)
        ensures
            final(self)@ == (if old(self)@.contains_key(query@) {
                old(self)@
            } else {
                old(self)@.insert(query@, url@)
            }),
    {
        let present = cache_get_cloned(&mut self.store, &query);
        if present.is_none() {
            cache_put(&mut self.store, query, url);
        }
    }
}

/// The public watch URL for a video id.
pub fn get_video_url(video_id: String) -> (url: String)
    ensures
        url@ == "https://www.youtube.com/watch?v="@ + video_id@,
{
    let base: String = "https://www.youtube.com/watch?v=".to_owned();
    base.concat(video_id.as_str())
}

} // verus!

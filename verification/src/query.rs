//! Search-query construction: normalizes the artist field the feed delivers
//! (separator characters stripped, the apostrophe entity decoded) and
//! composes the query string that biases the video search toward a remix.

use vstd::prelude::*;
use vstd::string::StrSliceExecFns;
use crate::swr3_api::{SongView, Swr3Song};

verus! {

/// The separator character the feed uses to join multiple artist names.
pub const ARTIST_SEPARATOR: char = ';';

/// The one HTML entity known to appear in the feed: the apostrophe.
pub open spec fn apostrophe_entity() -> Seq<char> {
    seq!['&', '#', '3', '9', ';']
}

/// The fixed keyword token appended to every query to bias search results
/// toward a remixed version of the song.
pub open spec fn remix_keyword() -> Seq<char> {
    seq!['r', 'e', 'm', 'i', 'x']
}

/// Best-effort entity decoding: every occurrence of the apostrophe entity
/// becomes an apostrophe; all other characters pass through unchanged. This
/// is not a general HTML-entity decoder.
pub open spec fn decode_entities(s: Seq<char>) -> Seq<char>
    decreases s.len(),
{
    if s.len() == 0 {
        Seq::empty()
    } else if s.len() >= 5 && s.subrange(0, 5) == apostrophe_entity() {
        seq!['\''] + decode_entities(s.skip(5))
    } else {
        seq![s[0]] + decode_entities(s.skip(1))
    }
}

/// The sequence with every separator character removed.
pub open spec fn strip_separators(s: Seq<char>) -> Seq<char>
    decreases s.len(),
{
    if s.len() == 0 {
        Seq::empty()
    } else if s[0] == ARTIST_SEPARATOR {
        strip_separators(s.skip(1))
    } else {
        seq![s[0]] + strip_separators(s.skip(1))
    }
}

/// The artist field as it goes into the query: entities decoded first, then
/// every separator stripped; the field stays one undifferentiated string.
pub open spec fn normalized_artist(artist: Seq<char>) -> Seq<char> {
    strip_separators(decode_entities(artist))
}

/// The full query: the normalized artist, the title in quotes, and the remix
/// keyword.
pub open spec fn query_of(song: SongView) -> Seq<char> {
    normalized_artist(song.artist) + seq![' ', '"'] + song.title + seq!['"', ' '] + remix_keyword()
}

/// The characters of a string slice, in order.
fn str_to_chars(s: &str) -> (v: Vec<char>)
    ensures
        v@ == s@,
{
    let n = s.unicode_len();
    let mut v: Vec<char> = Vec::new();
    for i in it: 0..n
        invariant
            n == s@.len(),
            v@.len() == i,
            forall|j: int| 0 <= j < i ==> v@[j] == s@[j],
    {
        v.push(s.get_char(i));
    }
    proof {
        assert(v@ =~= s@);
    }
    v
}

fn decode_entities_exec(input: &Vec<char>) -> (out: Vec<char>)
    ensures
        out@ == decode_entities(input@),
{
    let mut out: Vec<char> = Vec::new();
    let mut i: usize = 0;
    proof {
        assert(input@.skip(0) =~= input@);
        assert(out@ + decode_entities(input@) =~= decode_entities(input@));
    }
    while i < input.len()
        invariant
            i <= input@.len(),
            decode_entities(input@) == out@ + decode_entities(input@.skip(i as int)),
        decreases input@.len() - i,
    {
        let ghost rest = input@.skip(i as int);
        if input.len() - i >= 5 && *input.get(i).unwrap() == '&' && *input.get(i + 1).unwrap()
            == '#' && *input.get(i + 2).unwrap() == '3' && *input.get(i + 3).unwrap() == '9'
            && *input.get(i + 4).unwrap() == ';' {
            proof {
                assert(rest.subrange(0, 5) =~= apostrophe_entity());
                assert(rest.skip(5) =~= input@.skip(i + 5));
                assert(out@ + decode_entities(rest) =~= (out@ + seq!['\'']) + decode_entities(
                    input@.skip(i + 5),
                ));
            }
            out.push('\'');
            i = i + 5;
        } else {
            proof {
                if rest.len() >= 5 && rest.subrange(0, 5) == apostrophe_entity() {
                    assert(rest.subrange(0, 5)[0] == input@[i as int]);
                    assert(rest.subrange(0, 5)[1] == input@[i + 1]);
                    assert(rest.subrange(0, 5)[2] == input@[i + 2]);
                    assert(rest.subrange(0, 5)[3] == input@[i + 3]);
                    assert(rest.subrange(0, 5)[4] == input@[i + 4]);
                    assert(false);
                }
                assert(rest.skip(1) =~= input@.skip(i + 1));
                assert(rest[0] == input@[i as int]);
                assert(out@ + decode_entities(rest) =~= (out@ + seq![input@[i as int]])
                    + decode_entities(input@.skip(i + 1)));
            }
            let c = *input.get(i).unwrap();
            out.push(c);
            i = i + 1;
        }
    }
    proof {
        assert(input@.skip(i as int) =~= Seq::<char>::empty());
        assert(out@ + decode_entities(input@.skip(i as int)) =~= out@);
    }
    out
}

fn strip_separators_exec(input: &Vec<char>) -> (out: Vec<char>)
    ensures
        out@ == strip_separators(input@),
{
    let mut out: Vec<char> = Vec::new();
    let mut i: usize = 0;
    proof {
        assert(input@.skip(0) =~= input@);
        assert(out@ + strip_separators(input@) =~= strip_separators(input@));
    }
    while i < input.len()
        invariant
            i <= input@.len(),
            strip_separators(input@) == out@ + strip_separators(input@.skip(i as int)),
        decreases input@.len() - i,
    {
        let ghost rest = input@.skip(i as int);
        proof {
            assert(rest.skip(1) =~= input@.skip(i + 1));
            assert(rest[0] == input@[i as int]);
        }
        let c = *input.get(i).unwrap();
        if c != ARTIST_SEPARATOR {
            proof {
                assert(out@ + strip_separators(rest) =~= (out@ + seq![input@[i as int]])
                    + strip_separators(input@.skip(i + 1)));
            }
            out.push(c);
        }
        i = i + 1;
    }
    proof {
        assert(input@.skip(i as int) =~= Seq::<char>::empty());
        assert(out@ + strip_separators(input@.skip(i as int)) =~= out@);
    }
    out
}

/// Appends every character of `src` to `dst`, in order.
fn append_chars(dst: &mut Vec<char>, src: &Vec<char>)
    ensures
        final(dst)@ == old(dst)@ + src@,
{
    let ghost start = dst@;
    for i in it: 0..src.len()
        invariant
            dst@.len() == start.len() + i,
            forall|j: int| 0 <= j < start.len() ==> dst@[j] == start[j],
            forall|j: int| 0 <= j < i ==> dst@[start.len() + j] == src@[j],
    {
        dst.push(*src.get(i).unwrap());
    }
    proof {
        assert(dst@ =~= start + src@);
    }
}

/// Relies on `String`'s `FromIterator` impl, through `Iterator::collect`:
/// collecting characters yields the string of exactly those characters in
/// order.
#[verifier::external_body]
fn chars_to_string(chars: &Vec<char>) -> (s: String)
    ensures
        s@ == chars@,
{
    chars.iter().collect()
}

/// Returns the search query for a given `song`: the normalized artist, the
/// quoted title (to make sure the title is in the search results), and the
/// remix keyword.
pub fn get_yt_search_query(song: Swr3Song) -> (q: String)
    ensures
        q@ == query_of(song@),
{
    let artist_chars = str_to_chars(song.artist.as_str());
    let decoded = decode_entities_exec(&artist_chars);
    let mut buf = strip_separators_exec(&decoded);
    buf.push(' ');
    buf.push('"');
    let title_chars = str_to_chars(song.title.as_str());
    append_chars(&mut buf, &title_chars);
    buf.push('"');
    buf.push(' ');
    buf.push('r');
    buf.push('e');
    buf.push('m');
    buf.push('i');
    buf.push('x');
    proof {
        assert(buf@ =~= query_of(song@));
    }
    chars_to_string(&buf)
}

/// The apostrophe entity occurs in `s` at position `i`.
pub open spec fn entity_at(s: Seq<char>, i: int) -> bool {
    s.subrange(i, i + 5) == apostrophe_entity()
}

/// An artist field that holds no occurrence of the apostrophe entity.
pub open spec fn entity_free(s: Seq<char>) -> bool {
    forall|i: int| 0 <= i <= s.len() - 5 ==> !#[trigger] entity_at(s, i)
}

/// A field that holds no separator character.
pub open spec fn separator_free(s: Seq<char>) -> bool {
    forall|i: int| 0 <= i < s.len() ==> s[i] != ARTIST_SEPARATOR
}

proof fn lemma_decode_entities_noop(s: Seq<char>)
    requires
        entity_free(s),
    ensures
        decode_entities(s) == s,
    decreases s.len(),
{
    if s.len() == 0 {
        assert(decode_entities(s) =~= s);
    } else {
        if s.len() >= 5 {
            assert(!entity_at(s, 0));
            assert(s.subrange(0, 5) =~= s.subrange(0int, 0int + 5));
        }
        assert forall|i: int| 0 <= i <= s.skip(1).len() - 5 implies !#[trigger] entity_at(
            s.skip(1),
            i,
        ) by {
            assert(!entity_at(s, i + 1));
            assert(s.skip(1).subrange(i, i + 5) =~= s.subrange(i + 1, (i + 1) + 5));
        }
        lemma_decode_entities_noop(s.skip(1));
        assert(decode_entities(s) =~= seq![s[0]] + s.skip(1));
        assert(seq![s[0]] + s.skip(1) =~= s);
    }
}

proof fn lemma_strip_separators_noop(s: Seq<char>)
    requires
        separator_free(s),
    ensures
        strip_separators(s) == s,
    decreases s.len(),
{
    if s.len() == 0 {
        assert(strip_separators(s) =~= s);
    } else {
        lemma_strip_separators_noop(s.skip(1));
        assert(strip_separators(s) =~= seq![s[0]] + s.skip(1));
        assert(seq![s[0]] + s.skip(1) =~= s);
    }
}

/// Law: query construction is idempotent on inputs already free of
/// separators and entities — for such a song the query is exactly the artist
/// verbatim, the title verbatim in quotes, and the remix keyword.
pub proof fn lemma_query_plain_inputs(song: SongView)
    requires
        entity_free(song.artist),
        separator_free(song.artist),
    ensures
        query_of(song) == song.artist + seq![' ', '"'] + song.title + seq!['"', ' ']
            + remix_keyword(),
{
    lemma_decode_entities_noop(song.artist);
    lemma_strip_separators_noop(song.artist);
}

} // verus!

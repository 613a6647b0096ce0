//! What the library view shows: one artist entry per artist, and which songs
//! an artist entry shows when it is picked.

use vstd::prelude::*;
use crate::play_queue_song::{PlayQueueSong, SongView, songs_view};

verus! {

/// The artists of songs, in order.
pub open spec fn artists_of(songs: Seq<SongView>) -> Seq<Seq<char>> {
    songs.map_values(|s: SongView| s.artists)
}

/// The entry name of an artist: songs without artist metadata are listed
/// under "Unnamed Artist".
pub open spec fn artist_entry_name(artist: Seq<char>) -> Seq<char> {
    if artist.len() == 0 {
        "Unnamed Artist"@
    } else {
        artist
    }
}

/// Each artist's entry name once, in the order of first appearance.
pub open spec fn distinct_artists(artists: Seq<Seq<char>>) -> Seq<Seq<char>>
    decreases artists.len(),
{
    if artists.len() == 0 {
        Seq::<Seq<char>>::empty()
    } else {
        let prev = distinct_artists(artists.drop_last());
        let a = artist_entry_name(artists.last());
        if prev.contains(a) {
            prev
        } else {
            prev.push(a)
        }
    }
}

/// The entries of the artist view: "All" first, then each artist once, with
/// one "Unnamed Artist" entry for the songs without artist metadata.
pub open spec fn artist_labels(songs: Seq<SongView>) -> Seq<Seq<char>> {
    seq!["All"@] + distinct_artists(artists_of(songs))
}

/// The artist entries list the entry name of every song's artist exactly
/// once, and nothing else.
pub proof fn lemma_distinct_artists(artists: Seq<Seq<char>>)
    ensures
        distinct_artists(artists).no_duplicates(),
        forall|i: int|
            0 <= i < artists.len() ==> distinct_artists(artists).contains(
                artist_entry_name(#[trigger] artists[i]),
            ),
        forall|x: Seq<char>|
            #[trigger] distinct_artists(artists).contains(x) ==> exists|i: int|
                0 <= i < artists.len() && artist_entry_name(#[trigger] artists[i]) == x,
    decreases artists.len(),
{
    if artists.len() > 0 {
        let init = artists.drop_last();
        lemma_distinct_artists(init);
        let prev = distinct_artists(init);
        let a = artist_entry_name(artists.last());
        assert forall|i: int| 0 <= i < artists.len() implies distinct_artists(artists).contains(
            artist_entry_name(#[trigger] artists[i]),
        ) by {
            if i < artists.len() - 1 {
                assert(init[i] == artists[i]);
                assert(prev.contains(artist_entry_name(init[i])));
                if !prev.contains(a) {
                    let k = choose|k: int|
                        0 <= k < prev.len() && prev[k] == artist_entry_name(init[i]);
                    assert(prev.push(a)[k] == artist_entry_name(init[i]));
                }
            } else {
                if !prev.contains(a) {
                    assert(prev.push(a)[prev.len() as int] == a);
                }
            }
        }
        assert forall|x: Seq<char>| #[trigger] distinct_artists(artists).contains(x) implies exists|
            i: int,
        | 0 <= i < artists.len() && artist_entry_name(#[trigger] artists[i]) == x by {
            if prev.contains(x) {
                let k = choose|k: int| 0 <= k < init.len() && artist_entry_name(#[trigger] init[k]) == x;
                assert(artists[k] == init[k]);
            } else {
                assert(x == a);
                assert(artists[artists.len() - 1] == artists.last());
            }
        }
    }
}

/// Whether `v` holds a string equal to `s`.
fn contains_string(v: &Vec<String>, s: &String) -> (found: bool)
    ensures
        found == v@.map_values(|x: String| x@).contains(s@),
{
    let mut i: usize = 0;
    while i < v.len()
        invariant
            i <= v@.len(),
            forall|j: int| 0 <= j < i ==> v@[j]@ != s@,
        decreases v.len() - i,
    {
        if v[i] == *s {
            assert(v@.map_values(|x: String| x@)[i as int] == s@);
            return true;
        }
        i = i + 1;
    }
    proof {
        if v@.map_values(|x: String| x@).contains(s@) {
            let m = v@.map_values(|x: String| x@);
            let k = choose|k: int| 0 <= k < m.len() && #[trigger] m[k] == s@;
            assert(v@[k]@ == s@);
        }
    }
    false
}

/// The entries of the artist view for a music library: "All", then every
/// artist of its songs once, in order of first appearance; songs without an
/// artist share one "Unnamed Artist" entry.
pub fn artist_frame_labels(songs: &Vec<PlayQueueSong>) -> (labels: Vec<String>)
    ensures
        labels@.map_values(|x: String| x@) == artist_labels(songs_view(songs@)),
{
    let mut artists: Vec<String> = Vec::new();
    let ghost all = artists_of(songs_view(songs@));
    let mut i: usize = 0;
    assert(all.take(0) =~= Seq::<Seq<char>>::empty());
    assert(artists@.map_values(|x: String| x@) =~= Seq::<Seq<char>>::empty());
    while i < songs.len()
        invariant
            i <= songs@.len(),
            all == artists_of(songs_view(songs@)),
            artists@.map_values(|x: String| x@) == distinct_artists(all.take(i as int)),
        decreases songs.len() - i,
    {
        let artist = if songs[i]._song_artists.unicode_len() == 0 {
            String::from_str("Unnamed Artist")
        } else {
            songs[i]._song_artists.clone()
        };
        let ghost before = artists@;
        assert(all.take(i + 1).drop_last() =~= all.take(i as int));
        assert(artist_entry_name(all.take(i + 1).last()) == artist@);
        if !contains_string(&artists, &artist) {
            artists.push(artist);
            assert(artists@.map_values(|x: String| x@) =~= before.map_values(|x: String| x@).push(
                artist@,
            ));
        }
        i = i + 1;
    }
    assert(all.take(songs.len() as int) =~= all);
    let mut labels: Vec<String> = Vec::new();
    labels.push(String::from_str("All"));
    let mut k: usize = 0;
    while k < artists.len()
        invariant
            k <= artists@.len(),
            labels@.map_values(|x: String| x@) == seq!["All"@] + artists@.map_values(
                |x: String| x@,
            ).take(k as int),
        decreases artists.len() - k,
    {
        let ghost before = labels@;
        let c = artists[k].clone();
        labels.push(c);
        assert(labels@.map_values(|x: String| x@) =~= before.map_values(|x: String| x@).push(
            artists@[k as int]@,
        ));
        assert(labels@.map_values(|x: String| x@) =~= seq!["All"@] + artists@.map_values(
            |x: String| x@,
        ).take(k + 1));
        k = k + 1;
    }
    assert(artists@.map_values(|x: String| x@).take(artists.len() as int) =~= artists@.map_values(
        |x: String| x@,
    ));
    labels
}

/// Which songs of a library the entry `artist_name` shows when it is picked:
/// exactly the songs listed under that entry name. The "All" entry is no
/// exception: it shows the songs whose artist is named "All".
pub fn artist_song_visibility(artist_name: &str, songs: &Vec<PlayQueueSong>) -> (shown: Vec<bool>)
    ensures
        shown@.len() == songs@.len(),
        forall|i: int|
            0 <= i < songs@.len() ==> #[trigger] shown@[i] == (artist_entry_name(
                songs@[i]@.artists,
            ) == artist_name@),
{
    proof {
        reveal_strlit("Unnamed Artist");
    }
    let name = String::from_str(artist_name);
    let unnamed = String::from_str("Unnamed Artist");
    let mut shown: Vec<bool> = Vec::new();
    let mut i: usize = 0;
    while i < songs.len()
        invariant
            i <= songs@.len(),
            name@ == artist_name@,
            unnamed@ == "Unnamed Artist"@,
            shown@.len() == i,
            forall|j: int|
                0 <= j < i ==> #[trigger] shown@[j] == (artist_entry_name(songs@[j]@.artists)
                    == artist_name@),
        decreases songs.len() - i,
    {
        let artist = &songs[i]._song_artists;
        let listed = if artist.unicode_len() == 0 {
            unnamed == name
        } else {
            *artist == name
        };
        shown.push(listed);
        i = i + 1;
    }
    shown
}

} // verus!

//! The play queue, the position of the song being played, and the music
//! libraries opened so far.

use vstd::prelude::*;
use crate::play_queue_song::{PlayQueueSong, SongView, songs_view};
use crate::music_cache::{
    is_cache_line, song_of_cache_line, song_from_cache_line, storable_song, songs_cache_lines,
    songs_cache_text, lemma_cache_line_round_trip, lemma_cache_text_lines,
};
use crate::text::{split_seq, strings_view};

verus! {

/// Every song's index is its position in the list.
pub open spec fn positions_match(q: Seq<SongView>) -> bool {
    forall|i: int| 0 <= i < q.len() ==> (#[trigger] q[i]).index == i
}

/// The list with every song's index set to its position.
pub open spec fn renumber(q: Seq<SongView>) -> Seq<SongView> {
    Seq::new(q.len(), |i: int| SongView { index: i as usize, ..q[i] })
}

/// The play queue after the song at position `i` is taken out: the songs
/// after it move one place forward and are numbered by their new positions.
pub open spec fn queue_after_removal(q: Seq<SongView>, i: int) -> Seq<SongView> {
    renumber(q.remove(i))
}

/// The songs that cache lines describe, each at its line's position.
pub open spec fn songs_of_cache_lines(lines: Seq<Seq<char>>) -> Seq<SongView> {
    Seq::new(lines.len(), |i: int| song_of_cache_line(lines[i], i as usize))
}

/// Songs read from cache lines are numbered by position.
proof fn lemma_cache_lines_positions(lines: Seq<Seq<char>>)
    requires
        lines.len() <= usize::MAX,
    ensures
        positions_match(songs_of_cache_lines(lines)),
{
}

/// The index `increment_play_queue_index` moves to, before it is checked
/// against the queue's length: one more, or 0 where that overflows.
pub open spec fn incremented(index: usize) -> usize {
    if index == usize::MAX {
        0
    } else {
        (index + 1) as usize
    }
}

/// The play queue state as plain values.
pub struct PlayQueueStateView {
    pub queue: Seq<SongView>,
    pub index: usize,
    pub libraries: Seq<Seq<SongView>>,
}

/// The songs queued to play, the position of the current one, and the music
/// libraries read so far.
pub struct PlayQueueState {
    play_queue: Vec<PlayQueueSong>,
    play_queue_index: usize,
    music_libraries: Vec<Vec<PlayQueueSong>>,
}

impl View for PlayQueueState {
    type V = PlayQueueStateView;

    closed spec fn view(&self) -> PlayQueueStateView {
        PlayQueueStateView {
            queue: songs_view(self.play_queue@),
            index: self.play_queue_index,
            libraries: self.music_libraries@.map_values(|l: Vec<PlayQueueSong>| songs_view(l@)),
        }
    }
}

/// Reads cache lines into songs, each at its line's position.
fn songs_from_cache_lines(lines: &Vec<String>) -> (songs: Vec<PlayQueueSong>)
    requires
        forall|i: int| 0 <= i < lines@.len() ==> is_cache_line(#[trigger] lines@[i]@),
    ensures
        songs_view(songs@) == songs_of_cache_lines(strings_view(lines@)),
{
    let mut songs: Vec<PlayQueueSong> = Vec::new();
    let mut i: usize = 0;
    while i < lines.len()
        invariant
            i <= lines@.len(),
            forall|j: int| 0 <= j < lines@.len() ==> is_cache_line(#[trigger] lines@[j]@),
            songs_view(songs@) == songs_of_cache_lines(strings_view(lines@.take(i as int))),
        decreases lines.len() - i,
    {
        let ghost before = songs@;
        let song = song_from_cache_line(lines[i].as_str(), i);
        songs.push(song.clone());
        assert(strings_view(lines@.take(i + 1)) =~= strings_view(lines@.take(i as int)).push(
            lines@[i as int]@,
        ));
        assert(songs_view(songs@) =~= songs_view(before).push(song@));
        assert(songs_view(songs@) =~= songs_of_cache_lines(strings_view(lines@.take(i + 1))));
        i = i + 1;
    }
    assert(lines@.take(lines.len() as int) =~= lines@);
    songs
}

impl PlayQueueState {
    /// Every list that the state holds numbers its songs by position.
    pub closed spec fn wf(&self) -> bool {
        &&& positions_match(songs_view(self.play_queue@))
        &&& self.libraries_wf()
    }

    /// Every music library numbers its songs by position.
    closed spec fn libraries_wf(&self) -> bool {
        forall|l: int|
            0 <= l < self.music_libraries@.len() ==> positions_match(
                songs_view(#[trigger] self.music_libraries@[l]@),
            )
    }

    /// A well-formed state numbers the songs of its play queue and of every
    /// music library by position.
    pub proof fn lemma_wf_positions(&self)
        requires
            self.wf(),
        ensures
            positions_match(self@.queue),
            forall|l: int|
                0 <= l < self@.libraries.len() ==> positions_match(#[trigger] self@.libraries[l]),
    {
        assert forall|l: int| 0 <= l < self@.libraries.len() implies positions_match(
            #[trigger] self@.libraries[l],
        ) by {
            assert(self@.libraries[l] == songs_view(self.music_libraries@[l]@));
        }
    }

    /// An empty play queue at position 0, and no music library.
    pub fn new() -> (state: PlayQueueState)
        ensures
            state.wf(),
            state@.queue == Seq::<SongView>::empty(),
            state@.index == 0,
            state@.libraries == Seq::<Seq<SongView>>::empty(),
    {
        let state = PlayQueueState {
            play_queue: Vec::new(),
            play_queue_index: 0,
            music_libraries: Vec::new(),
        };
        assert(state@.queue =~= Seq::<SongView>::empty());
        assert(state@.libraries =~= Seq::<Seq<SongView>>::empty());
        state
    }

    /// The songs in the play queue.
    pub fn play_queue(&self) -> (q: &Vec<PlayQueueSong>)
        ensures
            songs_view(q@) == self@.queue,
    {
        &self.play_queue
    }

    /// The position of the current song in the play queue.
    pub fn play_queue_index(&self) -> (i: usize)
        ensures
            i == self@.index,
    {
        self.play_queue_index
    }

    /// How many music libraries are open.
    pub fn music_library_count(&self) -> (n: usize)
        ensures
            n == self@.libraries.len(),
    {
        self.music_libraries.len()
    }

    /// The songs of music library `which`.
    pub fn music_library(&self, which: usize) -> (lib: &Vec<PlayQueueSong>)
        requires
            which < self@.libraries.len(),
        ensures
            songs_view(lib@) == self@.libraries[which as int],
    {
        &self.music_libraries[which]
    }

    /// Replaces the play queue with the songs of cache lines (newlines
    /// removed), each at its line's position, and goes back to position 0.
    pub fn create_playqueue(&mut self, cached_file_lines: Vec<String>)
        requires
            old(self).wf(),
            forall|i: int|
                0 <= i < cached_file_lines@.len() ==> is_cache_line(
                    #[trigger] cached_file_lines@[i]@,
                ),
        ensures
            final(self).wf(),
            final(self)@.queue == songs_of_cache_lines(strings_view(cached_file_lines@)),
            final(self)@.index == 0,
            final(self)@.libraries == old(self)@.libraries,
    {
        self.play_queue_index = 0;
        let songs = songs_from_cache_lines(&cached_file_lines);
        proof {
            assert(strings_view(cached_file_lines@).len() == cached_file_lines.len());
            lemma_cache_lines_positions(strings_view(cached_file_lines@));
        }
        self.play_queue = songs;
        assert(self@.libraries =~= old(self)@.libraries);
    }

    /// Adds a music library made of the songs of cache lines (newlines
    /// removed), each at its line's position.
    pub fn open_music_lib(&mut self, music_lib_lines: Vec<String>)
        requires
            old(self).wf(),
            forall|i: int|
                0 <= i < music_lib_lines@.len() ==> is_cache_line(#[trigger] music_lib_lines@[i]@),
        ensures
            final(self).wf(),
            final(self)@.libraries == old(self)@.libraries.push(
                songs_of_cache_lines(strings_view(music_lib_lines@)),
            ),
            final(self)@.queue == old(self)@.queue,
            final(self)@.index == old(self)@.index,
    {
        let songs = songs_from_cache_lines(&music_lib_lines);
        proof {
            assert(strings_view(music_lib_lines@).len() == music_lib_lines.len());
            lemma_cache_lines_positions(strings_view(music_lib_lines@));
        }
        self.music_libraries.push(songs);
        assert(self@.libraries =~= old(self)@.libraries.push(
            songs_of_cache_lines(strings_view(music_lib_lines@)),
        ));
        assert(self@.queue =~= old(self)@.queue);
    }

    /// Makes the songs of cache lines (newlines removed) the main music
    /// library, the first one: it replaces the first library, or becomes it
    /// when none is open yet.
    pub fn open_and_set_main_lib(&mut self, music_lib_lines: Vec<String>)
        requires
            old(self).wf(),
            forall|i: int|
                0 <= i < music_lib_lines@.len() ==> is_cache_line(#[trigger] music_lib_lines@[i]@),
        ensures
            final(self).wf(),
            old(self)@.libraries.len() == 0 ==> final(self)@.libraries == seq![
                songs_of_cache_lines(strings_view(music_lib_lines@)),
            ],
            old(self)@.libraries.len() > 0 ==> final(self)@.libraries == old(self)@.libraries.update(
                0,
                songs_of_cache_lines(strings_view(music_lib_lines@)),
            ),
            final(self)@.queue == old(self)@.queue,
            final(self)@.index == old(self)@.index,
    {
        let songs = songs_from_cache_lines(&music_lib_lines);
        proof {
            assert(strings_view(music_lib_lines@).len() == music_lib_lines.len());
            lemma_cache_lines_positions(strings_view(music_lib_lines@));
        }
        if self.music_libraries.len() == 0 {
            self.music_libraries.push(songs);
            assert(self@.libraries =~= seq![songs_of_cache_lines(strings_view(music_lib_lines@))]);
        } else {
            self.music_libraries[0] = songs;
            assert(self@.libraries =~= old(self)@.libraries.update(
                0,
                songs_of_cache_lines(strings_view(music_lib_lines@)),
            ));
        }
        assert(self@.queue =~= old(self)@.queue);
    }

    /// Gives every song from position `adjust_after_index` on its position as
    /// index, so that indices and positions agree again after the list changed.
    fn adjust_playqueue(&mut self, adjust_after_index: usize)
        requires
            adjust_after_index <= old(self)@.queue.len(),
            positions_match(old(self)@.queue.take(adjust_after_index as int)),
            old(self).libraries_wf(),
        ensures
            final(self).wf(),
            final(self)@.queue == renumber(old(self)@.queue),
            final(self)@.index == old(self)@.index,
            final(self)@.libraries == old(self)@.libraries,
    {
        let play_queue_length = self.play_queue.len();
        let mut i = adjust_after_index;
        while i < play_queue_length
            invariant
                adjust_after_index <= i <= play_queue_length,
                play_queue_length == self.play_queue@.len(),
                play_queue_length == old(self)@.queue.len(),
                self.play_queue_index == old(self)@.index,
                self.music_libraries == old(self).music_libraries,
                forall|j: int|
                    adjust_after_index <= j < i ==> #[trigger] self.play_queue@[j]@ == (SongView {
                        index: j as usize,
                        ..old(self).play_queue@[j]@
                    }),
                forall|j: int|
                    0 <= j < adjust_after_index || i <= j < play_queue_length
                        ==> #[trigger] self.play_queue@[j] == old(self).play_queue@[j],
            decreases play_queue_length - i,
        {
            self.play_queue[i].index_in_play_queue = i;
            i = i + 1;
        }
        proof {
            assert forall|j: int| 0 <= j < play_queue_length implies #[trigger] self@.queue[j]
                == renumber(old(self)@.queue)[j] by {
                if j < adjust_after_index {
                    assert(old(self)@.queue.take(adjust_after_index as int)[j] == old(self)@.queue[j]);
                }
            }
            assert(self@.queue =~= renumber(old(self)@.queue));
            assert(self@.libraries =~= old(self)@.libraries);
            assert(renumber(old(self)@.queue).len() <= usize::MAX);
            lemma_renumber_positions(old(self)@.queue);
        }
    }

    /// Puts a song at position `index` of the play queue; the songs from there
    /// on move one place back, and every song's index is its new position.
    pub fn insert_song_into_playqueue(&mut self, pq_song: PlayQueueSong, index: usize)
        requires
            old(self).wf(),
            index <= old(self)@.queue.len(),
        ensures
            final(self).wf(),
            final(self)@.queue == renumber(old(self)@.queue.insert(index as int, pq_song@)),
            final(self)@.index == old(self)@.index,
            final(self)@.libraries == old(self)@.libraries,
    {
        let ghost song = pq_song@;
        self.play_queue.insert(index, pq_song);
        assert(self@.queue =~= old(self)@.queue.insert(index as int, song));
        assert(self@.queue.take(index as int) =~= old(self)@.queue.take(index as int));
        self.adjust_playqueue(index);
    }

    /// Puts a song at the end of the play queue, with its position as index.
    pub fn append_to_playqueue(&mut self, pq_song: PlayQueueSong)
        requires
            old(self).wf(),
        ensures
            final(self).wf(),
            final(self)@.queue == renumber(old(self)@.queue.push(pq_song@)),
            final(self)@.index == old(self)@.index,
            final(self)@.libraries == old(self)@.libraries,
    {
        let ghost song = pq_song@;
        let end = self.play_queue.len();
        self.play_queue.push(pq_song);
        assert(self@.queue =~= old(self)@.queue.push(song));
        assert(self@.queue.take(end as int) =~= old(self)@.queue);
        self.adjust_playqueue(end);
    }

    /// Takes the song at position `index` out of the play queue; the songs
    /// after it move one place forward, and every song's index is its new
    /// position.
    pub fn remove_from_playqueue(&mut self, index: usize)
        requires
            old(self).wf(),
            index < old(self)@.queue.len(),
        ensures
            final(self).wf(),
            final(self)@.queue == queue_after_removal(old(self)@.queue, index as int),
            final(self)@.index == old(self)@.index,
            final(self)@.libraries == old(self)@.libraries,
    {
        let _removed = self.play_queue.remove(index);
        assert(self@.queue =~= old(self)@.queue.remove(index as int));
        assert(self@.queue.take(index as int) =~= old(self)@.queue.take(index as int));
        self.adjust_playqueue(index);
    }

    /// Takes the song at position `rm_ind` out of the play queue, as
    /// `remove_from_playqueue` does.
    pub fn remove_song_at_index(&mut self, rm_ind: usize)
        requires
            old(self).wf(),
            rm_ind < old(self)@.queue.len(),
        ensures
            final(self).wf(),
            final(self)@.queue == queue_after_removal(old(self)@.queue, rm_ind as int),
            final(self)@.index == old(self)@.index,
            final(self)@.libraries == old(self)@.libraries,
    {
        self.remove_from_playqueue(rm_ind);
    }

    /// Moves to the next position, one more than the current one (or 0 where
    /// that overflows), when a song stands there; otherwise the end of the
    /// play queue was reached: the position stays and `None` comes back.
    pub fn increment_play_queue_index(&mut self) -> (r: Option<usize>)
        requires
            old(self).wf(),
        ensures
            final(self).wf(),
            incremented(old(self)@.index) >= old(self)@.queue.len() ==> {
                &&& r is None
                &&& final(self)@.index == old(self)@.index
            },
            incremented(old(self)@.index) < old(self)@.queue.len() ==> {
                &&& r == Some(incremented(old(self)@.index))
                &&& final(self)@.index == incremented(old(self)@.index)
            },
            final(self)@.queue == old(self)@.queue,
            final(self)@.libraries == old(self)@.libraries,
    {
        let pq_len = self.play_queue.len();
        let inc_ind = match self.play_queue_index.checked_add(1) {
            Some(n) => n,
            None => 0,
        };
        if inc_ind >= pq_len {
            None
        } else {
            self.play_queue_index = inc_ind;
            Some(inc_ind)
        }
    }

    /// Moves back one position and gives it; at position 0 the position stays
    /// and `None` comes back.
    pub fn decrement_play_queue_index(&mut self) -> (r: Option<usize>)
        requires
            old(self).wf(),
        ensures
            final(self).wf(),
            old(self)@.index == 0 ==> {
                &&& r is None
                &&& final(self)@.index == 0
            },
            old(self)@.index > 0 ==> {
                &&& r == Some((old(self)@.index - 1) as usize)
                &&& final(self)@.index == old(self)@.index - 1
            },
            final(self)@.queue == old(self)@.queue,
            final(self)@.libraries == old(self)@.libraries,
    {
        match self.play_queue_index.checked_sub(1) {
            Some(dec_ind) => {
                self.play_queue_index = dec_ind;
                Some(dec_ind)
            },
            None => None,
        }
    }

    /// Makes `new_pq_index` the current position.
    pub fn play_song_instant(&mut self, new_pq_index: usize)
        requires
            old(self).wf(),
        ensures
            final(self).wf(),
            final(self)@.index == new_pq_index,
            final(self)@.queue == old(self)@.queue,
            final(self)@.libraries == old(self)@.libraries,
    {
        self.play_queue_index = new_pq_index;
    }
}

/// Taking out the song just put at a position gives back the play queue as it
/// was, when its indices agreed with the positions.
pub proof fn lemma_insert_then_remove(q: Seq<SongView>, song: SongView, k: int)
    requires
        positions_match(q),
        0 <= k <= q.len(),
        q.len() < usize::MAX,
    ensures
        queue_after_removal(renumber(q.insert(k, song)), k) == q,
{
    let r = queue_after_removal(renumber(q.insert(k, song)), k);
    assert forall|i: int| 0 <= i < q.len() implies #[trigger] r[i] == q[i] by {
        assert(q[i].index == i);
        assert(r[i] =~= q[i]);
    }
    assert(r =~= q);
}

/// Renumbering a list whose indices already agree with its positions
/// changes nothing, and every renumbered list agrees.
pub proof fn lemma_renumber_positions(q: Seq<SongView>)
    requires
        q.len() <= usize::MAX,
    ensures
        positions_match(renumber(q)),
        positions_match(q) ==> renumber(q) == q,
{
    if positions_match(q) {
        assert forall|i: int| 0 <= i < q.len() implies #[trigger] renumber(q)[i] == q[i] by {
            assert(renumber(q)[i] =~= q[i]);
        }
        assert(renumber(q) =~= q);
    }
}

/// Songs written to a playlist or the song cache are read back as the same
/// songs, in the same order: the text splits at its newlines into one line
/// per song (and the empty rest after the last newline), and reading those
/// lines gives each song's path, title, album and artist, at its position.
pub proof fn lemma_playlist_round_trip(songs: Seq<SongView>)
    requires
        forall|i: int| 0 <= i < songs.len() ==> storable_song(#[trigger] songs[i]),
        songs.len() <= usize::MAX,
    ensures
        split_seq(songs_cache_text(songs), '\n') == songs_cache_lines(songs).push(
            Seq::<char>::empty(),
        ),
        forall|i: int|
            0 <= i < songs.len() ==> is_cache_line(#[trigger] songs_cache_lines(songs)[i]),
        songs_of_cache_lines(songs_cache_lines(songs)) == Seq::new(
            songs.len(),
            |i: int|
                SongView {
                    image_path: crate::play_queue_song::not_implemented_image_text(),
                    index: i as usize,
                    ..songs[i]
                },
        ),
{
    lemma_cache_text_lines(songs);
    let lines = songs_cache_lines(songs);
    assert forall|i: int| 0 <= i < songs.len() implies is_cache_line(#[trigger] lines[i]) by {
        lemma_cache_line_round_trip(songs[i], i as usize);
    }
    let read = songs_of_cache_lines(lines);
    let expected = Seq::new(
        songs.len(),
        |i: int|
            SongView {
                image_path: crate::play_queue_song::not_implemented_image_text(),
                index: i as usize,
                ..songs[i]
            },
    );
    assert forall|i: int| 0 <= i < songs.len() implies #[trigger] read[i] == expected[i] by {
        lemma_cache_line_round_trip(songs[i], i as usize);
    }
    assert(read =~= expected);
}

} // verus!

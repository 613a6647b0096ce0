//! A song as the play queue and the music libraries hold it.

use vstd::prelude::*;

verus! {

/// What a song is, as plain values.
pub struct SongView {
    pub path: Seq<char>,
    pub title: Seq<char>,
    pub album: Seq<char>,
    pub artists: Seq<char>,
    pub image_path: Seq<char>,
    pub index: usize,
}

/// A song: where it lies on disk, its metadata, and the position it was given
/// in the list (play queue or music library) that holds it.
pub struct PlayQueueSong {
    pub song_path: String,
    pub song_title: String,
    pub _song_album: String,
    pub _song_artists: String,
    pub _song_image_path: String,
    pub index_in_play_queue: usize,
}

impl View for PlayQueueSong {
    type V = SongView;

    open spec fn view(&self) -> SongView {
        SongView {
            path: self.song_path@,
            title: self.song_title@,
            album: self._song_album@,
            artists: self._song_artists@,
            image_path: self._song_image_path@,
            index: self.index_in_play_queue,
        }
    }
}

/// The text that stands for metadata that is not read yet.
pub open spec fn not_implemented_text() -> Seq<char> {
    "Not implemented yet"@
}

/// The text that stands for an image path that is not read yet.
pub open spec fn not_implemented_image_text() -> Seq<char> {
    "Not implemented yet."@
}

/// The views of a sequence of songs.
pub open spec fn songs_view(v: Seq<PlayQueueSong>) -> Seq<SongView> {
    v.map_values(|s: PlayQueueSong| s@)
}

impl Clone for PlayQueueSong {
    fn clone(&self) -> (res: Self)
        ensures
            res@ == self@,
    {
        PlayQueueSong {
            song_path: self.song_path.clone(),
            song_title: self.song_title.clone(),
            _song_album: self._song_album.clone(),
            _song_artists: self._song_artists.clone(),
            _song_image_path: self._song_image_path.clone(),
            index_in_play_queue: self.index_in_play_queue,
        }
    }
}

impl PlayQueueSong {
    /// A song known by its path and title only; the artist and image path
    /// hold placeholder texts, the album is empty and the index is 0.
    pub fn new(song_path: String, song_title: String) -> (song: PlayQueueSong)
        ensures
            song@.path == song_path@,
            song@.title == song_title@,
            song@.album == Seq::<char>::empty(),
            song@.artists == not_implemented_text(),
            song@.image_path == not_implemented_image_text(),
            song@.index == 0,
    {
        let _song_artists = String::from_str("Not implemented yet");
        let _song_image_path = String::from_str("Not implemented yet.");
        PlayQueueSong {
            song_path,
            song_title,
            _song_album: String::new(),
            _song_artists,
            _song_image_path,
            index_in_play_queue: 0,
        }
    }

    /// A song with the metadata a cache line holds, at position `index` of its
    /// list; the image path holds the placeholder text.
    pub fn from_cache_fields(
        song_path: String,
        song_title: String,
        song_album: String,
        song_artists: String,
        index: usize,
    ) -> (song: PlayQueueSong)
        ensures
            song@.path == song_path@,
            song@.title == song_title@,
            song@.album == song_album@,
            song@.artists == song_artists@,
            song@.image_path == not_implemented_image_text(),
            song@.index == index,
    {
        PlayQueueSong {
            song_path,
            song_title,
            _song_album: song_album,
            _song_artists: song_artists,
            _song_image_path: String::from_str("Not implemented yet."),
            index_in_play_queue: index,
        }
    }
}

} // verus!

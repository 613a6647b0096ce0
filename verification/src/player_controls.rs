//! The decisions behind the player's controls: the previous, next and
//! play/pause buttons, the text shown for the song being played, and the
//! menus of a song entry.

use vstd::prelude::*;
use crate::play_queue_song::{PlayQueueSong, SongView, songs_view};
use crate::play_queue::{PlayQueueState, incremented};
use crate::audio_media_player::MpMessage;
use crate::colors_handler::JedMP_Colors;
use crate::text::{split_seq, split_on, strings_view};

verus! {

/// The text that tells others which song is playing: title, " - ", artist.
pub open spec fn now_playing_text(s: SongView) -> Seq<char> {
    s.title + " - "@ + s.artists
}

/// The text that tells others which song is playing.
pub fn now_playing_details(song: &PlayQueueSong) -> (text: String)
    ensures
        text@ == now_playing_text(song@),
        text@ == song.song_title@ + " - "@ + song._song_artists@,
{
    let mut text = song.song_title.clone();
    text.append(" - ");
    text.append(song._song_artists.as_str());
    text
}

/// The text telling which song plays starts with the song's own title,
/// then " - ", and ends with its artist.
pub proof fn lemma_now_playing_parts(s: SongView)
    ensures
        now_playing_text(s).len() == s.title.len() + 3 + s.artists.len(),
        now_playing_text(s).take(s.title.len() as int) == s.title,
        now_playing_text(s).subrange(s.title.len() as int, s.title.len() as int + 3) == seq![' ', '-', ' '],
        now_playing_text(s).skip(s.title.len() as int + 3) == s.artists,
{
    reveal_strlit(" - ");
    let t = now_playing_text(s);
    assert(t.take(s.title.len() as int) =~= s.title);
    assert(t.subrange(s.title.len() as int, s.title.len() as int + 3) =~= seq![' ', '-', ' ']);
    assert(t.skip(s.title.len() as int + 3) =~= s.artists);
}

/// The position the previous button plays: the one before the current
/// position, or position 0 when already there.
pub open spec fn previous_position(index: usize) -> usize {
    if index == 0 {
        0
    } else {
        (index - 1) as usize
    }
}

/// Goes back a song: moves to the position before the current one (staying
/// at position 0, which is then played again) and gives the song there.
pub fn song_for_previous_button(state: &mut PlayQueueState) -> (song: PlayQueueSong)
    requires
        old(state).wf(),
        previous_position(old(state)@.index) < old(state)@.queue.len(),
    ensures
        final(state).wf(),
        final(state)@.index == previous_position(old(state)@.index),
        final(state)@.queue == old(state)@.queue,
        final(state)@.libraries == old(state)@.libraries,
        song@ == old(state)@.queue[previous_position(old(state)@.index) as int],
{
    let play_ind = match state.decrement_play_queue_index() {
        Some(i) => i,
        None => 0,
    };
    let q = state.play_queue();
    assert(songs_view(q@)[play_ind as int] == q@[play_ind as int]@);
    q[play_ind].clone()
}

/// What the next button does.
pub enum NextButtonAction {
    /// The end of the play queue was reached: pause the player.
    PausePlayback,
    /// Play this song.
    PlaySong(PlayQueueSong),
}

/// Moves to the next position of the play queue and says what to do: play
/// the song there, or pause when the end of the queue was reached.
pub fn next_button_action(state: &mut PlayQueueState) -> (action: NextButtonAction)
    requires
        old(state).wf(),
    ensures
        final(state).wf(),
        final(state)@.queue == old(state)@.queue,
        final(state)@.libraries == old(state)@.libraries,
        incremented(old(state)@.index) >= old(state)@.queue.len() ==> {
            &&& action is PausePlayback
            &&& final(state)@.index == old(state)@.index
        },
        incremented(old(state)@.index) < old(state)@.queue.len() ==> {
            &&& final(state)@.index == incremented(old(state)@.index)
            &&& action matches NextButtonAction::PlaySong(s) && s@ == old(
                state,
            )@.queue[incremented(old(state)@.index) as int]
        },
{
    match state.increment_play_queue_index() {
        None => NextButtonAction::PausePlayback,
        Some(i) => {
            let q = state.play_queue();
            assert(songs_view(q@)[i as int] == q@[i as int]@);
            NextButtonAction::PlaySong(q[i].clone())
        },
    }
}

/// What the play/pause button does.
pub struct PauseButtonAction {
    /// The song to load and start, if any.
    pub song: Option<PlayQueueSong>,
    /// The request to send to the player after that, if any.
    pub message: Option<MpMessage>,
    /// The button's new label, if it changes.
    pub label: Option<String>,
    /// Whether the next press must load the current song again.
    pub reload_sink: bool,
}

/// Decides what the play/pause button does. Only when the current song must
/// be loaded again (`reload_sink`) and the play queue is not empty does it do
/// anything: it loads the current song, stops asking for a reload, and turns
/// a "Play" button into "Pause" (sending play) or a "Pause" button into
/// "Play" (sending pause).
pub fn pause_button_action(state: &PlayQueueState, reload_sink: bool, label: &str) -> (action:
    PauseButtonAction)
    requires
        reload_sink && state@.queue.len() > 0 ==> state@.index < state@.queue.len(),
    ensures
        !(reload_sink && state@.queue.len() > 0) ==> {
            &&& action.song is None
            &&& action.message is None
            &&& action.label is None
            &&& action.reload_sink == reload_sink
        },
        reload_sink && state@.queue.len() > 0 ==> {
            &&& action.song matches Some(s) && s@ == state@.queue[state@.index as int]
            &&& !action.reload_sink
            &&& label@ == "Play"@ ==> (action.message == Some(MpMessage::Play) && (action.label
                matches Some(l) && l@ == "Pause"@))
            &&& label@ == "Pause"@ ==> (action.message == Some(MpMessage::Pause) && (action.label
                matches Some(l) && l@ == "Play"@))
            &&& label@ != "Play"@ && label@ != "Pause"@ ==> action.message is None
                && action.label is None
        },
{
    proof {
        reveal_strlit("Play");
        reveal_strlit("Pause");
        assert("Play"@ != "Pause"@) by {
            assert("Play"@.len() != "Pause"@.len());
        }
    }
    let q = state.play_queue();
    if reload_sink && q.len() > 0 {
        let ind = state.play_queue_index();
        assert(songs_view(q@)[ind as int] == q@[ind as int]@);
        let song = q[ind].clone();
        let l = String::from_str(label);
        if l == String::from_str("Play") {
            PauseButtonAction {
                song: Some(song),
                message: Some(MpMessage::Play),
                label: Some(String::from_str("Pause")),
                reload_sink: false,
            }
        } else if l == String::from_str("Pause") {
            PauseButtonAction {
                song: Some(song),
                message: Some(MpMessage::Pause),
                label: Some(String::from_str("Play")),
                reload_sink: false,
            }
        } else {
            PauseButtonAction { song: Some(song), message: None, label: None, reload_sink: false }
        }
    } else {
        PauseButtonAction { song: None, message: None, label: None, reload_sink }
    }
}

/// Where a song entry stands: in a music library or in the play queue.
pub enum SongIdentifierType {
    LIBRARY,
    PLAYQUEUE,
}

/// The menu of a song entry in a music library.
pub open spec fn library_options() -> Seq<char> {
    "Add To Queue,Insert Next,Add To Playlist"@
}

/// The menu of a song entry in the play queue.
pub open spec fn playqueue_options() -> Seq<char> {
    "Remove This,Play Now,Stop after"@
}

/// The menu text of an entry of this kind.
pub open spec fn options_of(kind: SongIdentifierType) -> Seq<char> {
    match kind {
        SongIdentifierType::LIBRARY => library_options(),
        SongIdentifierType::PLAYQUEUE => playqueue_options(),
    }
}

/// The choices of the menu of a song entry, in order.
pub fn popup_choices(kind: &SongIdentifierType) -> (choices: Vec<String>)
    ensures
        strings_view(choices@) == split_seq(options_of(*kind), ','),
{
    match kind {
        SongIdentifierType::LIBRARY => split_on("Add To Queue,Insert Next,Add To Playlist", ','),
        SongIdentifierType::PLAYQUEUE => split_on("Remove This,Play Now,Stop after", ','),
    }
}

/// The colour role of a song entry's text: library songs and queued songs
/// have their own.
pub fn song_text_color(kind: &SongIdentifierType) -> (role: JedMP_Colors)
    ensures
        *kind is LIBRARY ==> role is Libary_Song_text_color,
        *kind is PLAYQUEUE ==> role is Playqueue_Song_text_color,
{
    match kind {
        SongIdentifierType::LIBRARY => JedMP_Colors::Libary_Song_text_color,
        SongIdentifierType::PLAYQUEUE => JedMP_Colors::Playqueue_Song_text_color,
    }
}

/// The events the presence thread is told about.
pub enum DrpcEvents {
    UpdateActivity,
}

} // verus!

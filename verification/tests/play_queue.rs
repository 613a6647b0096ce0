use jedmp::music_cache::process_multiple_songs_to_string;
use jedmp::play_queue::PlayQueueState;
use jedmp::play_queue_song::PlayQueueSong;

fn song(path: &str, title: &str, artist: &str, index: usize) -> PlayQueueSong {
    PlayQueueSong::from_cache_fields(
        path.to_string(),
        title.to_string(),
        String::new(),
        artist.to_string(),
        index,
    )
}

fn lines(v: &[&str]) -> Vec<String> {
    v.iter().map(|s| s.to_string()).collect()
}

fn titles(state: &PlayQueueState) -> Vec<String> {
    state.play_queue().iter().map(|s| s.song_title.clone()).collect()
}

fn indices(state: &PlayQueueState) -> Vec<usize> {
    state.play_queue().iter().map(|s| s.index_in_play_queue).collect()
}

fn three_song_state() -> PlayQueueState {
    let mut st = PlayQueueState::new();
    st.create_playqueue(lines(&["/a\0A\0\0X", "/b\0B\0\0Y", "/c\0C\0\0X"]));
    st
}

#[test]
fn create_playqueue_reads_lines_in_order() {
    let mut st = PlayQueueState::new();
    st.play_song_instant(7);
    st.create_playqueue(lines(&["/a\0A\0al\0X", "/b\0B\0\0Y"]));
    assert_eq!(st.play_queue_index(), 0);
    assert_eq!(titles(&st), vec!["A", "B"]);
    assert_eq!(indices(&st), vec![0, 1]);
    assert_eq!(st.play_queue()[0]._song_album, "al");
    assert_eq!(st.play_queue()[1]._song_artists, "Y");
    assert_eq!(st.music_library_count(), 0);
}

#[test]
fn open_music_lib_adds_a_library() {
    let mut st = PlayQueueState::new();
    st.open_music_lib(lines(&["/a\0A\0\0X"]));
    st.open_music_lib(lines(&["/b\0B\0\0Y", "/c\0C\0\0Z"]));
    assert_eq!(st.music_library_count(), 2);
    assert_eq!(st.music_library(1)[1].song_title, "C");
    assert_eq!(st.music_library(1)[1].index_in_play_queue, 1);
    assert!(st.play_queue().is_empty());
}

#[test]
fn written_playlist_reads_back() {
    let songs = vec![song("/a", "A", "X", 5), song("/b", "B", "", 9)];
    let text = process_multiple_songs_to_string(songs);
    let read: Vec<String> = text.lines().map(|l| l.to_string()).collect();
    let mut st = PlayQueueState::new();
    st.create_playqueue(read);
    assert_eq!(titles(&st), vec!["A", "B"]);
    assert_eq!(indices(&st), vec![0, 1]);
    assert_eq!(st.play_queue()[0]._song_artists, "X");
}

#[test]
fn insert_renumbers_songs() {
    let mut st = three_song_state();
    st.insert_song_into_playqueue(song("/n", "N", "", 42), 1);
    assert_eq!(titles(&st), vec!["A", "N", "B", "C"]);
    assert_eq!(indices(&st), vec![0, 1, 2, 3]);
    assert_eq!(st.play_queue_index(), 0);
}

#[test]
fn insert_at_end_and_append() {
    let mut st = three_song_state();
    st.insert_song_into_playqueue(song("/n", "N", "", 42), 3);
    st.append_to_playqueue(song("/m", "M", "", 17));
    assert_eq!(titles(&st), vec!["A", "B", "C", "N", "M"]);
    assert_eq!(indices(&st), vec![0, 1, 2, 3, 4]);
}

#[test]
fn both_removals_agree() {
    let mut a = three_song_state();
    let mut b = three_song_state();
    a.remove_from_playqueue(1);
    b.remove_song_at_index(1);
    assert_eq!(titles(&a), titles(&b));
    assert_eq!(indices(&a), indices(&b));
    assert_eq!(a.play_queue_index(), b.play_queue_index());
}

#[test]
fn remove_renumbers_songs() {
    let mut st = three_song_state();
    st.remove_from_playqueue(0);
    assert_eq!(titles(&st), vec!["B", "C"]);
    assert_eq!(indices(&st), vec![0, 1]);
    st.remove_song_at_index(1);
    assert_eq!(titles(&st), vec!["B"]);
    assert_eq!(indices(&st), vec![0]);
}

#[test]
fn insert_then_remove_restores_queue() {
    let mut st = three_song_state();
    st.insert_song_into_playqueue(song("/n", "N", "", 42), 2);
    st.remove_song_at_index(2);
    assert_eq!(titles(&st), vec!["A", "B", "C"]);
    assert_eq!(indices(&st), vec![0, 1, 2]);
}

#[test]
fn increment_stops_at_the_last_song() {
    let mut st = three_song_state();
    assert_eq!(st.increment_play_queue_index(), Some(1));
    assert_eq!(st.increment_play_queue_index(), Some(2));
    assert_eq!(st.increment_play_queue_index(), None);
    assert_eq!(st.play_queue_index(), 2);
}

#[test]
fn increment_with_two_songs_at_the_second() {
    let mut st = PlayQueueState::new();
    st.append_to_playqueue(song("/a", "A", "", 0));
    st.append_to_playqueue(song("/b", "B", "", 0));
    st.play_song_instant(1);
    assert_eq!(st.increment_play_queue_index(), None);
    assert_eq!(st.play_queue_index(), 1);
}

#[test]
fn increment_wraps_on_overflow() {
    let mut st = three_song_state();
    st.play_song_instant(usize::MAX);
    assert_eq!(st.increment_play_queue_index(), Some(0));
    assert_eq!(st.play_queue_index(), 0);
}

#[test]
fn decrement_goes_back_one_song() {
    let mut st = three_song_state();
    assert_eq!(st.decrement_play_queue_index(), None);
    assert_eq!(st.play_queue_index(), 0);
    st.play_song_instant(2);
    assert_eq!(st.decrement_play_queue_index(), Some(1));
    assert_eq!(st.decrement_play_queue_index(), Some(0));
    assert_eq!(st.decrement_play_queue_index(), None);
    assert_eq!(st.play_queue_index(), 0);
}

#[test]
fn empty_queue_increment() {
    let mut st = PlayQueueState::new();
    assert_eq!(st.increment_play_queue_index(), None);
    assert_eq!(st.play_queue_index(), 0);
}

#[test]
fn main_library_is_set_or_replaced() {
    let mut st = PlayQueueState::new();
    st.open_and_set_main_lib(lines(&["/a\0A\0\0X"]));
    assert_eq!(st.music_library_count(), 1);
    st.open_music_lib(lines(&["/z\0Z\0\0Q"]));
    st.open_and_set_main_lib(lines(&["/b\0B\0\0Y", "/c\0C\0\0Z"]));
    assert_eq!(st.music_library_count(), 2);
    assert_eq!(st.music_library(0).len(), 2);
    assert_eq!(st.music_library(0)[0].song_title, "B");
    assert_eq!(st.music_library(1)[0].song_title, "Z");
}

use jedmp::music_cache::{
    file_extension, is_cache_line_text, is_supported_audio_file, process_existing_song_to_string,
    process_multiple_songs_to_string, song_cache_entry_for_file, song_from_cache_line,
    title_from_file_name,
};
use jedmp::play_queue_song::PlayQueueSong;
use jedmp::text::split_on;

fn song(path: &str, title: &str, album: &str, artist: &str, index: usize) -> PlayQueueSong {
    PlayQueueSong::from_cache_fields(
        path.to_string(),
        title.to_string(),
        album.to_string(),
        artist.to_string(),
        index,
    )
}

#[test]
fn split_on_keeps_empty_pieces() {
    assert_eq!(split_on("a\0b", '\0'), vec!["a", "b"]);
    assert_eq!(split_on("", '\0'), vec![""]);
    assert_eq!(split_on("a\0", '\0'), vec!["a", ""]);
    assert_eq!(split_on("\0\0", '\0'), vec!["", "", ""]);
    assert_eq!(split_on("héllo,wörld", ','), vec!["héllo", "wörld"]);
}

#[test]
fn new_song_has_placeholders() {
    let s = PlayQueueSong::new("/m/a.mp3".to_string(), "A".to_string());
    assert_eq!(s.song_path, "/m/a.mp3");
    assert_eq!(s.song_title, "A");
    assert_eq!(s._song_album, "");
    assert_eq!(s._song_artists, "Not implemented yet");
    assert_eq!(s._song_image_path, "Not implemented yet.");
    assert_eq!(s.index_in_play_queue, 0);
}

#[test]
fn cache_line_of_a_song() {
    let s = song("/m/a.mp3", "Song A", "Album", "Artist", 3);
    assert_eq!(
        process_existing_song_to_string(s),
        "/m/a.mp3\0Song A\0Album\0Artist\n"
    );
}

#[test]
fn cache_lines_of_several_songs() {
    let songs = vec![song("/a", "A", "", "X", 0), song("/b", "B", "Al", "", 1)];
    assert_eq!(
        process_multiple_songs_to_string(songs),
        "/a\0A\0\0X\n/b\0B\0Al\0\n"
    );
    assert_eq!(process_multiple_songs_to_string(Vec::new()), "");
}

#[test]
fn cache_line_is_read_back() {
    let written = song("/m/a.mp3", "Song A", "Album", "Artist", 9);
    let line = process_existing_song_to_string(written.clone());
    let body = line.strip_suffix('\n').unwrap();
    let back = song_from_cache_line(body, 4);
    assert_eq!(back.song_path, written.song_path);
    assert_eq!(back.song_title, written.song_title);
    assert_eq!(back._song_album, written._song_album);
    assert_eq!(back._song_artists, written._song_artists);
    assert_eq!(back._song_image_path, "Not implemented yet.");
    assert_eq!(back.index_in_play_queue, 4);
}

#[test]
fn cache_line_extra_fields_are_ignored() {
    let back = song_from_cache_line("p\0t\0a\0r\0extra", 0);
    assert_eq!(back._song_artists, "r");
}

#[test]
fn extensions_and_supported_files() {
    assert_eq!(file_extension("/music/x.flac"), "flac");
    assert_eq!(file_extension("/music/x.tar.gz"), "gz");
    assert_eq!(file_extension("noext"), "noext");
    assert!(is_supported_audio_file("/music/a.mp3"));
    assert!(is_supported_audio_file("/music/a.b.opus"));
    assert!(is_supported_audio_file("/music/a.mace"));
    assert!(!is_supported_audio_file("/music/a.MP3"));
    assert!(!is_supported_audio_file("/music/cover.jpg"));
    assert!(!is_supported_audio_file("/music/noext"));
}

#[test]
fn missing_title_becomes_file_name() {
    assert_eq!(
        song_cache_entry_for_file("/m/dir/track.mp3", "", "Al", "Ar"),
        "/m/dir/track.mp3\0track.mp3\0Al\0Ar\n"
    );
    assert_eq!(
        song_cache_entry_for_file("/m/dir/track.mp3", "Real", "Al", "Ar"),
        "/m/dir/track.mp3\0Real\0Al\0Ar\n"
    );
}

#[test]
fn title_from_file_name_stops_at_first_dot() {
    assert_eq!(title_from_file_name("/home/u/Music/my.song.mp3"), "my");
    assert_eq!(title_from_file_name("plain"), "plain");
    assert_eq!(title_from_file_name("/dir/"), "");
}

#[test]
fn cache_line_check() {
    assert!(is_cache_line_text("p\0t\0a\0r"));
    assert!(is_cache_line_text("\0\0\0"));
    assert!(!is_cache_line_text("p\0t\0a"));
    assert!(!is_cache_line_text(""));
}

#[test]
fn cache_text_of_joined_lists() {
    let a = vec![song("/a", "A", "", "X", 0)];
    let b = vec![song("/b", "B", "Al", "", 1), song("/c", "C", "", "Z", 2)];
    let mut ab = a.clone();
    ab.extend(b.clone());
    let joined = process_multiple_songs_to_string(ab);
    let parts = process_multiple_songs_to_string(a.clone()) + &process_multiple_songs_to_string(b);
    assert_eq!(joined, parts);
    assert_eq!(process_multiple_songs_to_string(a.clone()), process_existing_song_to_string(a[0].clone()));
}

use jedmp::colors_handler::JedMP_Colors;
use jedmp::jedmp_paths::{
    cmd_arg_action, get_jedmp_dir, get_jedmp_master_color_file_path, get_jedmp_musiccache_path,
    get_jedmp_playlist_dir, jedmp_dir_for, master_colorrc_path_for, music_cache_path_for,
    playlist_dir_for, playlist_file_path, CmdArgAction,
};
use jedmp::library_view::{artist_frame_labels, artist_song_visibility};
use jedmp::play_queue::PlayQueueState;
use jedmp::play_queue_song::PlayQueueSong;
use jedmp::audio_media_player::MpMessage;
use jedmp::player_controls::{
    next_button_action, now_playing_details, pause_button_action, popup_choices,
    song_for_previous_button, song_text_color, NextButtonAction, SongIdentifierType,
};

fn song(title: &str, artist: &str, index: usize) -> PlayQueueSong {
    PlayQueueSong::from_cache_fields(
        format!("/m/{title}.mp3"),
        title.to_string(),
        String::new(),
        artist.to_string(),
        index,
    )
}

fn state_with(n: usize) -> PlayQueueState {
    let mut st = PlayQueueState::new();
    let lines: Vec<String> = (0..n).map(|i| format!("/m/{i}.mp3\0T{i}\0\0A{i}")).collect();
    st.create_playqueue(lines);
    st
}

#[test]
fn paths_of_the_player_directory() {
    assert_eq!(jedmp_dir_for("jeday"), "/home/jeday/.jedmp");
    let dir = get_jedmp_dir();
    assert!(dir.starts_with("/home/") && dir.ends_with("/.jedmp"));
    assert_eq!(get_jedmp_playlist_dir(), format!("{dir}/playlists"));
    assert_eq!(get_jedmp_musiccache_path(), format!("{dir}/music_cache"));
    assert_eq!(get_jedmp_master_color_file_path(), format!("{dir}/master_colorrc"));
    assert_eq!(playlist_dir_for("u"), "/home/u/.jedmp/playlists");
    assert_eq!(music_cache_path_for("u"), "/home/u/.jedmp/music_cache");
    assert_eq!(master_colorrc_path_for("u"), "/home/u/.jedmp/master_colorrc");
    assert_eq!(playlist_file_path("/home/u/.jedmp/playlists", "Chill"), "/home/u/.jedmp/playlists/Chill");
}

#[test]
fn command_line_arguments() {
    assert!(matches!(cmd_arg_action("-h"), Some(CmdArgAction::ShowHelp)));
    assert!(matches!(cmd_arg_action("-ra"), Some(CmdArgAction::RemoveAll)));
    assert!(matches!(cmd_arg_action("-rp"), Some(CmdArgAction::RemovePlaylists)));
    assert!(matches!(cmd_arg_action("-rm"), Some(CmdArgAction::RemoveMusicCache)));
    assert!(matches!(cmd_arg_action("-rc"), Some(CmdArgAction::RemoveColorrc)));
    assert!(cmd_arg_action("rm").is_none());
    assert!(cmd_arg_action("-x").is_none());
    assert!(cmd_arg_action("/usr/bin/jedmp").is_none());
}

#[test]
fn artist_view_lists_each_artist_once() {
    let songs = vec![song("a", "X", 0), song("b", "", 1), song("c", "Y", 2), song("d", "X", 3)];
    assert_eq!(artist_frame_labels(&songs), vec!["All", "X", "Unnamed Artist", "Y"]);
    let songs2 = vec![song("a", "B", 0), song("b", "A", 1), song("c", "B", 2), song("d", "", 3)];
    assert_eq!(artist_frame_labels(&songs2), vec!["All", "B", "A", "Unnamed Artist"]);
    assert_eq!(artist_frame_labels(&Vec::new()), vec!["All"]);
}

#[test]
fn artist_entry_shows_only_its_songs() {
    let songs = vec![song("a", "X", 0), song("b", "", 1), song("c", "Y", 2), song("d", "X", 3)];
    assert_eq!(artist_song_visibility("X", &songs), vec![true, false, false, true]);
    assert_eq!(artist_song_visibility("All", &songs), vec![false, false, false, false]);
    let with_all = vec![song("a", "All", 0), song("b", "X", 1)];
    assert_eq!(artist_song_visibility("All", &with_all), vec![true, false]);
    assert_eq!(artist_song_visibility("Unnamed Artist", &songs), vec![false, true, false, false]);
}

#[test]
fn now_playing_text() {
    assert_eq!(now_playing_details(&song("Hey", "Band", 0)), "Hey - Band");
}

#[test]
fn previous_button() {
    let mut st = state_with(3);
    assert_eq!(song_for_previous_button(&mut st).song_title, "T0");
    assert_eq!(st.play_queue_index(), 0);
    st.play_song_instant(2);
    assert_eq!(song_for_previous_button(&mut st).song_title, "T1");
    assert_eq!(st.play_queue_index(), 1);
    assert_eq!(song_for_previous_button(&mut st).song_title, "T0");
    assert_eq!(st.play_queue_index(), 0);
}

#[test]
fn next_button() {
    let mut st = state_with(3);
    match next_button_action(&mut st) {
        NextButtonAction::PlaySong(s) => assert_eq!(s.song_title, "T1"),
        NextButtonAction::PausePlayback => panic!("expected a song"),
    }
    assert_eq!(st.play_queue_index(), 1);
    st.play_song_instant(2);
    assert!(matches!(next_button_action(&mut st), NextButtonAction::PausePlayback));
    assert_eq!(st.play_queue_index(), 2);
    st.play_song_instant(5);
    assert!(matches!(next_button_action(&mut st), NextButtonAction::PausePlayback));
    assert_eq!(st.play_queue_index(), 5);
}

#[test]
fn pause_button() {
    let st = state_with(2);
    let a = pause_button_action(&st, true, "Play");
    assert_eq!(a.song.unwrap().song_title, "T0");
    assert!(matches!(a.message, Some(MpMessage::Play)));
    assert_eq!(a.label.as_deref(), Some("Pause"));
    assert!(!a.reload_sink);

    let b = pause_button_action(&st, true, "Pause");
    assert!(matches!(b.message, Some(MpMessage::Pause)));
    assert_eq!(b.label.as_deref(), Some("Play"));

    let c = pause_button_action(&st, false, "Play");
    assert!(c.song.is_none() && c.message.is_none() && c.label.is_none());
    assert!(!c.reload_sink);

    let empty = PlayQueueState::new();
    let d = pause_button_action(&empty, true, "Play");
    assert!(d.song.is_none() && d.message.is_none());
    assert!(d.reload_sink);
}

#[test]
fn song_entry_menus() {
    assert_eq!(
        popup_choices(&SongIdentifierType::LIBRARY),
        vec!["Add To Queue", "Insert Next", "Add To Playlist"]
    );
    assert_eq!(
        popup_choices(&SongIdentifierType::PLAYQUEUE),
        vec!["Remove This", "Play Now", "Stop after"]
    );
    assert!(matches!(song_text_color(&SongIdentifierType::LIBRARY), JedMP_Colors::Libary_Song_text_color));
    assert!(matches!(song_text_color(&SongIdentifierType::PLAYQUEUE), JedMP_Colors::Playqueue_Song_text_color));
}

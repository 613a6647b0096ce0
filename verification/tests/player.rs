use jedmp::audio_media_player::{
    decode_player_message, is_readable_player_message, player_message_text, MessagePlayerThread, MpMessage, PlayerCommand,
};
use std::sync::mpsc::channel;

#[test]
fn message_texts() {
    assert_eq!(player_message_text(&MpMessage::SetAndPlay, "/m/a.mp3"), "SetAndPlay\0/m/a.mp3");
    assert_eq!(player_message_text(&MpMessage::Seek, "1500"), "Seek\x001500");
    assert_eq!(player_message_text(&MpMessage::VolumeAdjust, "40"), "VolumeAdjust\x0040");
    assert_eq!(player_message_text(&MpMessage::Play, "/m/a.mp3"), "Play\0/m/a.mp3");
    assert_eq!(player_message_text(&MpMessage::Play, ""), "Play\0");
    assert_eq!(player_message_text(&MpMessage::Pause, ""), "Pause\0 ");
}

#[test]
fn message_is_sent_to_the_player_thread() {
    let (tx, rx) = channel::<String>();
    assert!(MessagePlayerThread(&tx, MpMessage::VolumeAdjust, "55".to_string()).is_ok());
    assert_eq!(rx.recv().unwrap(), "VolumeAdjust\x0055");
}

#[test]
fn message_comes_back_when_player_thread_is_gone() {
    let (tx, rx) = channel::<String>();
    drop(rx);
    let r = MessagePlayerThread(&tx, MpMessage::SetAndPlay, "/x.mp3".to_string());
    assert_eq!(r, Err("SetAndPlay\0/x.mp3".to_string()));
}

#[test]
fn decoding_messages() {
    assert!(matches!(decode_player_message("SetAndPlay\0/a.ogg"), PlayerCommand::SetAndPlay(p) if p == "/a.ogg"));
    assert!(matches!(decode_player_message("Seek\0-20"), PlayerCommand::Seek(-20)));
    assert!(matches!(decode_player_message("VolumeAdjust\x0077"), PlayerCommand::VolumeAdjust(77)));
    assert!(matches!(decode_player_message("Play\0 "), PlayerCommand::Play));
    assert!(matches!(decode_player_message("Pause\0 "), PlayerCommand::Pause));
    assert!(matches!(decode_player_message("Rewind\0 "), PlayerCommand::Ignore));
    assert!(matches!(decode_player_message("SetAndPlay\0/a\0rest"), PlayerCommand::SetAndPlay(p) if p == "/a"));
}

#[test]
fn sent_messages_decode_to_their_request() {
    let cases: Vec<(MpMessage, &str)> = vec![
        (MpMessage::SetAndPlay, "/home/u/Music/x.flac"),
        (MpMessage::Seek, "123456"),
        (MpMessage::VolumeAdjust, "100"),
        (MpMessage::Play, ""),
        (MpMessage::Pause, ""),
    ];
    for (msg, data) in cases {
        let text = player_message_text(&msg, data);
        let cmd = decode_player_message(&text);
        match msg {
            MpMessage::SetAndPlay => assert!(matches!(cmd, PlayerCommand::SetAndPlay(p) if p == data)),
            MpMessage::Seek => assert!(matches!(cmd, PlayerCommand::Seek(123456))),
            MpMessage::VolumeAdjust => assert!(matches!(cmd, PlayerCommand::VolumeAdjust(100))),
            MpMessage::Play => assert!(matches!(cmd, PlayerCommand::Play)),
            MpMessage::Pause => assert!(matches!(cmd, PlayerCommand::Pause)),
        }
    }
}


#[test]
fn readable_messages() {
    assert!(is_readable_player_message("Seek\x0012"));
    assert!(is_readable_player_message("Play\0"));
    assert!(is_readable_player_message("Anything\0x"));
    assert!(!is_readable_player_message("Play"));
    assert!(!is_readable_player_message("Seek\0abc"));
    assert!(!is_readable_player_message("VolumeAdjust\x003000000000"));
}

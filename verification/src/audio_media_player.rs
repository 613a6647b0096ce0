//! The messages that the interface sends to the audio player thread: how a
//! message is written, and what the player thread reads out of it.

use vstd::prelude::*;
use std::sync::mpsc::Sender;
use crate::text::{split_seq, split_on, lemma_split_plain, lemma_split_then_field};
use crate::numbers::{i64_of, i32_of, parse_i64, parse_i32};

verus! {

/// The sending half of a `std::sync::mpsc` channel, carried through opaque.
#[verifier::external_type_specification]
#[verifier::external_body]
#[verifier::reject_recursive_types(T)]
pub struct ExSender<T>(std::sync::mpsc::Sender<T>);

/// What the interface asks of the audio player.
pub enum MpMessage {
    SetAndPlay,
    Play,
    Pause,
    Seek,
    VolumeAdjust,
}

/// The name of a request, as the message text starts with it.
pub open spec fn message_tag(msg: MpMessage) -> Seq<char> {
    match msg {
        MpMessage::SetAndPlay => "SetAndPlay"@,
        MpMessage::Play => "Play"@,
        MpMessage::Pause => "Pause"@,
        MpMessage::Seek => "Seek"@,
        MpMessage::VolumeAdjust => "VolumeAdjust"@,
    }
}

/// The text sent to the player thread: the request's name, a NUL, then the
/// data; pause carries a single space as data.
pub open spec fn player_message(msg: MpMessage, data: Seq<char>) -> Seq<char> {
    match msg {
        MpMessage::Pause => message_tag(msg) + seq!['\0', ' '],
        _ => message_tag(msg) + seq!['\0'] + data,
    }
}

/// Writes the text for a request to the player thread.
pub fn player_message_text(msg: &MpMessage, data: &str) -> (text: String)
    ensures
        text@ == player_message(*msg, data@),
{
    proof {
        reveal_strlit("SetAndPlay\x00");
        reveal_strlit("Seek\x00");
        reveal_strlit("VolumeAdjust\x00");
        reveal_strlit("Play\x00");
        reveal_strlit("Pause\x00 ");
        reveal_strlit("SetAndPlay");
        reveal_strlit("Seek");
        reveal_strlit("VolumeAdjust");
        reveal_strlit("Play");
        reveal_strlit("Pause");
    }
    match msg {
        MpMessage::SetAndPlay => {
            let mut text = String::from_str("SetAndPlay\x00");
            text.append(data);
            assert(text@ =~= player_message(*msg, data@));
            text
        },
        MpMessage::Seek => {
            let mut text = String::from_str("Seek\x00");
            text.append(data);
            assert(text@ =~= player_message(*msg, data@));
            text
        },
        MpMessage::VolumeAdjust => {
            let mut text = String::from_str("VolumeAdjust\x00");
            text.append(data);
            assert(text@ =~= player_message(*msg, data@));
            text
        },
        MpMessage::Play => {
            let mut text = String::from_str("Play\x00");
            text.append(data);
            assert(text@ =~= player_message(*msg, data@));
            text
        },
        MpMessage::Pause => {
            let text = String::from_str("Pause\x00 ");
            assert(text@ =~= player_message(*msg, data@));
            text
        },
    }
}

/// Calls `std::sync::mpsc::Sender::send`. A send fails only when the
/// receiving thread is gone; std then hands back the message, which this
/// function returns as the error. Whether it succeeds is not stated.
#[verifier::external_body]
fn send_message(tx: &Sender<String>, message: String) -> (r: Result<(), String>)
    ensures
        r matches Err(m) ==> m@ == message@,
{
    match tx.send(message) {
        Ok(()) => Ok(()),
        Err(e) => Err(e.0),
    }
}

/// Sends a request to the player thread. Data is optional unless used with
/// set-and-play (the song's path), play, seek (the time) and volume adjust
/// (the volume); pause sends none. When the player thread is gone, the
/// message comes back as the error.
#[allow(non_snake_case)]
pub fn MessagePlayerThread(tx: &Sender<String>, msg: MpMessage, data: String) -> (r: Result<
    (),
    String,
>)
    ensures
        r matches Err(m) ==> m@ == player_message(msg, data@),
{
    let text = player_message_text(&msg, data.as_str());
    send_message(tx, text)
}

/// What the player thread does for a message.
pub enum PlayerCommand {
    SetAndPlay(String),
    Play,
    Pause,
    Seek(i64),
    VolumeAdjust(i32),
    Ignore,
}

/// A player command as plain values.
pub enum PlayerCommandView {
    SetAndPlay(Seq<char>),
    Play,
    Pause,
    Seek(i64),
    VolumeAdjust(i32),
    Ignore,
}

impl View for PlayerCommand {
    type V = PlayerCommandView;

    open spec fn view(&self) -> PlayerCommandView {
        match self {
            PlayerCommand::SetAndPlay(p) => PlayerCommandView::SetAndPlay(p@),
            PlayerCommand::Play => PlayerCommandView::Play,
            PlayerCommand::Pause => PlayerCommandView::Pause,
            PlayerCommand::Seek(t) => PlayerCommandView::Seek(*t),
            PlayerCommand::VolumeAdjust(v) => PlayerCommandView::VolumeAdjust(*v),
            PlayerCommand::Ignore => PlayerCommandView::Ignore,
        }
    }
}

/// A message the player thread can read without failing: it has a NUL, and
/// the data of a seek or volume request is a number of the right size.
pub open spec fn readable_player_message(message: Seq<char>) -> bool {
    let f = split_seq(message, '\0');
    &&& f.len() >= 2
    &&& f[0] == "Seek"@ ==> i64_of(f[1]) is Some
    &&& f[0] == "VolumeAdjust"@ ==> i32_of(f[1]) is Some
}

/// What the player thread does for a readable message: the text before the
/// first NUL names the request, the text between the first and second NUL is
/// its data; an unknown name is ignored.
pub open spec fn command_of(message: Seq<char>) -> PlayerCommandView {
    let f = split_seq(message, '\0');
    let tag = f[0];
    let data = f[1];
    if tag == "SetAndPlay"@ {
        PlayerCommandView::SetAndPlay(data)
    } else if tag == "Seek"@ {
        PlayerCommandView::Seek(i64_of(data).unwrap())
    } else if tag == "VolumeAdjust"@ {
        PlayerCommandView::VolumeAdjust(i32_of(data).unwrap())
    } else if tag == "Play"@ {
        PlayerCommandView::Play
    } else if tag == "Pause"@ {
        PlayerCommandView::Pause
    } else {
        PlayerCommandView::Ignore
    }
}

/// Whether the player thread can read a message without failing.
pub fn is_readable_player_message(message: &str) -> (ok: bool)
    ensures
        ok == readable_player_message(message@),
{
    let args = split_on(message, '\0');
    if args.len() < 2 {
        return false;
    }
    let tag = &args[0];
    let data = args[1].as_str();
    if *tag == String::from_str("Seek") && parse_i64(data).is_none() {
        return false;
    }
    if *tag == String::from_str("VolumeAdjust") && parse_i32(data).is_none() {
        return false;
    }
    true
}

/// Reads a message as the player thread does.
pub fn decode_player_message(message: &str) -> (cmd: PlayerCommand)
    requires
        readable_player_message(message@),
    ensures
        cmd@ == command_of(message@),
{
    let mut args = split_on(message, '\0');
    let data = args.remove(1);
    let msg = args.remove(0);
    if msg == String::from_str("SetAndPlay") {
        PlayerCommand::SetAndPlay(data)
    } else if msg == String::from_str("Seek") {
        match parse_i64(data.as_str()) {
            Some(t) => PlayerCommand::Seek(t),
            None => PlayerCommand::Ignore,
        }
    } else if msg == String::from_str("VolumeAdjust") {
        match parse_i32(data.as_str()) {
            Some(v) => PlayerCommand::VolumeAdjust(v),
            None => PlayerCommand::Ignore,
        }
    } else if msg == String::from_str("Play") {
        PlayerCommand::Play
    } else if msg == String::from_str("Pause") {
        PlayerCommand::Pause
    } else {
        PlayerCommand::Ignore
    }
}

/// The command a request is meant to give, for data the request can carry.
pub open spec fn intended_command(msg: MpMessage, data: Seq<char>) -> PlayerCommandView {
    match msg {
        MpMessage::SetAndPlay => PlayerCommandView::SetAndPlay(data),
        MpMessage::Play => PlayerCommandView::Play,
        MpMessage::Pause => PlayerCommandView::Pause,
        MpMessage::Seek => PlayerCommandView::Seek(i64_of(data).unwrap()),
        MpMessage::VolumeAdjust => PlayerCommandView::VolumeAdjust(i32_of(data).unwrap()),
    }
}

/// Data that a request can carry: no NUL, and a number of the right size
/// for seek and volume requests.
pub open spec fn sendable_data(msg: MpMessage, data: Seq<char>) -> bool {
    &&& !data.contains('\0')
    &&& msg is Seek ==> i64_of(data) is Some
    &&& msg is VolumeAdjust ==> i32_of(data) is Some
}

/// The player thread reads every message the interface sends as the request
/// that was sent, with its data.
pub proof fn lemma_player_message_round_trip(msg: MpMessage, data: Seq<char>)
    requires
        sendable_data(msg, data),
    ensures
        readable_player_message(player_message(msg, data)),
        command_of(player_message(msg, data)) == intended_command(msg, data),
{
    reveal_strlit("SetAndPlay");
    reveal_strlit("Seek");
    reveal_strlit("VolumeAdjust");
    reveal_strlit("Play");
    reveal_strlit("Pause");
    let tag = message_tag(msg);
    assert(!tag.contains('\0'));
    lemma_split_plain(tag, '\0');
    match msg {
        MpMessage::Pause => {
            let space = seq![' '];
            assert(!space.contains('\0'));
            lemma_split_then_field(tag, space, '\0');
            assert(player_message(msg, data) =~= tag + seq!['\0'] + space);
        },
        _ => {
            lemma_split_then_field(tag, data, '\0');
        },
    }
    assert(split_seq(tag, '\0') =~= seq![tag]);
}

} // verus!

//! The verified core of a desktop music player: the song cache format, the
//! play queue, the colour configuration, the player thread protocol and the
//! decisions behind the player's controls.

pub mod text;
pub mod numbers;
pub mod play_queue_song;
pub mod music_cache;
pub mod play_queue;
pub mod audio_media_player;
pub mod colors_handler;
pub mod jedmp_paths;
pub mod library_view;
pub mod player_controls;

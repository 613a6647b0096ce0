# jedmp

A desktop music player whose core is verified with Verus.

- `src/` — the verified library: the song cache format (`music_cache`), the
  play queue and music libraries (`play_queue`, `play_queue_song`), the
  messages to the audio thread (`audio_media_player`), the colour
  configuration (`colors_handler`), number parsing (`numbers`), text
  splitting (`text`), the player's file locations and command-line arguments
  (`jedmp_paths`), the artist view (`library_view`) and the decisions behind
  the player's controls (`player_controls`).
- `app/` — the program around it: files, directory scanning and audio through
  libVLC, tags through TagLib, Discord presence, and the FLTK window.
- `tests/` — tests of the library on concrete values.

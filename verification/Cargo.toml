[package]
name = "jedmp"
version = "0.1.0"
edition = "2021"
publish = false

[dependencies]
whoami = "1"
fltk = "*"
fltk-theme = "*"
vlc-rs = "*"
taglib = "*"
discord-presence = "*"

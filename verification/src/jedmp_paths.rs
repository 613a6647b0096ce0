//! Where the player keeps its files (under the user's home directory), and
//! the command-line arguments it understands.

use vstd::prelude::*;

verus! {

/// The player's directory for a user.
pub open spec fn jedmp_dir_of(username: Seq<char>) -> Seq<char> {
    "/home/"@ + username + "/.jedmp"@
}

/// The playlist directory inside a player directory.
pub open spec fn playlist_dir_in(dir: Seq<char>) -> Seq<char> {
    dir + "/playlists"@
}

/// The song cache inside a player directory.
pub open spec fn music_cache_in(dir: Seq<char>) -> Seq<char> {
    dir + "/music_cache"@
}

/// The colour configuration inside a player directory.
pub open spec fn master_colorrc_in(dir: Seq<char>) -> Seq<char> {
    dir + "/master_colorrc"@
}

/// The file of a playlist inside the playlist directory.
pub open spec fn playlist_file_in(playlist_dir: Seq<char>, name: Seq<char>) -> Seq<char> {
    playlist_dir + seq!['/'] + name
}

/// Calls `whoami::username`: the name of the user running the program, as
/// the system reports it (or a fixed fallback name when it cannot be read).
/// It depends on the machine, so nothing is stated of it.
#[verifier::external_body]
fn current_username() -> (name: String) {
    whoami::username()
}

/// The player's directory for the user named `username`.
pub fn jedmp_dir_for(username: &str) -> (dir: String)
    ensures
        dir@ == jedmp_dir_of(username@),
{
    let mut dir = String::from_str("/home/");
    dir.append(username);
    dir.append("/.jedmp");
    dir
}

/// The player's directory for the user running the program.
pub fn get_jedmp_dir() -> (dir: String)
    ensures
        exists|u: Seq<char>| dir@ == jedmp_dir_of(u),
{
    let username = current_username();
    jedmp_dir_for(username.as_str())
}

/// The playlist directory of the user named `username`.
pub fn playlist_dir_for(username: &str) -> (path: String)
    ensures
        path@ == playlist_dir_in(jedmp_dir_of(username@)),
{
    let mut path = jedmp_dir_for(username);
    path.append("/playlists");
    path
}

/// The song cache of the user named `username`.
pub fn music_cache_path_for(username: &str) -> (path: String)
    ensures
        path@ == music_cache_in(jedmp_dir_of(username@)),
{
    let mut path = jedmp_dir_for(username);
    path.append("/music_cache");
    path
}

/// The colour configuration of the user named `username`.
pub fn master_colorrc_path_for(username: &str) -> (path: String)
    ensures
        path@ == master_colorrc_in(jedmp_dir_of(username@)),
{
    let mut path = jedmp_dir_for(username);
    path.append("/master_colorrc");
    path
}

/// The playlist directory for the user running the program.
pub fn get_jedmp_playlist_dir() -> (path: String)
    ensures
        exists|u: Seq<char>| path@ == playlist_dir_in(jedmp_dir_of(u)),
{
    let username = current_username();
    playlist_dir_for(username.as_str())
}

/// The song cache for the user running the program.
pub fn get_jedmp_musiccache_path() -> (path: String)
    ensures
        exists|u: Seq<char>| path@ == music_cache_in(jedmp_dir_of(u)),
{
    let username = current_username();
    music_cache_path_for(username.as_str())
}

/// The colour configuration for the user running the program.
pub fn get_jedmp_master_color_file_path() -> (path: String)
    ensures
        exists|u: Seq<char>| path@ == master_colorrc_in(jedmp_dir_of(u)),
{
    let username = current_username();
    master_colorrc_path_for(username.as_str())
}

/// The file that holds the playlist `playlist_name`.
pub fn playlist_file_path(playlist_dir: &str, playlist_name: &str) -> (path: String)
    ensures
        path@ == playlist_file_in(playlist_dir@, playlist_name@),
{
    proof {
        reveal_strlit("/");
    }
    let mut path = String::from_str(playlist_dir);
    path.append("/");
    path.append(playlist_name);
    assert(path@ =~= playlist_file_in(playlist_dir@, playlist_name@));
    path
}

/// What a command-line argument asks for.
pub enum CmdArgAction {
    /// Print the usage and stop.
    ShowHelp,
    /// Remove the whole player directory.
    RemoveAll,
    /// Remove the playlist directory.
    RemovePlaylists,
    /// Remove the song cache.
    RemoveMusicCache,
    /// Remove the colour configuration.
    RemoveColorrc,
}

/// What a command-line argument asks for: `-h`, `-ra`, `-rp`, `-rm` and
/// `-rc` are understood; any other argument asks for nothing.
pub fn cmd_arg_action(arg: &str) -> (action: Option<CmdArgAction>)
    ensures
        arg@ == "-h"@ <==> action == Some(CmdArgAction::ShowHelp),
        arg@ == "-ra"@ <==> action == Some(CmdArgAction::RemoveAll),
        arg@ == "-rp"@ <==> action == Some(CmdArgAction::RemovePlaylists),
        arg@ == "-rm"@ <==> action == Some(CmdArgAction::RemoveMusicCache),
        arg@ == "-rc"@ <==> action == Some(CmdArgAction::RemoveColorrc),
{
    proof {
        reveal_strlit("-h");
        reveal_strlit("-ra");
        reveal_strlit("-rp");
        reveal_strlit("-rm");
        reveal_strlit("-rc");
        assert("-h"@ != "-ra"@) by {
            assert("-h"@.len() != "-ra"@.len() || "-h"@[2] != "-ra"@[2]);
        }
        assert("-h"@ != "-rp"@) by {
            assert("-h"@.len() != "-rp"@.len() || "-h"@[2] != "-rp"@[2]);
        }
        assert("-h"@ != "-rm"@) by {
            assert("-h"@.len() != "-rm"@.len() || "-h"@[2] != "-rm"@[2]);
        }
        assert("-h"@ != "-rc"@) by {
            assert("-h"@.len() != "-rc"@.len() || "-h"@[2] != "-rc"@[2]);
        }
        assert("-ra"@ != "-rp"@) by {
            assert("-ra"@.len() != "-rp"@.len() || "-ra"@[2] != "-rp"@[2]);
        }
        assert("-ra"@ != "-rm"@) by {
            assert("-ra"@.len() != "-rm"@.len() || "-ra"@[2] != "-rm"@[2]);
        }
        assert("-ra"@ != "-rc"@) by {
            assert("-ra"@.len() != "-rc"@.len() || "-ra"@[2] != "-rc"@[2]);
        }
        assert("-rp"@ != "-rm"@) by {
            assert("-rp"@.len() != "-rm"@.len() || "-rp"@[2] != "-rm"@[2]);
        }
        assert("-rp"@ != "-rc"@) by {
            assert("-rp"@.len() != "-rc"@.len() || "-rp"@[2] != "-rc"@[2]);
        }
        assert("-rm"@ != "-rc"@) by {
            assert("-rm"@.len() != "-rc"@.len() || "-rm"@[2] != "-rc"@[2]);
        }
    }
    let a = String::from_str(arg);
    if a == String::from_str("-h") {
        Some(CmdArgAction::ShowHelp)
    } else if a == String::from_str("-ra") {
        Some(CmdArgAction::RemoveAll)
    } else if a == String::from_str("-rp") {
        Some(CmdArgAction::RemovePlaylists)
    } else if a == String::from_str("-rm") {
        Some(CmdArgAction::RemoveMusicCache)
    } else if a == String::from_str("-rc") {
        Some(CmdArgAction::RemoveColorrc)
    } else {
        None
    }
}

} // verus!

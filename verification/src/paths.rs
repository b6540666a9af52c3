//! The store's fixed locations under the user's home directory, and the
//! resolution of a record's relative path.

use vstd::prelude::*;
use vstd::string::StringExecFns;

verus! {

/// The store's directory relative to the home directory.
pub open spec fn recordings_dir_suffix() -> Seq<char> {
    "/Library/Group Containers/group.com.apple.VoiceMemos.shared/Recordings"@
}

/// The recordings directory: a fixed location under the home directory.
pub fn voice_memos_dir(home: &str) -> (r: String)
    ensures
        r@ == home@ + recordings_dir_suffix(),
{
    let s = home.to_owned();
    s.concat("/Library/Group Containers/group.com.apple.VoiceMemos.shared/Recordings")
}

/// The store's database file, inside the recordings directory.
pub fn voice_memos_db_path(home: &str) -> (r: String)
    ensures
        r@ == home@ + recordings_dir_suffix() + "/CloudRecordings.db"@,
{
    let s = voice_memos_dir(home);
    let r = s.concat("/CloudRecordings.db");
    proof {
        assert(r@ =~= home@ + recordings_dir_suffix() + "/CloudRecordings.db"@);
    }
    r
}

/// A record's media file: its stored relative path resolved against the
/// recordings directory.
pub fn resolve_media_path(home: &str, relative: &str) -> (r: String)
    ensures
        r@ == home@ + recordings_dir_suffix() + "/"@ + relative@,
{
    let s = voice_memos_dir(home);
    let s = s.concat("/");
    let r = s.concat(relative);
    proof {
        assert(r@ =~= home@ + recordings_dir_suffix() + "/"@ + relative@);
    }
    r
}

} // verus!

//! Argument construction for the outside transcoder and player.
//!
//! The transcoder is told to seek to the clip's start, copy exactly the
//! clip length without re-encoding, tag the output with the recording's
//! original date, and overwrite its output file; the player is told to
//! open that file in the background. Building the argument lists is the
//! library's logic and verified; running the processes is not, and stays
//! with the caller.

use vstd::prelude::*;
use vstd::string::StringExecFns;
use crate::format::{date_display, format_date, seconds_chars, seconds_string, dec_digits, u64_dec};
use crate::timestamp::{CivilDateTime, civil_wf};

verus! {

/// The comment the clip's metadata carries: the original recording date.
pub open spec fn comment_chars(c: CivilDateTime) -> Seq<char> {
    "Original recording date: "@ + date_display(c)
}

/// Write the clip's metadata comment for a recording date.
pub fn clip_comment(c: CivilDateTime) -> (s: String)
    requires
        civil_wf(c),
    ensures
        s@ == comment_chars(c),
{
    let mut s = "Original recording date: ".to_owned();
    s.append(format_date(c).as_str());
    proof {
        assert(s@ =~= comment_chars(c));
    }
    s
}

/// The name of the disposable clip file, distinguished by the process id.
pub open spec fn clip_file_name_chars(pid: nat) -> Seq<char> {
    "voice_memo_clip_"@ + dec_digits(pid) + ".m4a"@
}

/// Name the disposable clip file for this process.
pub fn clip_file_name(pid: u64) -> (s: String)
    ensures
        s@ == clip_file_name_chars(pid as nat),
{
    let mut s = "voice_memo_clip_".to_owned();
    s.append(u64_dec(pid).as_str());
    s.append(".m4a");
    proof {
        assert(s@ =~= clip_file_name_chars(pid as nat));
    }
    s
}

/// The exact argument list for the transcoder: seek to the start offset,
/// read the source, copy the clip length without re-encoding, tag the
/// output with the original-date comment, overwrite, and write the clip.
pub open spec fn transcoder_args_wf(
    args: Seq<Seq<char>>,
    start_ms: nat,
    duration_ms: nat,
    source: Seq<char>,
    date: CivilDateTime,
    clip_path: Seq<char>,
) -> bool {
    &&& args.len() == 12
    &&& args[0] == "-ss"@
    &&& args[1] == seconds_chars(start_ms)
    &&& args[2] == "-i"@
    &&& args[3] == source
    &&& args[4] == "-t"@
    &&& args[5] == seconds_chars(duration_ms)
    &&& args[6] == "-c"@
    &&& args[7] == "copy"@
    &&& args[8] == "-metadata"@
    &&& args[9] == "comment="@ + comment_chars(date)
    &&& args[10] == "-y"@
    &&& args[11] == clip_path
}

/// Build the transcoder's argument list.
pub fn transcoder_args(
    start_ms: u64,
    duration_ms: u64,
    source: &str,
    date: CivilDateTime,
    clip_path: &str,
) -> (r: Vec<String>)
    requires
        civil_wf(date),
    ensures
        transcoder_args_wf(
            r@.map_values(|s: String| s@),
            start_ms as nat,
            duration_ms as nat,
            source@,
            date,
            clip_path@,
        ),
{
    let mut comment = "comment=".to_owned();
    comment.append(clip_comment(date).as_str());
    proof {
        assert(comment@ =~= "comment="@ + comment_chars(date));
    }
    let mut args: Vec<String> = Vec::new();
    args.push("-ss".to_owned());
    args.push(seconds_string(start_ms));
    args.push("-i".to_owned());
    args.push(source.to_owned());
    args.push("-t".to_owned());
    args.push(seconds_string(duration_ms));
    args.push("-c".to_owned());
    args.push("copy".to_owned());
    args.push("-metadata".to_owned());
    args.push(comment);
    args.push("-y".to_owned());
    args.push(clip_path.to_owned());
    proof {
        let m = args@.map_values(|s: String| s@);
        assert(m.len() == 12);
        assert(m[0] == "-ss"@);
        assert(m[1] == seconds_chars(start_ms as nat));
        assert(m[3] == source@);
        assert(m[9] == "comment="@ + comment_chars(date));
        assert(m[11] == clip_path@);
    }
    args
}

/// The exact argument list for the player: open the clip in the
/// background with the fixed player application.
pub open spec fn player_args_wf(args: Seq<Seq<char>>, clip_path: Seq<char>) -> bool {
    &&& args.len() == 4
    &&& args[0] == "-g"@
    &&& args[1] == "-a"@
    &&& args[2] == "VLC"@
    &&& args[3] == clip_path
}

/// Build the player's argument list.
pub fn player_args(clip_path: &str) -> (r: Vec<String>)
    ensures
        player_args_wf(r@.map_values(|s: String| s@), clip_path@),
{
    let mut args: Vec<String> = Vec::new();
    args.push("-g".to_owned());
    args.push("-a".to_owned());
    args.push("VLC".to_owned());
    args.push(clip_path.to_owned());
    args
}

} // verus!

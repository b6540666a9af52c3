use memo_clip::clip::{clip_comment, clip_file_name, player_args, transcoder_args};
use memo_clip::format::{format_date, pad2, seconds_string, u64_dec, year_string};
use memo_clip::paths::{resolve_media_path, voice_memos_db_path, voice_memos_dir};
use memo_clip::timestamp::stored_to_civil;
use memo_clip::CivilDateTime;

fn civil(year: i32, month: u8, day: u8, hour: u8, minute: u8, second: u8) -> CivilDateTime {
    CivilDateTime {
        year,
        month,
        day,
        hour,
        minute,
        second,
    }
}

#[test]
fn decimal_digits() {
    assert_eq!(u64_dec(0), "0");
    assert_eq!(u64_dec(7), "7");
    assert_eq!(u64_dec(30), "30");
    assert_eq!(u64_dec(978_307_200), "978307200");
}

#[test]
fn two_digit_padding() {
    assert_eq!(pad2(0), "00");
    assert_eq!(pad2(5), "05");
    assert_eq!(pad2(59), "59");
}

#[test]
fn year_padding_and_sign() {
    assert_eq!(year_string(2024), "2024");
    assert_eq!(year_string(1), "0001");
    assert_eq!(year_string(12345), "12345");
    assert_eq!(year_string(-44), "-0044");
}

#[test]
fn date_line_at_the_unix_epoch() {
    let c = stored_to_civil(-978_307_200).unwrap();
    assert_eq!(format_date(c), "January 01, 1970 at 12:00:00 AM UTC");
}

#[test]
fn date_line_in_the_afternoon() {
    let c = civil(2024, 3, 5, 15, 4, 5);
    assert_eq!(format_date(c), "March 05, 2024 at 03:04:05 PM UTC");
}

#[test]
fn date_line_at_noon() {
    let c = civil(1999, 12, 31, 12, 0, 59);
    assert_eq!(format_date(c), "December 31, 1999 at 12:00:59 PM UTC");
}

#[test]
fn seconds_with_three_decimals() {
    assert_eq!(seconds_string(0), "0.000");
    assert_eq!(seconds_string(30_000), "30.000");
    assert_eq!(seconds_string(12_345), "12.345");
    assert_eq!(seconds_string(95_500), "95.500");
    assert_eq!(seconds_string(7), "0.007");
}

#[test]
fn comment_carries_the_recording_date() {
    let c = civil(2001, 1, 1, 0, 0, 0);
    assert_eq!(
        clip_comment(c),
        "Original recording date: January 01, 2001 at 12:00:00 AM UTC"
    );
}

#[test]
fn clip_file_name_carries_the_process_id() {
    assert_eq!(clip_file_name(4321), "voice_memo_clip_4321.m4a");
}

#[test]
fn transcoder_argument_list_is_exact() {
    let c = civil(2024, 3, 5, 15, 4, 5);
    let args = transcoder_args(12_345, 30_000, "/tmp/in.m4a", c, "/tmp/out.m4a");
    let expect = vec![
        "-ss",
        "12.345",
        "-i",
        "/tmp/in.m4a",
        "-t",
        "30.000",
        "-c",
        "copy",
        "-metadata",
        "comment=Original recording date: March 05, 2024 at 03:04:05 PM UTC",
        "-y",
        "/tmp/out.m4a",
    ];
    let got: Vec<&str> = args.iter().map(|s| s.as_str()).collect();
    assert_eq!(got, expect);
}

#[test]
fn player_argument_list_is_exact() {
    let args = player_args("/tmp/out.m4a");
    let got: Vec<&str> = args.iter().map(|s| s.as_str()).collect();
    assert_eq!(got, vec!["-g", "-a", "VLC", "/tmp/out.m4a"]);
}

#[test]
fn store_paths_hang_off_the_home_directory() {
    assert_eq!(
        voice_memos_dir("/Users/me"),
        "/Users/me/Library/Group Containers/group.com.apple.VoiceMemos.shared/Recordings"
    );
    assert_eq!(
        voice_memos_db_path("/Users/me"),
        "/Users/me/Library/Group Containers/group.com.apple.VoiceMemos.shared/Recordings/CloudRecordings.db"
    );
    assert_eq!(
        resolve_media_path("/Users/me", "rec.m4a"),
        "/Users/me/Library/Group Containers/group.com.apple.VoiceMemos.shared/Recordings/rec.m4a"
    );
}

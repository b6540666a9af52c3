use memo_clip::audio::{
    callback_fill, extract_window, find_playable_track, select_track_packets,
    track_output_params, window_frames, TrackInfo, NULL_CODEC,
};
use memo_clip::AudioPacket;

fn track(id: u32, codec: u32, sample_rate: Option<u32>, channels: Option<u32>) -> TrackInfo {
    TrackInfo {
        id,
        codec,
        sample_rate,
        channels,
    }
}

#[test]
fn probe_picks_the_first_non_null_track() {
    let tracks = vec![
        track(7, NULL_CODEC, None, None),
        track(8, 42, Some(48_000), Some(2)),
        track(9, 43, Some(44_100), Some(1)),
    ];
    assert_eq!(find_playable_track(&tracks), Some(1));
}

#[test]
fn probe_fails_without_a_playable_track() {
    let tracks = vec![track(7, NULL_CODEC, None, None)];
    assert_eq!(find_playable_track(&tracks), None);
    let no_tracks: Vec<TrackInfo> = Vec::new();
    assert_eq!(find_playable_track(&no_tracks), None);
}

#[test]
fn output_params_need_rate_and_channels() {
    assert_eq!(
        track_output_params(&track(1, 42, Some(48_000), Some(2))),
        Some((48_000, 2))
    );
    assert_eq!(track_output_params(&track(1, 42, None, Some(2))), None);
    assert_eq!(track_output_params(&track(1, 42, Some(48_000), None)), None);
}

/// Cut the interleaved stream 0, 1, 2, ... into buffers of the given
/// sample counts.
fn cut(counts: &[usize]) -> Vec<Vec<i16>> {
    let mut next: i16 = 0;
    let mut out = Vec::new();
    for &n in counts {
        let mut buf = Vec::new();
        for _ in 0..n {
            buf.push(next);
            next += 1;
        }
        out.push(buf);
    }
    out
}

fn concat(bufs: &[Vec<i16>]) -> Vec<i16> {
    let mut out = Vec::new();
    for b in bufs {
        out.extend_from_slice(b);
    }
    out
}

#[test]
fn window_frames_scale_with_the_sample_rate() {
    let (s, e) = window_frames(1_000, 2_000, 4);
    assert_eq!((s, e), (4, 12));
    let (s, e) = window_frames(12_345, 30_000, 48_000);
    assert_eq!((s, e), (592_560, 2_032_560));
}

#[test]
fn window_cut_exactly_at_packet_boundaries() {
    // Stereo stream of 16 frames (32 samples) in packets of 5, 4 and 7
    // frames; window [4, 12) in frames is samples 8..24.
    let bufs = cut(&[10, 8, 14]);
    let got = extract_window(&bufs, 2, 4, 12);
    let want: Vec<i16> = (8..24).collect();
    assert_eq!(concat(&got), want);
}

#[test]
fn window_trims_inside_a_single_packet() {
    // One packet holds the whole stream; both edges are trimmed inside it.
    let bufs = cut(&[32]);
    let got = extract_window(&bufs, 2, 4, 12);
    let want: Vec<i16> = (8..24).collect();
    assert_eq!(concat(&got), want);
}

#[test]
fn window_truncated_when_the_source_runs_out() {
    // Only 10 frames exist; a window [4, 12) yields frames 4..10.
    let bufs = cut(&[6, 6, 8]);
    let got = extract_window(&bufs, 2, 4, 12);
    let want: Vec<i16> = (8..20).collect();
    assert_eq!(concat(&got), want);
}

#[test]
fn window_before_the_start_is_dropped_whole() {
    let bufs = cut(&[4, 4, 4]);
    let got = extract_window(&bufs, 1, 8, 12);
    let want: Vec<i16> = (8..12).collect();
    assert_eq!(concat(&got), want);
    // The packets before the window contribute no buffer at all.
    assert_eq!(got.len(), 1);
}

#[test]
fn empty_window_yields_nothing() {
    let bufs = cut(&[10, 10]);
    let got = extract_window(&bufs, 2, 5, 5);
    assert!(concat(&got).is_empty());
}

#[test]
fn mono_window_with_uneven_packets() {
    let bufs = cut(&[3, 1, 5, 2, 4]);
    let got = extract_window(&bufs, 1, 2, 13);
    let want: Vec<i16> = (2..13).collect();
    assert_eq!(concat(&got), want);
}

#[test]
fn packets_of_other_tracks_are_skipped() {
    let packets = vec![
        AudioPacket {
            track: 0,
            samples: vec![0, 1, 2, 3],
        },
        AudioPacket {
            track: 1,
            samples: vec![90, 91],
        },
        AudioPacket {
            track: 0,
            samples: vec![4, 5],
        },
        AudioPacket {
            track: 2,
            samples: vec![80],
        },
        AudioPacket {
            track: 0,
            samples: vec![6, 7],
        },
    ];
    let bufs = select_track_packets(&packets, 0);
    assert_eq!(concat(&bufs), (0..8).collect::<Vec<i16>>());
    // Frames of the selected track only: window [1, 3) of stereo frames.
    let got = extract_window(&bufs, 2, 1, 3);
    assert_eq!(concat(&got), vec![2, 3, 4, 5]);
}

#[test]
fn callback_copies_and_zero_pads() {
    let ready = vec![5, 6, 7];
    let out = callback_fill(Some(&ready), 6);
    assert_eq!(out, vec![5, 6, 7, 0, 0, 0]);
}

#[test]
fn callback_truncates_an_oversized_buffer() {
    let ready = vec![5, 6, 7, 8];
    let out = callback_fill(Some(&ready), 2);
    assert_eq!(out, vec![5, 6]);
}

#[test]
fn callback_fills_silence_on_underrun() {
    let out = callback_fill(None, 4);
    assert_eq!(out, vec![0, 0, 0, 0]);
}

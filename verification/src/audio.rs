//! The bounded audio window.
//!
//! A decoder hands back a run of packets, each a buffer of interleaved
//! samples on some track. The playback routine must render exactly the
//! frames inside a target window [start, end): packets on other tracks
//! are skipped, a packet wholly outside the window is dropped, and a
//! packet straddling either edge is trimmed at sample precision. This
//! module verifies that trimming: the emitted buffers, concatenated,
//! are exactly the window's slice of the track's sample stream, with
//! nothing duplicated and nothing skipped at packet boundaries.

use vstd::prelude::*;

verus! {

/// The codec marker of a track that carries nothing playable.
pub const NULL_CODEC: u32 = 0;

/// What the probe reports of one track in a container: its identifier,
/// its codec marker, and its declared sample rate and channel count,
/// either of which the container may omit.
pub struct TrackInfo {
    pub id: u32,
    pub codec: u32,
    pub sample_rate: Option<u32>,
    pub channels: Option<u32>,
}

/// Locate the track to play: the first whose codec is not the null
/// marker. `None` exactly when every track is null.
pub fn find_playable_track(tracks: &Vec<TrackInfo>) -> (r: Option<usize>)
    ensures
        match r {
            Some(i) => i < tracks@.len() && tracks@[i as int].codec != NULL_CODEC && forall|j: int|
                0 <= j < i ==> tracks@[j].codec == NULL_CODEC,
            None => forall|j: int| 0 <= j < tracks@.len() ==> tracks@[j].codec == NULL_CODEC,
        },
{
    let mut k: usize = 0;
    while k < tracks.len()
        invariant
            k <= tracks@.len(),
            forall|j: int| 0 <= j < k ==> tracks@[j].codec == NULL_CODEC,
        decreases tracks@.len() - k,
    {
        if tracks[k].codec != NULL_CODEC {
            return Some(k);
        }
        k = k + 1;
    }
    None
}

/// The output device's configuration for a track: its native sample rate
/// and channel count, exactly as declared (no resampling). `None` exactly
/// when the container omits either, which aborts playback.
pub fn track_output_params(t: &TrackInfo) -> (r: Option<(u32, u32)>)
    ensures
        (r is Some) <==> (t.sample_rate is Some && t.channels is Some),
        r is Some ==> r->Some_0.0 == t.sample_rate->Some_0 && r->Some_0.1 == t.channels->Some_0,
{
    match (t.sample_rate, t.channels) {
        (Some(rate), Some(ch)) => Some((rate, ch)),
        _ => None,
    }
}

/// One decoded packet: the track it belongs to and its interleaved
/// samples.
pub struct AudioPacket {
    pub track: u32,
    pub samples: Vec<i16>,
}

/// The sample buffers of one track, in decode order.
pub open spec fn track_samples(ps: Seq<AudioPacket>, track: u32) -> Seq<Seq<i16>> {
    ps.filter(|p: AudioPacket| p.track == track).map_values(|p: AudioPacket| p.samples@)
}

/// Concatenation of a run of sample buffers, in order.
pub open spec fn concat_bufs(bs: Seq<Seq<i16>>) -> Seq<i16>
    decreases bs.len(),
{
    if bs.len() == 0 {
        Seq::empty()
    } else {
        concat_bufs(bs.drop_last()) + bs.last()
    }
}

proof fn lemma_concat_bufs_push(bs: Seq<Seq<i16>>, b: Seq<i16>)
    ensures
        concat_bufs(bs.push(b)) == concat_bufs(bs) + b,
{
    assert(bs.push(b).drop_last() =~= bs);
    assert(bs.push(b).last() == b);
}

/// Each buffer run's concatenation starts with the concatenation of any
/// of its prefixes.
proof fn lemma_concat_take_prefix(bs: Seq<Seq<i16>>, i: int)
    requires
        0 <= i <= bs.len(),
    ensures
        concat_bufs(bs.take(i)).len() <= concat_bufs(bs).len(),
        concat_bufs(bs.take(i)) == concat_bufs(bs).take(concat_bufs(bs.take(i)).len() as int),
    decreases bs.len() - i,
{
    if i == bs.len() {
        assert(bs.take(i) =~= bs);
        assert(concat_bufs(bs) == concat_bufs(bs).take(concat_bufs(bs).len() as int));
    } else {
        lemma_concat_take_prefix(bs, i + 1);
        assert(bs.take(i + 1).drop_last() =~= bs.take(i));
        assert(bs.take(i + 1).last() == bs[i]);
        let li = concat_bufs(bs.take(i)).len() as int;
        let lj = concat_bufs(bs.take(i + 1)).len() as int;
        assert(concat_bufs(bs.take(i + 1)) == concat_bufs(bs.take(i)) + bs[i]);
        assert(lj == li + bs[i].len());
        assert(concat_bufs(bs.take(i)) =~= concat_bufs(bs).take(lj).take(li));
        assert(concat_bufs(bs).take(lj).take(li) =~= concat_bufs(bs).take(li));
    }
}

/// Within a buffer run's concatenation, buffer `i` occupies exactly the
/// sample range that follows the concatenation of the first `i` buffers.
proof fn lemma_packet_slice(bs: Seq<Seq<i16>>, i: int)
    requires
        0 <= i < bs.len(),
    ensures
        concat_bufs(bs.take(i)).len() + bs[i].len() == concat_bufs(bs.take(i + 1)).len(),
        concat_bufs(bs.take(i + 1)).len() <= concat_bufs(bs).len(),
        bs[i] == concat_bufs(bs).subrange(
            concat_bufs(bs.take(i)).len() as int,
            concat_bufs(bs.take(i)).len() + bs[i].len() as int,
        ),
{
    lemma_concat_take_prefix(bs, i);
    lemma_concat_take_prefix(bs, i + 1);
    assert(bs.take(i + 1).drop_last() =~= bs.take(i));
    assert(bs.take(i + 1).last() == bs[i]);
    let li = concat_bufs(bs.take(i)).len() as int;
    let lj = concat_bufs(bs.take(i + 1)).len() as int;
    assert(concat_bufs(bs.take(i + 1)) == concat_bufs(bs.take(i)) + bs[i]);
    assert(bs[i] =~= concat_bufs(bs).take(lj).subrange(li, lj));
    assert(concat_bufs(bs).take(lj).subrange(li, lj) =~= concat_bufs(bs).subrange(li, lj));
}

/// The part of the window already emitted once the cursor has passed
/// `cs` samples of the stream `s`: nothing before the window's start is
/// reached, then the stream between the start and the cursor, capped at
/// the window's end.
pub open spec fn window_prefix(s: Seq<i16>, w_lo: int, w_hi: int, cs: int) -> Seq<i16> {
    if cs <= w_lo {
        Seq::empty()
    } else {
        s.subrange(
            w_lo,
            if cs < w_hi {
                cs
            } else {
                w_hi
            },
        )
    }
}

/// The target frame window of a clip: a start offset and a clip length
/// in milliseconds, at a track's native sample rate, give the half-open
/// frame range [start·rate/1000, (start+length)·rate/1000).
pub fn window_frames(start_ms: u64, clip_ms: u64, rate: u32) -> (r: (u64, u64))
    requires
        1 <= rate,
        (start_ms + clip_ms) * rate <= u64::MAX,
    ensures
        r.0 == start_ms * rate / 1000,
        r.1 == (start_ms + clip_ms) * rate / 1000,
        r.0 <= r.1,
{
    proof {
        assert(start_ms + clip_ms <= (start_ms + clip_ms) * rate) by (nonlinear_arith)
            requires
                1 <= rate,
                0 <= start_ms + clip_ms,
        ;
        assert(start_ms * rate <= (start_ms + clip_ms) * rate) by (nonlinear_arith)
            requires
                0 <= start_ms,
                0 <= clip_ms,
                0 <= rate,
        ;
        assert(start_ms * rate / 1000 <= (start_ms + clip_ms) * rate / 1000) by (nonlinear_arith)
            requires
                start_ms * rate <= (start_ms + clip_ms) * rate,
        ;
    }
    let s = start_ms * (rate as u64) / 1000;
    let e = (start_ms + clip_ms) * (rate as u64) / 1000;
    (s, e)
}

/// One invocation of the real-time output callback. The callback never
/// waits: it takes whatever buffer the handoff channel had ready, or
/// nothing. Either way it fills the whole output buffer — the ready
/// buffer's samples first, zero-padding any remainder, or all silence
/// when nothing was ready.
pub fn callback_fill(next: Option<&Vec<i16>>, out_len: usize) -> (r: Vec<i16>)
    ensures
        r@.len() == out_len,
        match next {
            Some(b) => forall|i: int|
                0 <= i < out_len ==> r@[i] == (if i < b@.len() {
                    b@[i]
                } else {
                    0i16
                }),
            None => forall|i: int| 0 <= i < out_len ==> r@[i] == 0i16,
        },
{
    let mut r: Vec<i16> = Vec::new();
    match next {
        Some(b) => {
            let mut i: usize = 0;
            while i < out_len
                invariant
                    i <= out_len,
                    r@.len() == i,
                    forall|j: int|
                        0 <= j < i ==> r@[j] == (if j < b@.len() {
                            b@[j]
                        } else {
                            0i16
                        }),
                decreases out_len - i,
            {
                if i < b.len() {
                    r.push(b[i]);
                } else {
                    r.push(0i16);
                }
                i = i + 1;
            }
        },
        None => {
            let mut i: usize = 0;
            while i < out_len
                invariant
                    i <= out_len,
                    r@.len() == i,
                    forall|j: int| 0 <= j < i ==> r@[j] == 0i16,
                decreases out_len - i,
            {
                r.push(0i16);
                i = i + 1;
            }
        },
    }
    r
}

/// Copy one contiguous sample range out of a buffer.
fn copy_range(src: &Vec<i16>, from: usize, to: usize) -> (r: Vec<i16>)
    requires
        from <= to <= src@.len(),
    ensures
        r@ == src@.subrange(from as int, to as int),
{
    let mut r: Vec<i16> = Vec::new();
    let mut j: usize = from;
    while j < to
        invariant
            from <= j <= to <= src@.len(),
            r@ == src@.subrange(from as int, j as int),
        decreases to - j,
    {
        r.push(src[j]);
        proof {
            assert(r@ =~= src@.subrange(from as int, j + 1));
        }
        j = j + 1;
    }
    r
}

/// Keep the sample buffers of one track, in decode order; packets on
/// every other track are skipped.
pub fn select_track_packets(packets: &Vec<AudioPacket>, track: u32) -> (r: Vec<Vec<i16>>)
    ensures
        r@.map_values(|v: Vec<i16>| v@) == track_samples(packets@, track),
{
    let mut out: Vec<Vec<i16>> = Vec::new();
    let mut k: usize = 0;
    while k < packets.len()
        invariant
            k <= packets@.len(),
            out@.map_values(|v: Vec<i16>| v@) == track_samples(packets@.take(k as int), track),
        decreases packets@.len() - k,
    {
        let ghost pre = out@.map_values(|v: Vec<i16>| v@);
        let p = &packets[k];
        if p.track == track {
            let cv = copy_range(&p.samples, 0, p.samples.len());
            proof {
                assert(cv@ =~= p.samples@);
            }
            let ghost cvv = cv@;
            out.push(cv);
            proof {
                assert(out@.map_values(|v: Vec<i16>| v@) =~= pre.push(cvv));
            }
        }
        proof {
            reveal(Seq::filter);
            let pred = |q: AudioPacket| q.track == track;
            let pk = packets@[k as int];
            assert(packets@.take(k + 1).drop_last() =~= packets@.take(k as int));
            assert(packets@.take(k + 1).last() == pk);
            if pk.track == track {
                assert(packets@.take(k + 1).filter(pred) == packets@.take(k as int).filter(
                    pred,
                ).push(pk));
                assert(track_samples(packets@.take(k + 1), track) =~= track_samples(
                    packets@.take(k as int),
                    track,
                ).push(pk.samples@));
                assert(out@.map_values(|v: Vec<i16>| v@) == track_samples(
                    packets@.take(k + 1),
                    track,
                ));
            } else {
                assert(packets@.take(k + 1).filter(pred) == packets@.take(k as int).filter(pred));
                assert(out@.map_values(|v: Vec<i16>| v@) == track_samples(
                    packets@.take(k + 1),
                    track,
                ));
            }
        }
        k = k + 1;
    }
    proof {
        assert(packets@.take(packets@.len() as int) =~= packets@);
    }
    out
}

/// Trim a run of sample buffers to the window [start_frame, end_frame)
/// of whole frames of `channels` interleaved samples each.
///
/// Law: the returned buffers, concatenated, are exactly the stream's
/// slice between the window's edges (each capped at the stream's end):
/// every frame inside the window appears once and in order, and no frame
/// outside it appears, however the stream was cut into packets.
pub fn extract_window(
    buffers: &Vec<Vec<i16>>,
    channels: usize,
    start_frame: usize,
    end_frame: usize,
) -> (out: Vec<Vec<i16>>)
    requires
        1 <= channels,
        start_frame <= end_frame,
        end_frame * channels <= usize::MAX,
        concat_bufs(buffers@.map_values(|v: Vec<i16>| v@)).len() <= usize::MAX,
    ensures
        ({
            let s = concat_bufs(buffers@.map_values(|v: Vec<i16>| v@));
            let lo = if start_frame * channels <= s.len() {
                start_frame * channels
            } else {
                s.len() as int
            };
            let hi = if end_frame * channels <= s.len() {
                end_frame * channels
            } else {
                s.len() as int
            };
            concat_bufs(out@.map_values(|v: Vec<i16>| v@)) == s.subrange(lo, hi)
        }),
{
    let ghost m = buffers@.map_values(|v: Vec<i16>| v@);
    let ghost s = concat_bufs(m);
    proof {
        assert(start_frame * channels <= end_frame * channels) by (nonlinear_arith)
            requires
                start_frame <= end_frame,
                0 <= channels,
        ;
    }
    let w_lo: usize = start_frame * channels;
    let w_hi: usize = end_frame * channels;
    let mut out: Vec<Vec<i16>> = Vec::new();
    let mut cursor: usize = 0;
    let mut k: usize = 0;
    while k < buffers.len() && cursor < w_hi
        invariant
            k <= buffers@.len(),
            w_lo <= w_hi,
            m == buffers@.map_values(|v: Vec<i16>| v@),
            s == concat_bufs(m),
            s.len() <= usize::MAX,
            cursor == concat_bufs(m.take(k as int)).len(),
            cursor <= s.len(),
            concat_bufs(out@.map_values(|v: Vec<i16>| v@)) == window_prefix(
                s,
                w_lo as int,
                w_hi as int,
                cursor as int,
            ),
        decreases buffers@.len() - k,
    {
        proof {
            lemma_packet_slice(m, k as int);
        }
        let plen = buffers[k].len();
        let pend = cursor + plen;
        let lo = if w_lo > cursor {
            w_lo
        } else {
            cursor
        };
        let hi = if w_hi < pend {
            w_hi
        } else {
            pend
        };
        if lo < hi {
            let buf = copy_range(&buffers[k], lo - cursor, hi - cursor);
            proof {
                assert(m[k as int] == buffers@[k as int]@);
                assert(buf@ =~= s.subrange(lo as int, hi as int));
                lemma_concat_bufs_push(out@.map_values(|v: Vec<i16>| v@), buf@);
                assert(out@.push(buf).map_values(|v: Vec<i16>| v@) =~= out@.map_values(
                    |v: Vec<i16>| v@,
                ).push(buf@));
            }
            out.push(buf);
            proof {
                assert(concat_bufs(out@.map_values(|v: Vec<i16>| v@)) =~= window_prefix(
                    s,
                    w_lo as int,
                    w_hi as int,
                    pend as int,
                ));
            }
        } else {
            proof {
                assert(window_prefix(s, w_lo as int, w_hi as int, pend as int) =~= window_prefix(
                    s,
                    w_lo as int,
                    w_hi as int,
                    cursor as int,
                ));
            }
        }
        cursor = pend;
        k = k + 1;
        proof {
            assert(m.take(k as int).drop_last() =~= m.take(k as int - 1));
        }
    }
    proof {
        if k == buffers@.len() {
            assert(m.take(k as int) =~= m);
        }
        let got = concat_bufs(out@.map_values(|v: Vec<i16>| v@));
        let lo = if w_lo <= s.len() {
            w_lo as int
        } else {
            s.len() as int
        };
        let hi = if w_hi <= s.len() {
            w_hi as int
        } else {
            s.len() as int
        };
        assert(got =~= s.subrange(lo, hi));
    }
    out
}

} // verus!

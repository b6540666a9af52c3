//! Random selection of a record and a clip window, and the run's
//! top-level decision.

use vstd::prelude::*;
use crate::memo::{VoiceMemo, CLIP_MS, is_candidate};

verus! {

/// Relies on `rand::random_range`: a draw from `0..n` lies below `n`,
/// and the call panics only on an empty range, which the precondition
/// rules out. Nothing more is assumed of a random draw.
#[verifier::external_body]
fn random_below(n: u64) -> (r: u64)
    requires
        0 < n,
    ensures
        r < n,
{
    rand::random_range(0..n)
}

/// Pick an index into a non-empty run of records at random.
pub fn choose_memo_index(count: usize) -> (r: usize)
    requires
        0 < count,
    ensures
        r < count,
{
    let r = random_below(count as u64);
    r as usize
}

/// Pick a start offset at random so that a whole clip fits: the offset
/// satisfies `0 <= r` and `r + CLIP_MS <= duration_ms` (the draw is from
/// the half-open range, so the bound is in fact strict).
pub fn choose_start_ms(duration_ms: u64) -> (r: u64)
    requires
        duration_ms > CLIP_MS,
    ensures
        r + CLIP_MS <= duration_ms,
        r < duration_ms - CLIP_MS,
{
    random_below(duration_ms - CLIP_MS)
}

/// Pick one record and a start offset, both at random. `None` exactly
/// when there are no candidates; otherwise the index is in bounds and a
/// whole clip fits after the offset within the picked record.
pub fn select_clip(memos: &Vec<VoiceMemo>) -> (r: Option<(usize, u64)>)
    requires
        forall|i: int| 0 <= i < memos@.len() ==> is_candidate(#[trigger] memos@[i]),
    ensures
        (r is None) <==> memos@.len() == 0,
        r is Some ==> r->Some_0.0 < memos@.len(),
        r is Some ==> r->Some_0.1 + CLIP_MS <= memos@[r->Some_0.0 as int].duration_ms,
{
    if memos.len() == 0 {
        None
    } else {
        let i = choose_memo_index(memos.len());
        let start = choose_start_ms(memos[i].duration_ms);
        Some((i, start))
    }
}

/// What one run does after the candidate query, in order: report that
/// nothing qualified, report that the picked record's media file is not
/// on disk, or go on to extract and play a clip.
pub enum RunAction {
    /// No record qualified; report and finish cleanly.
    NoMemos,
    /// The picked record's media file is absent; report and finish cleanly.
    MissingFile,
    /// Extract a clip and hand it to the player.
    Extract,
}

/// Decide the run's action: an empty candidate set stops the run before
/// anything else, and a missing media file stops it before any extraction.
pub fn decide_action(candidate_count: usize, media_present: bool) -> (r: RunAction)
    ensures
        (r is NoMemos) <==> candidate_count == 0,
        (r is MissingFile) <==> (candidate_count > 0 && !media_present),
        (r is Extract) <==> (candidate_count > 0 && media_present),
{
    if candidate_count == 0 {
        RunAction::NoMemos
    } else if !media_present {
        RunAction::MissingFile
    } else {
        RunAction::Extract
    }
}

} // verus!

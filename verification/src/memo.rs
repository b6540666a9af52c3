//! The memo record and the rules that read it.

use vstd::prelude::*;

verus! {

/// Milliseconds in the minimum clip length: records at or under this
/// duration are never candidates, and every clip is exactly this long.
pub const CLIP_MS: u64 = 30_000;

/// One recording's metadata, as read from the store.
///
/// Durations and timestamps are held in integer milliseconds and integer
/// seconds respectively; the store's fractional values are rounded by the
/// caller before they reach the library.
pub struct VoiceMemo {
    /// Resolved display title (see `resolve_title`).
    pub title: String,
    /// Stored timestamp: seconds since the store's own epoch, which lies
    /// 978,307,200 seconds after the Unix epoch.
    pub date: i64,
    /// Recording length in milliseconds.
    pub duration_ms: u64,
    /// File path relative to the recordings directory.
    pub path: String,
}

impl Clone for VoiceMemo {
    fn clone(&self) -> (r: Self)
        ensures
            r == *self,
    {
        VoiceMemo {
            title: self.title.clone(),
            date: self.date,
            duration_ms: self.duration_ms,
            path: self.path.clone(),
        }
    }
}

/// A record qualifies as a candidate when it is strictly longer than the
/// clip length; a record of exactly the clip length is excluded.
pub open spec fn is_candidate(m: VoiceMemo) -> bool {
    m.duration_ms > CLIP_MS
}

/// The candidate set of a sequence of records, in stored order.
pub open spec fn candidates(s: Seq<VoiceMemo>) -> Seq<VoiceMemo> {
    s.filter(|m: VoiceMemo| m.duration_ms > CLIP_MS)
}

/// Keep exactly the records strictly longer than the clip length,
/// in their stored order.
pub fn filter_candidates(memos: &Vec<VoiceMemo>) -> (r: Vec<VoiceMemo>)
    ensures
        r@ == candidates(memos@),
{
    let mut out: Vec<VoiceMemo> = Vec::new();
    let mut i: usize = 0;
    while i < memos.len()
        invariant
            i <= memos@.len(),
            out@ == candidates(memos@.take(i as int)),
        decreases memos@.len() - i,
    {
        if memos[i].duration_ms > CLIP_MS {
            out.push(memos[i].clone());
        }
        proof {
            reveal(Seq::filter);
            assert(memos@.take(i + 1).drop_last() == memos@.take(i as int));
            assert(memos@.take(i + 1).last() == memos@[i as int]);
        }
        i = i + 1;
    }
    proof {
        assert(memos@.take(memos@.len() as int) == memos@);
    }
    out
}

/// Law: the candidate set holds exactly the records strictly longer than
/// the clip length. Every member exceeds the clip length; every stored
/// record that exceeds it is a member; and no record at or under the clip
/// length (the boundary of exactly the clip length included) is a member.
pub proof fn lemma_candidate_set(s: Seq<VoiceMemo>)
    ensures
        forall|i: int|
            0 <= i < candidates(s).len() ==> (#[trigger] candidates(s)[i]).duration_ms > CLIP_MS,
        forall|i: int|
            0 <= i < s.len() && s[i].duration_ms > CLIP_MS ==> candidates(s).contains(
                #[trigger] s[i],
            ),
        forall|m: VoiceMemo| m.duration_ms <= CLIP_MS ==> !candidates(s).contains(m),
{
    let pred = |m: VoiceMemo| m.duration_ms > CLIP_MS;
    assert forall|i: int|
        0 <= i < candidates(s).len() implies (#[trigger] candidates(s)[i]).duration_ms
        > CLIP_MS by {
        s.lemma_filter_pred(pred, i);
    }
    assert forall|i: int|
        0 <= i < s.len() && s[i].duration_ms > CLIP_MS implies candidates(s).contains(
        #[trigger] s[i],
    ) by {
        s.lemma_filter_contains(pred, i);
    }
    assert forall|m: VoiceMemo| m.duration_ms <= CLIP_MS implies !candidates(s).contains(m) by {
        if candidates(s).contains(m) {
            let i = choose|i: int| 0 <= i < candidates(s).len() && candidates(s)[i] == m;
            s.lemma_filter_pred(pred, i);
        }
    }
}

/// Resolve a record's display title: the primary field when present,
/// otherwise the secondary field, otherwise the fixed placeholder.
pub fn resolve_title(primary: Option<String>, secondary: Option<String>) -> (r: String)
    ensures
        primary is Some ==> r@ == primary->Some_0@,
        primary is None && secondary is Some ==> r@ == secondary->Some_0@,
        primary is None && secondary is None ==> r@ == "Untitled"@,
{
    match primary {
        Some(t) => t,
        None => match secondary {
            Some(t) => t,
            None => "Untitled".to_owned(),
        },
    }
}

} // verus!

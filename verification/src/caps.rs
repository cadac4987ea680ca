//! Reading the negotiated video caps string: the framerate field, the memory
//! path (system memory or a zero-copy GPU memory feature) and caps
//! transitions between consecutive buffers.
use vstd::prelude::*;
use crate::text::{decimal_seq, decimal_string, str_eq, trim, trim_seq};

verus! {

/// Whether `pat` occurs in `s` at character position `i`.
pub open spec fn occurs_at(s: Seq<char>, pat: Seq<char>, i: int) -> bool {
    0 <= i && i + pat.len() <= s.len() && s.subrange(i, i + pat.len()) == pat
}

/// First position at or after `from` where `pat` occurs in `s`.
pub open spec fn find_from(s: Seq<char>, pat: Seq<char>, from: int) -> Option<int>
    decreases s.len() + 1 - from,
{
    if from < 0 || from + pat.len() > s.len() {
        None
    } else if occurs_at(s, pat, from) {
        Some(from)
    } else {
        find_from(s, pat, from + 1)
    }
}

/// First position where `pat` occurs in `s` (`str::find`).
pub open spec fn find_seq(s: Seq<char>, pat: Seq<char>) -> Option<int> {
    find_from(s, pat, 0)
}

/// Whether `pat` occurs in `s` (`str::contains`).
pub open spec fn contains_seq(s: Seq<char>, pat: Seq<char>) -> bool {
    find_seq(s, pat) is Some
}

pub proof fn lemma_find_from_bounds(s: Seq<char>, pat: Seq<char>, from: int)
    ensures
        find_from(s, pat, from) matches Some(i) ==> from <= i && occurs_at(s, pat, i),
    decreases s.len() + 1 - from,
{
    if from >= 0 && from + pat.len() <= s.len() && !occurs_at(s, pat, from) {
        lemma_find_from_bounds(s, pat, from + 1);
    }
}

/// First character position of `pat` in `s`.
pub fn find_str(s: &str, pat: &str) -> (r: Option<usize>)
    ensures
        r matches Some(i) ==> find_seq(s@, pat@) == Some(i as int),
        r is None ==> find_seq(s@, pat@) is None,
{
    let n = s.unicode_len();
    let m = pat.unicode_len();
    if m > n {
        return None;
    }
    let mut i: usize = 0;
    while i <= n - m
        invariant
            n == s@.len(),
            m == pat@.len(),
            m <= n,
            i <= n - m + 1,
            find_from(s@, pat@, 0) == find_from(s@, pat@, i as int),
        decreases n - m + 1 - i,
    {
        let mut k: usize = 0;
        while k < m && s.get_char(i + k) == pat.get_char(k)
            invariant
                n == s@.len(),
                m == pat@.len(),
                i + m <= n,
                k <= m,
                forall|j: int| 0 <= j < k ==> s@[i + j] == pat@[j],
            decreases m - k,
        {
            k = k + 1;
        }
        if k == m {
            assert(s@.subrange(i as int, i + m) =~= pat@);
            return Some(i);
        }
        assert(s@.subrange(i as int, i + m)[k as int] != pat@[k as int]);
        i = i + 1;
    }
    None
}

/// Whether `pat` occurs in `s`.
pub fn contains_str(s: &str, pat: &str) -> (b: bool)
    ensures
        b == contains_seq(s@, pat@),
{
    find_str(s, pat).is_some()
}

/// The framerate field of a caps string: the text after
/// `framerate=(fraction)` up to the next `;` or `,` (or the end), trimmed.
pub open spec fn caps_framerate_of(caps: Seq<char>) -> Option<Seq<char>> {
    let marker = "framerate=(fraction)"@;
    match find_seq(caps, marker) {
        None => None,
        Some(at) => {
            let rest = caps.subrange(at + marker.len(), caps.len() as int);
            let semicolon = find_seq(rest, ";"@);
            let comma = find_seq(rest, ","@);
            let end = match (semicolon, comma) {
                (Some(a), Some(b)) => if a <= b { a } else { b },
                (Some(a), None) => a,
                (None, Some(b)) => b,
                (None, None) => rest.len() as int,
            };
            Some(trim_seq(rest.subrange(0, end)))
        },
    }
}

/// The negotiated framerate of a caps string (e.g. "60/1").
pub fn caps_framerate_summary(caps: &str) -> (r: Option<String>)
    ensures
        r matches Some(f) ==> caps_framerate_of(caps@) == Some(f@),
        r is None ==> caps_framerate_of(caps@) is None,
{
    let marker = "framerate=(fraction)";
    let at = match find_str(caps, marker) {
        Some(at) => at,
        None => return None,
    };
    let marker_len = marker.unicode_len();
    let n = caps.unicode_len();
    proof {
        lemma_find_from_bounds(caps@, marker@, 0);
        assert(occurs_at(caps@, marker@, at as int));
    }
    let start = at + marker_len;
    let rest = caps.substring_char(start, n);
    let semicolon = find_str(rest, ";");
    let comma = find_str(rest, ",");
    proof {
        lemma_find_from_bounds(rest@, ";"@, 0);
        lemma_find_from_bounds(rest@, ","@, 0);
    }
    let end = match (semicolon, comma) {
        (Some(a), Some(b)) => if a <= b { a } else { b },
        (Some(a), None) => a,
        (None, Some(b)) => b,
        (None, None) => rest.unicode_len(),
    };
    let field = rest.substring_char(0, end);
    Some(String::from_str(trim(field)))
}

/// The memory path named by a caps string, in order of preference.
pub open spec fn memory_mode_of(caps: Seq<char>) -> Seq<char> {
    if contains_seq(caps, "memory:D3D12Memory"@) {
        "D3D12Memory"@
    } else if contains_seq(caps, "memory:D3D11Memory"@) {
        "D3D11Memory"@
    } else if contains_seq(caps, "memory:VulkanImage"@) {
        "VulkanImage"@
    } else if contains_seq(caps, "memory:VAMemory"@) {
        "VAMemory"@
    } else if contains_seq(caps, "memory:GLMemory"@) {
        "GLMemory"@
    } else {
        "system-memory"@
    }
}

/// The memory path of a caps string.
pub fn memory_mode_from_caps(caps: &str) -> (mode: &'static str)
    ensures
        mode@ == memory_mode_of(caps@),
{
    if contains_str(caps, "memory:D3D12Memory") {
        "D3D12Memory"
    } else if contains_str(caps, "memory:D3D11Memory") {
        "D3D11Memory"
    } else if contains_str(caps, "memory:VulkanImage") {
        "VulkanImage"
    } else if contains_str(caps, "memory:VAMemory") {
        "VAMemory"
    } else if contains_str(caps, "memory:GLMemory") {
        "GLMemory"
    } else {
        "system-memory"
    }
}

/// Whether a memory path is a zero-copy GPU memory feature.
pub open spec fn is_zero_copy_mode(mode: Seq<char>) -> bool {
    ||| mode == "D3D12Memory"@
    ||| mode == "D3D11Memory"@
    ||| mode == "VulkanImage"@
    ||| mode == "VAMemory"@
    ||| mode == "GLMemory"@
}

pub fn is_zero_copy_memory_mode(memory_mode: &str) -> (b: bool)
    ensures
        b == is_zero_copy_mode(memory_mode@),
{
    str_eq(memory_mode, "D3D12Memory") || str_eq(memory_mode, "D3D11Memory") || str_eq(memory_mode, "VulkanImage")
        || str_eq(memory_mode, "VAMemory") || str_eq(memory_mode, "GLMemory")
}

/// A caps string names a zero-copy path exactly when its memory path is not
/// system memory.
pub proof fn lemma_zero_copy_iff_not_system_memory(caps: Seq<char>)
    ensures
        is_zero_copy_mode(memory_mode_of(caps)) == (memory_mode_of(caps) != "system-memory"@),
{
    reveal_strlit("D3D12Memory");
    reveal_strlit("D3D11Memory");
    reveal_strlit("VulkanImage");
    reveal_strlit("VAMemory");
    reveal_strlit("GLMemory");
    reveal_strlit("system-memory");
    assert("system-memory"@[0] == 's');
    assert("D3D12Memory"@[0] == 'D');
    assert("D3D11Memory"@[0] == 'D');
    assert("VulkanImage"@[0] == 'V');
    assert("VAMemory"@[0] == 'V');
    assert("GLMemory"@[0] == 'G');
}

/// The caps framerate text a stream negotiated at `fps` frames per second.
pub open spec fn requested_framerate_text(fps: u32) -> Seq<char> {
    decimal_seq(fps as nat) + "/1"@
}

/// Whether a caps framerate is exactly the requested rate (`"{fps}/1"`).
pub fn framerate_matches_requested(framerate: &str, fps: u32) -> (b: bool)
    ensures
        b == (framerate@ == requested_framerate_text(fps)),
{
    let mut expected = decimal_string(fps as u64);
    expected.append("/1");
    str_eq(framerate, expected.as_str())
}

/// High-fps transition risk: a requested rate of at least 240 fps whose new
/// caps framerate is known and differs from `"{fps}/1"`.
pub open spec fn high_fps_risk_for(requested_fps: Option<u32>, new_framerate: Option<Seq<char>>) -> bool {
    match (requested_fps, new_framerate) {
        (Some(fps), Some(f)) => fps >= 240 && f != requested_framerate_text(fps),
        _ => false,
    }
}

pub fn high_fps_transition_risk(requested_fps: Option<u32>, new_framerate: Option<&str>) -> (b: bool)
    ensures
        b == high_fps_risk_for(requested_fps, match new_framerate {
            Some(f) => Some(f@),
            None => None,
        }),
{
    match (requested_fps, new_framerate) {
        (Some(fps), Some(f)) => fps >= 240 && !framerate_matches_requested(f, fps),
        _ => false,
    }
}


/// What a pad's caps said when last seen: the caps text, its framerate field
/// and its memory path.
pub struct CapsSnapshot {
    pub caps: String,
    pub framerate: Option<String>,
    pub memory_mode: String,
}

/// The last caps seen on one pad, for detecting mid-stream transitions.
pub struct CapsTransitionTracker {
    pub last: Option<CapsSnapshot>,
}

/// What one observation of a pad's caps found.
pub enum CapsObservation {
    /// The first caps on this pad.
    First,
    /// Same caps, framerate and memory path as before.
    Unchanged,
    /// A transition from `old` to `new`.
    Changed { old: CapsSnapshot, new: CapsSnapshot },
}

/// A snapshot holds the caps `caps`, with the framerate and memory path they
/// name.
pub open spec fn snapshot_is(s: CapsSnapshot, caps: Seq<char>) -> bool {
    &&& s.caps@ == caps
    &&& match s.framerate {
        Some(f) => caps_framerate_of(caps) == Some(f@),
        None => caps_framerate_of(caps) is None,
    }
    &&& s.memory_mode@ == memory_mode_of(caps)
}

/// Whether a snapshot differs from what `caps` names in caps text,
/// framerate or memory path.
pub open spec fn snapshot_differs(s: CapsSnapshot, caps: Seq<char>) -> bool {
    ||| s.caps@ != caps
    ||| match s.framerate {
        Some(f) => caps_framerate_of(caps) != Some(f@),
        None => caps_framerate_of(caps) is Some,
    }
    ||| s.memory_mode@ != memory_mode_of(caps)
}

fn snapshot_of(caps: &str) -> (s: CapsSnapshot)
    ensures
        snapshot_is(s, caps@),
{
    CapsSnapshot {
        caps: String::from_str(caps),
        framerate: caps_framerate_summary(caps),
        memory_mode: String::from_str(memory_mode_from_caps(caps)),
    }
}

impl CapsTransitionTracker {
    pub fn new() -> (t: Self)
        ensures
            t.last is None,
    {
        CapsTransitionTracker { last: None }
    }

    /// Observe the caps a buffer carries: the first caps are recorded; caps
    /// differing in text, framerate or memory path from the recorded ones are
    /// a transition and replace them.
    pub fn observe(&mut self, caps: &str) -> (o: CapsObservation)
        ensures
            final(self).last is Some,
            snapshot_is(final(self).last->0, caps@),
            match old(self).last {
                None => o is First,
                Some(prev) => if snapshot_differs(prev, caps@) {
                    (o matches CapsObservation::Changed { old, new } && old == prev && snapshot_is(new, caps@))
                } else {
                    o is Unchanged && final(self).last == old(self).last
                },
            },
    {
        let current = snapshot_of(caps);
        match self.last.take() {
            None => {
                self.last = Some(current);
                CapsObservation::First
            },
            Some(prev) => {
                let same_caps = str_eq(prev.caps.as_str(), caps);
                let same_framerate = match (&prev.framerate, &current.framerate) {
                    (Some(a), Some(b)) => str_eq(a.as_str(), b.as_str()),
                    (None, None) => true,
                    _ => false,
                };
                let same_memory = str_eq(prev.memory_mode.as_str(), current.memory_mode.as_str());
                if same_caps && same_framerate && same_memory {
                    self.last = Some(prev);
                    CapsObservation::Unchanged
                } else {
                    let recorded = snapshot_of(caps);
                    self.last = Some(recorded);
                    CapsObservation::Changed { old: prev, new: current }
                }
            },
        }
    }
}

} // verus!

//! The HUD text that does not depend on measured rates: the status line
//! (pacing mode and network verdict with its recommendations), the decode
//! memory-path label and the ping shown.
use vstd::prelude::*;
use crate::adaptive::NetworkAssessment;
use crate::caps::is_zero_copy_mode;
use crate::liveness::LivenessState;
use crate::network::NetworkVerdict;
use crate::present::pacing_label_for;
use crate::watchdog::LOCAL_RTCP_FRESH_AGE_MS;

verus! {

/// The verdict as shown on the HUD.
pub open spec fn verdict_hud_label(v: NetworkVerdict) -> Seq<char> {
    match v {
        NetworkVerdict::Stable => "STABLE"@,
        NetworkVerdict::Degraded => "DEGRADED"@,
        NetworkVerdict::Poor => "POOR"@,
    }
}

/// The recommendation flags of an assessment, comma-separated, in order.
pub open spec fn recommendation_flags(a: NetworkAssessment) -> Seq<Seq<char>> {
    let f1: Seq<Seq<char>> = if a.recommend_lower_fps { seq!["lowerFps"@] } else { seq![] };
    let f2: Seq<Seq<char>> = if a.recommend_lower_resolution { f1.push("lowerRes"@) } else { f1 };
    if a.suggest_keyframe { f2.push("keyframe"@) } else { f2 }
}

/// `parts` joined by ", ".
pub open spec fn join_comma(parts: Seq<Seq<char>>) -> Seq<char>
    decreases parts.len(),
{
    if parts.len() == 0 {
        Seq::empty()
    } else if parts.len() == 1 {
        parts[0]
    } else {
        join_comma(parts.drop_last()) + ", "@ + parts.last()
    }
}

/// The HUD status line: "Pace <label>", then, once an assessment exists,
/// "  Net <VERDICT>" with " (<flags>)" when it recommends anything.
pub open spec fn status_line_of(pacing_mode: Seq<char>, last: Option<NetworkAssessment>) -> Seq<char> {
    let pace = "Pace "@ + pacing_label_for(pacing_mode);
    match last {
        None => pace,
        Some(a) => {
            let flags = recommendation_flags(a);
            let net = pace + "  Net "@ + verdict_hud_label(a.verdict);
            if flags.len() > 0 { net + " ("@ + join_comma(flags) + ")"@ } else { net }
        },
    }
}

/// The memory path with its zero-copy marker, after the hardware
/// acceleration when there is one.
pub open spec fn memory_path_label_of(hardware_acceleration: Seq<char>, memory_mode: Seq<char>) -> Seq<char> {
    let path = if is_zero_copy_mode(memory_mode) { memory_mode + " zero-copy"@ } else { memory_mode };
    if hardware_acceleration.len() == 0 { path } else { hardware_acceleration + " "@ + path }
}

/// The ping shown: the fresh local RTCP round-trip, else the server one
/// while positive and fresh (an unknown age counts as fresh).
pub open spec fn hud_ping_of(local_rtcp_rtt_ms: Option<u32>, server_rtt_ms: u32, server_rtt_age_ms: Option<u64>) -> Option<u32> {
    let server_fresh = server_rtt_ms > 0 && match server_rtt_age_ms {
        Some(age) => age <= LOCAL_RTCP_FRESH_AGE_MS,
        None => true,
    };
    if local_rtcp_rtt_ms is Some {
        local_rtcp_rtt_ms
    } else if server_fresh {
        Some(server_rtt_ms)
    } else {
        None
    }
}

pub fn hud_ping_ms(local_rtcp_rtt_ms: Option<u32>, server_rtt_ms: u32, server_rtt_age_ms: Option<u64>) -> (ping: Option<u32>)
    ensures
        ping == hud_ping_of(local_rtcp_rtt_ms, server_rtt_ms, server_rtt_age_ms),
{
    if local_rtcp_rtt_ms.is_some() {
        return local_rtcp_rtt_ms;
    }
    let fresh = server_rtt_ms > 0 && match server_rtt_age_ms {
        Some(age) => age <= LOCAL_RTCP_FRESH_AGE_MS as u64,
        None => true,
    };
    if fresh { Some(server_rtt_ms) } else { None }
}

fn verdict_hud_str(v: NetworkVerdict) -> (s: &'static str)
    ensures
        s@ == verdict_hud_label(v),
{
    match v {
        NetworkVerdict::Stable => "STABLE",
        NetworkVerdict::Degraded => "DEGRADED",
        NetworkVerdict::Poor => "POOR",
    }
}

/// Append one flag to a comma-separated list of `done` flags.
fn append_flag(s: &mut String, done: Ghost<Seq<Seq<char>>>, flag: &str)
    requires
        old(s)@ == join_comma(done@),
        forall|i: int| 0 <= i < done@.len() ==> #[trigger] done@[i].len() > 0,
        flag@.len() > 0,
    ensures
        final(s)@ == join_comma(done@.push(flag@)),
{
    if s.as_str().is_empty() {
        proof {
            lemma_join_comma_empty(done@);
        }
        s.append(flag);
        proof {
            if done@.len() == 0 {
                assert(done@.push(flag@)[0] == flag@);
            }
        }
    } else {
        s.append(", ");
        s.append(flag);
        proof {
            lemma_join_comma_empty(done@);
            assert(done@.push(flag@).drop_last() =~= done@);
        }
    }
}

/// A join of non-empty parts is empty only for no parts.
proof fn lemma_join_comma_empty(parts: Seq<Seq<char>>)
    requires
        forall|i: int| 0 <= i < parts.len() ==> #[trigger] parts[i].len() > 0,
    ensures
        join_comma(parts).len() == 0 <==> parts.len() == 0,
    decreases parts.len(),
{
    if parts.len() > 1 {
        lemma_join_comma_empty(parts.drop_last());
    }
}

impl LivenessState {
    /// The HUD status line for the current pacing mode and last assessment.
    pub fn hud_status_line(&self) -> (line: String)
        ensures
            line@ == status_line_of(self.hud.pacing_mode@, self.network.last_assessment),
    {
        let mut line = String::from_str("Pace ");
        let label = self.pacing_mode_hud_label();
        line.append(label.as_str());
        match self.network.last_assessment {
            None => line,
            Some(a) => {
                line.append("  Net ");
                line.append(verdict_hud_str(a.verdict));
                let mut flags = String::new();
                let ghost mut done: Seq<Seq<char>> = Seq::empty();
                proof {
                    reveal_strlit("lowerFps");
                    reveal_strlit("lowerRes");
                    reveal_strlit("keyframe");
                }
                if a.recommend_lower_fps {
                    append_flag(&mut flags, Ghost(done), "lowerFps");
                    proof { done = done.push("lowerFps"@); }
                }
                if a.recommend_lower_resolution {
                    append_flag(&mut flags, Ghost(done), "lowerRes");
                    proof { done = done.push("lowerRes"@); }
                }
                if a.suggest_keyframe {
                    append_flag(&mut flags, Ghost(done), "keyframe");
                    proof { done = done.push("keyframe"@); }
                }
                assert(done =~= recommendation_flags(a));
                assert(forall|i: int| 0 <= i < done.len() ==> #[trigger] done[i].len() > 0);
                if !flags.as_str().is_empty() {
                    line.append(" (");
                    line.append(flags.as_str());
                    line.append(")");
                }
                proof {
                    lemma_join_comma_empty(done);
                }
                line
            },
        }
    }

    /// The decode memory path as shown on the HUD.
    pub fn memory_path_label(&self) -> (label: String)
        ensures
            label@ == memory_path_label_of(self.session.hardware_acceleration@, self.session.memory_mode@),
    {
        let mut path = self.session.memory_mode.clone();
        if self.zero_copy() {
            path.append(" zero-copy");
        }
        if self.session.hardware_acceleration.as_str().is_empty() {
            path
        } else {
            let mut label = self.session.hardware_acceleration.clone();
            label.append(" ");
            label.append(path.as_str());
            label
        }
    }
}

} // verus!

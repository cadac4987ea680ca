//! Video stall detection: the escalation ladder of recovery actions taken
//! while the sink stops presenting frames.
use vstd::prelude::*;

verus! {

/// Stall age at which the first keyframe request fires.
pub const VIDEO_STALL_WARNING_MS: u64 = 2_500;
/// Stall age at which the second keyframe request fires.
pub const VIDEO_STALL_SECOND_ATTEMPT_MS: u64 = 5_000;
/// Stall age at which the pipeline latency is resynced.
pub const VIDEO_STALL_RESYNC_MS: u64 = 8_000;
/// Stall age at which the partial transition flush fires.
pub const VIDEO_STALL_PARTIAL_FLUSH_MS: u64 = 12_000;
/// Stall age at which the complete transition flush fires.
pub const VIDEO_STALL_COMPLETE_FLUSH_MS: u64 = 16_000;
/// Stall age at which recovery is declared exhausted.
pub const VIDEO_STALL_FATAL_MS: u64 = 20_000;
/// Minimum spacing between two recovery requests of one stall.
pub const VIDEO_STALL_MIN_KEYFRAME_REQUEST_MS: u64 = 2_000;

/// What the watchdog must do after one stall evaluation.
#[derive(Debug, Clone, Copy, PartialEq, Eq, Structural)]
pub enum VideoStallAction {
    NoAction,
    RequestKeyframe { attempt: u8, stall_ms: u64 },
    Resync { attempt: u8, stall_ms: u64 },
    PartialFlush { attempt: u8, stall_ms: u64 },
    CompleteFlush { attempt: u8, stall_ms: u64 },
    Fatal { attempt: u8, stall_ms: u64 },
    Recovered { stall_ms: u64 },
}

/// Per-stall escalation state of the sink liveness watchdog.
#[derive(Debug, Clone, Copy)]
pub struct VideoStallTracker {
    pub in_stall: bool,
    pub stall_started_ms: u64,
    pub last_request_ms: Option<u64>,
    pub next_attempt: u8,
}

/// `a - b`, or 0 when `b > a` (the unsigned saturating difference).
pub open spec fn sat_sub(a: u64, b: u64) -> u64 {
    if a >= b { (a - b) as u64 } else { 0 }
}

/// The idle tracker: no stall in progress, the next rung is the first one.
pub open spec fn idle_tracker() -> VideoStallTracker {
    VideoStallTracker { in_stall: false, stall_started_ms: 0, last_request_ms: None, next_attempt: 1 }
}

/// Stall age at which rung `attempt` (1-based) becomes due; `None` past the
/// last rung.
pub open spec fn rung_due_ms(attempt: u8) -> Option<u64> {
    if attempt == 1 {
        Some(VIDEO_STALL_WARNING_MS)
    } else if attempt == 2 {
        Some(VIDEO_STALL_SECOND_ATTEMPT_MS)
    } else if attempt == 3 {
        Some(VIDEO_STALL_RESYNC_MS)
    } else if attempt == 4 {
        Some(VIDEO_STALL_PARTIAL_FLUSH_MS)
    } else if attempt == 5 {
        Some(VIDEO_STALL_COMPLETE_FLUSH_MS)
    } else if attempt == 6 {
        Some(VIDEO_STALL_FATAL_MS)
    } else {
        None
    }
}

/// The recovery action of rung `attempt`.
pub open spec fn rung_action(attempt: u8, stall_ms: u64) -> VideoStallAction {
    if attempt == 1 || attempt == 2 {
        VideoStallAction::RequestKeyframe { attempt, stall_ms }
    } else if attempt == 3 {
        VideoStallAction::Resync { attempt, stall_ms }
    } else if attempt == 4 {
        VideoStallAction::PartialFlush { attempt, stall_ms }
    } else if attempt == 5 {
        VideoStallAction::CompleteFlush { attempt, stall_ms }
    } else {
        VideoStallAction::Fatal { attempt, stall_ms }
    }
}

/// Whether a previous request of this stall is too recent for another one.
pub open spec fn request_too_recent(last_request_ms: Option<u64>, now_ms: u64) -> bool {
    match last_request_ms {
        Some(last) => sat_sub(now_ms, last) < VIDEO_STALL_MIN_KEYFRAME_REQUEST_MS,
        None => false,
    }
}

/// One evaluation of the stall ladder: the tracker after the tick and the
/// action to take. A sink that presented within the warning window either
/// recovers an ongoing stall (resetting the ladder) or does nothing; a stalled
/// sink enters the stall (anchored at the last presented frame) and fires
/// the next rung once its due age is reached and the previous request is at
/// least `VIDEO_STALL_MIN_KEYFRAME_REQUEST_MS` old.
pub open spec fn stall_step(t: VideoStallTracker, now_ms: u64, last_video_ms: u64) -> (VideoStallTracker, VideoStallAction) {
    let stall_ms = sat_sub(now_ms, last_video_ms);
    if stall_ms < VIDEO_STALL_WARNING_MS {
        if t.in_stall {
            (idle_tracker(), VideoStallAction::Recovered { stall_ms: sat_sub(now_ms, t.stall_started_ms) })
        } else {
            (t, VideoStallAction::NoAction)
        }
    } else {
        let entered = if t.in_stall {
            t
        } else {
            VideoStallTracker { in_stall: true, stall_started_ms: last_video_ms, next_attempt: 1, ..t }
        };
        match rung_due_ms(entered.next_attempt) {
            None => (entered, VideoStallAction::NoAction),
            Some(due) => {
                if stall_ms < due || request_too_recent(entered.last_request_ms, now_ms) {
                    (entered, VideoStallAction::NoAction)
                } else {
                    (
                        VideoStallTracker {
                            next_attempt: (entered.next_attempt + 1) as u8,
                            last_request_ms: Some(now_ms),
                            ..entered
                        },
                        rung_action(entered.next_attempt, stall_ms),
                    )
                }
            },
        }
    }
}


/// The rung number carried by an escalation action (`None` for no action and
/// for a recovery).
pub open spec fn escalation_attempt(action: VideoStallAction) -> Option<u8> {
    match action {
        VideoStallAction::RequestKeyframe { attempt, .. } => Some(attempt),
        VideoStallAction::Resync { attempt, .. } => Some(attempt),
        VideoStallAction::PartialFlush { attempt, .. } => Some(attempt),
        VideoStallAction::CompleteFlush { attempt, .. } => Some(attempt),
        VideoStallAction::Fatal { attempt, .. } => Some(attempt),
        _ => None,
    }
}

/// A recovery always returns the tracker to the idle state, so the next stall
/// starts its ladder from the first rung.
pub proof fn lemma_recovery_resets_ladder(t: VideoStallTracker, now_ms: u64, last_video_ms: u64)
    requires
        t.wf(),
    ensures
        stall_step(t, now_ms, last_video_ms).1 is Recovered ==> stall_step(t, now_ms, last_video_ms).0 == idle_tracker(),
        stall_step(t, now_ms, last_video_ms).1 is Recovered ==> t.in_stall,
{
}

/// The rungs fire in order, one at a time: an escalation carries the rung the
/// tracker was waiting for (the first one when the stall just began), the
/// stall is at least as old as that rung's due age, and the tracker then
/// waits for the following rung.
pub proof fn lemma_rungs_fire_in_order(t: VideoStallTracker, now_ms: u64, last_video_ms: u64)
    requires
        t.wf(),
    ensures
        ({
            let (t2, action) = stall_step(t, now_ms, last_video_ms);
            let expected: u8 = if t.in_stall { t.next_attempt } else { 1 };
            escalation_attempt(action) is Some ==> {
                &&& escalation_attempt(action) == Some(expected)
                &&& rung_due_ms(expected) is Some
                &&& sat_sub(now_ms, last_video_ms) >= rung_due_ms(expected)->0
                &&& t2.next_attempt == expected + 1
                &&& t2.in_stall
                &&& t2.last_request_ms == Some(now_ms)
                &&& action == rung_action(expected, sat_sub(now_ms, last_video_ms))
            }
        }),
{
}

/// Two recovery requests of one stall are at least
/// `VIDEO_STALL_MIN_KEYFRAME_REQUEST_MS` apart on the watchdog clock.
pub proof fn lemma_requests_are_spaced(t: VideoStallTracker, now1: u64, last1: u64, now2: u64, last2: u64)
    requires
        t.wf(),
        escalation_attempt(stall_step(t, now1, last1).1) is Some,
        escalation_attempt(stall_step(stall_step(t, now1, last1).0, now2, last2).1) is Some,
    ensures
        now2 >= now1 + VIDEO_STALL_MIN_KEYFRAME_REQUEST_MS,
{
}

/// The fatal rung is the last one: once it fired, the rest of that stall only
/// ever yields no action, or the recovery.
pub proof fn lemma_fatal_is_last_rung(t: VideoStallTracker, now_ms: u64, last_video_ms: u64)
    requires
        t.wf(),
        t.in_stall,
        t.next_attempt == 7,
    ensures
        escalation_attempt(stall_step(t, now_ms, last_video_ms).1) is None,
        stall_step(t, now_ms, last_video_ms).1 is NoAction ==> stall_step(t, now_ms, last_video_ms).0 == t,
{
}

/// The fatal action leaves the tracker past its last rung.
pub proof fn lemma_fatal_exhausts_ladder(t: VideoStallTracker, now_ms: u64, last_video_ms: u64)
    requires
        t.wf(),
        stall_step(t, now_ms, last_video_ms).1 is Fatal,
    ensures
        stall_step(t, now_ms, last_video_ms).0.in_stall,
        stall_step(t, now_ms, last_video_ms).0.next_attempt == 7,
{
}

/// The tracker and the actions after evaluating the calls
/// `(now_ms, last_video_ms)` in order, starting from `t`: since each
/// `VideoStallTracker::evaluate` call is exactly one `stall_step`, this is
/// the tracker and the results after calling `evaluate` on each in turn.
pub open spec fn stall_run(t: VideoStallTracker, calls: Seq<(u64, u64)>) -> (VideoStallTracker, Seq<VideoStallAction>)
    decreases calls.len(),
{
    if calls.len() == 0 {
        (t, Seq::empty())
    } else {
        let (t1, actions) = stall_run(t, calls.drop_last());
        let (t2, action) = stall_step(t1, calls.last().0, calls.last().1);
        (t2, actions.push(action))
    }
}

/// Number of escalations (rungs fired) among `actions`.
pub open spec fn escalation_count(actions: Seq<VideoStallAction>) -> nat
    decreases actions.len(),
{
    if actions.len() == 0 {
        0
    } else {
        escalation_count(actions.drop_last()) + if escalation_attempt(actions.last()) is Some { 1nat } else { 0nat }
    }
}

/// Stall age of one call.
pub open spec fn call_stall_ms(call: (u64, u64)) -> u64 {
    sat_sub(call.0, call.1)
}

/// Facts kept along one uninterrupted stall that starts from the idle
/// tracker.
proof fn lemma_stall_history(calls: Seq<(u64, u64)>)
    requires
        forall|i: int| 0 <= i < calls.len() ==> call_stall_ms(#[trigger] calls[i]) >= VIDEO_STALL_WARNING_MS,
        forall|i: int, j: int| 0 <= i <= j < calls.len() ==> calls[i].0 <= calls[j].0,
    ensures
        ({
            let (t, actions) = stall_run(idle_tracker(), calls);
            &&& t.wf()
            &&& actions.len() == calls.len()
            &&& calls.len() == 0 ==> t == idle_tracker()
            &&& calls.len() > 0 ==> t.in_stall
            &&& t.next_attempt == escalation_count(actions) + 1
            &&& escalation_count(actions) == 0 ==> t.last_request_ms is None
            &&& escalation_count(actions) > 0 ==> t.last_request_ms is Some && forall|i: int|
                0 <= i < actions.len() && escalation_attempt(#[trigger] actions[i]) is Some ==> calls[i].0
                    <= t.last_request_ms->0
            &&& forall|i: int| 0 <= i < actions.len() ==> !(#[trigger] actions[i] is Recovered)
            &&& forall|i: int|
                0 <= i < actions.len() && escalation_attempt(#[trigger] actions[i]) is Some ==> {
                    let k = (escalation_count(actions.take(i)) + 1) as u8;
                    &&& rung_due_ms(k) is Some
                    &&& call_stall_ms(calls[i]) >= rung_due_ms(k)->0
                    &&& actions[i] == rung_action(k, call_stall_ms(calls[i]))
                }
            &&& forall|i: int, j: int|
                0 <= i < j < actions.len() && escalation_attempt(#[trigger] actions[i]) is Some && escalation_attempt(
                    #[trigger] actions[j],
                ) is Some ==> calls[j].0 >= calls[i].0 + VIDEO_STALL_MIN_KEYFRAME_REQUEST_MS
        }),
    decreases calls.len(),
{
    if calls.len() > 0 {
        let prev = calls.drop_last();
        assert forall|i: int| 0 <= i < prev.len() implies call_stall_ms(#[trigger] prev[i]) >= VIDEO_STALL_WARNING_MS by {
            assert(prev[i] == calls[i]);
        }
        assert forall|i: int, j: int| 0 <= i <= j < prev.len() implies prev[i].0 <= prev[j].0 by {
            assert(prev[i] == calls[i] && prev[j] == calls[j]);
        }
        lemma_stall_history(prev);
        let (t1, acts1) = stall_run(idle_tracker(), prev);
        let (t, actions) = stall_run(idle_tracker(), calls);
        let (n, l) = calls.last();
        let a = stall_step(t1, n, l).1;
        assert(actions == acts1.push(a));
        assert(actions.drop_last() =~= acts1);
        assert(call_stall_ms(calls[calls.len() - 1]) >= VIDEO_STALL_WARNING_MS);
        let j = calls.len() - 1;
        assert forall|i: int| 0 <= i < acts1.len() implies #[trigger] actions.take(i) =~= acts1.take(i) && actions[i]
            == acts1[i] && calls[i] == prev[i] by {}
        assert(actions.take(j) =~= acts1);
        if escalation_count(acts1) > 0 {
            assert forall|i: int| 0 <= i < acts1.len() && escalation_attempt(#[trigger] acts1[i]) is Some implies calls[i].0
                <= n by {
                assert(calls[i].0 <= calls[j].0);
            }
        }
        assert forall|i: int| 0 <= i < actions.len() && escalation_attempt(#[trigger] actions[i]) is Some implies {
            let k = (escalation_count(actions.take(i)) + 1) as u8;
            &&& rung_due_ms(k) is Some
            &&& call_stall_ms(calls[i]) >= rung_due_ms(k)->0
            &&& actions[i] == rung_action(k, call_stall_ms(calls[i]))
        } by {
            if i < j {
                assert(actions.take(i) =~= acts1.take(i));
                assert(actions[i] == acts1[i]);
            }
        }
        assert forall|i: int, k: int|
            0 <= i < k < actions.len() && escalation_attempt(#[trigger] actions[i]) is Some && escalation_attempt(
                #[trigger] actions[k],
            ) is Some implies calls[k].0 >= calls[i].0 + VIDEO_STALL_MIN_KEYFRAME_REQUEST_MS by {
            assert(actions[i] == acts1[i]);
            if k < j {
                assert(actions[k] == acts1[k]);
            }
        }
        if escalation_count(actions) > 0 {
            assert forall|i: int| 0 <= i < actions.len() && escalation_attempt(#[trigger] actions[i]) is Some implies calls[i].0
                <= t.last_request_ms->0 by {
                if i < j {
                    assert(actions[i] == acts1[i]);
                    assert(calls[i].0 <= calls[j].0);
                }
            }
        }
        assert forall|i: int| 0 <= i < actions.len() implies !(#[trigger] actions[i] is Recovered) by {
            if i < j {
                assert(actions[i] == acts1[i]);
            }
        }
    }
}

/// Along one stall (every call at least `VIDEO_STALL_WARNING_MS` past the
/// last present, on a non-decreasing clock) starting from a tracker outside
/// any stall, the rungs fire in order: the k-th escalation is rung k, fired
/// no earlier than its due age, any two are at least
/// `VIDEO_STALL_MIN_KEYFRAME_REQUEST_MS` apart, at most six fire, and no
/// recovery is reported.
pub proof fn lemma_ladder_order_over_history(calls: Seq<(u64, u64)>)
    requires
        forall|i: int| 0 <= i < calls.len() ==> call_stall_ms(#[trigger] calls[i]) >= VIDEO_STALL_WARNING_MS,
        forall|i: int, j: int| 0 <= i <= j < calls.len() ==> calls[i].0 <= calls[j].0,
    ensures
        ({
            let actions = stall_run(idle_tracker(), calls).1;
            &&& actions.len() == calls.len()
            &&& escalation_count(actions) <= 6
            &&& forall|i: int| 0 <= i < actions.len() ==> !(#[trigger] actions[i] is Recovered)
            &&& forall|i: int|
                0 <= i < actions.len() && escalation_attempt(#[trigger] actions[i]) is Some ==> {
                    let k = (escalation_count(actions.take(i)) + 1) as u8;
                    &&& rung_due_ms(k) is Some
                    &&& call_stall_ms(calls[i]) >= rung_due_ms(k)->0
                    &&& actions[i] == rung_action(k, call_stall_ms(calls[i]))
                }
            &&& forall|i: int, j: int|
                0 <= i < j < actions.len() && escalation_attempt(#[trigger] actions[i]) is Some && escalation_attempt(
                    #[trigger] actions[j],
                ) is Some ==> calls[j].0 >= calls[i].0 + VIDEO_STALL_MIN_KEYFRAME_REQUEST_MS
        }),
{
    lemma_stall_history(calls);
}

/// Start of the stall still open after `calls`: the last-present stamp of
/// the first call of the current run of stalled calls (a call within the
/// warning window closes any stall); `None` when no stall is open.
pub open spec fn open_stall_start(calls: Seq<(u64, u64)>) -> Option<u64>
    decreases calls.len(),
{
    if calls.len() == 0 {
        None
    } else {
        let prev = open_stall_start(calls.drop_last());
        if call_stall_ms(calls.last()) < VIDEO_STALL_WARNING_MS {
            None
        } else if prev is Some {
            prev
        } else {
            Some(calls.last().1)
        }
    }
}

proof fn lemma_open_stall(calls: Seq<(u64, u64)>)
    ensures
        ({
            let t = stall_run(idle_tracker(), calls).0;
            &&& t.wf()
            &&& t.in_stall <==> open_stall_start(calls) is Some
            &&& t.in_stall ==> t.stall_started_ms == open_stall_start(calls)->0
        }),
    decreases calls.len(),
{
    if calls.len() > 0 {
        lemma_open_stall(calls.drop_last());
    }
}

/// When a recovery is owed: from a fresh tracker, after any calls, a call
/// within the warning window reports `Recovered` with the age of the open
/// stall (measured from the last present before it) exactly when a stall is
/// open, and no action otherwise; either way the tracker is idle again.
pub proof fn lemma_recovery_owed(calls: Seq<(u64, u64)>, now_ms: u64, last_video_ms: u64)
    requires
        sat_sub(now_ms, last_video_ms) < VIDEO_STALL_WARNING_MS,
    ensures
        ({
            let (t, action) = stall_step(stall_run(idle_tracker(), calls).0, now_ms, last_video_ms);
            &&& t == idle_tracker()
            &&& action == match open_stall_start(calls) {
                Some(start) => VideoStallAction::Recovered { stall_ms: sat_sub(now_ms, start) },
                None => VideoStallAction::NoAction,
            }
        }),
{
    lemma_open_stall(calls);
}

impl VideoStallTracker {
    /// Well-formedness: outside a stall the tracker is idle, and the next
    /// rung never passes the one after the fatal rung.
    pub open spec fn wf(&self) -> bool {
        &&& (!self.in_stall ==> *self == idle_tracker())
        &&& 1 <= self.next_attempt <= 7
    }

    pub fn new() -> (t: Self)
        ensures
            t == idle_tracker(),
            t.wf(),
    {
        VideoStallTracker { in_stall: false, stall_started_ms: 0, last_request_ms: None, next_attempt: 1 }
    }

    /// Evaluate the stall ladder at `now_ms` for a sink that last presented
    /// at `last_video_ms`.
    pub fn evaluate(&mut self, now_ms: u64, last_video_ms: u64) -> (action: VideoStallAction)
        ensures
            (*final(self), action) == stall_step(*old(self), now_ms, last_video_ms),
            old(self).wf() ==> final(self).wf(),
    {
        let stall_ms = now_ms.saturating_sub(last_video_ms);
        if stall_ms < VIDEO_STALL_WARNING_MS {
            if self.in_stall {
                let recovered_ms = now_ms.saturating_sub(self.stall_started_ms);
                *self = Self::new();
                return VideoStallAction::Recovered { stall_ms: recovered_ms };
            }
            return VideoStallAction::NoAction;
        }
        if !self.in_stall {
            self.in_stall = true;
            self.stall_started_ms = last_video_ms;
            self.next_attempt = 1;
        }
        let next_due_ms = match self.next_attempt {
            1 => VIDEO_STALL_WARNING_MS,
            2 => VIDEO_STALL_SECOND_ATTEMPT_MS,
            3 => VIDEO_STALL_RESYNC_MS,
            4 => VIDEO_STALL_PARTIAL_FLUSH_MS,
            5 => VIDEO_STALL_COMPLETE_FLUSH_MS,
            6 => VIDEO_STALL_FATAL_MS,
            _ => return VideoStallAction::NoAction,
        };
        if stall_ms < next_due_ms {
            return VideoStallAction::NoAction;
        }
        let too_recent = match self.last_request_ms {
            Some(last) => now_ms.saturating_sub(last) < VIDEO_STALL_MIN_KEYFRAME_REQUEST_MS,
            None => false,
        };
        if too_recent {
            return VideoStallAction::NoAction;
        }
        let attempt = self.next_attempt;
        self.next_attempt = self.next_attempt.saturating_add(1);
        self.last_request_ms = Some(now_ms);
        match attempt {
            1 | 2 => VideoStallAction::RequestKeyframe { attempt, stall_ms },
            3 => VideoStallAction::Resync { attempt, stall_ms },
            4 => VideoStallAction::PartialFlush { attempt, stall_ms },
            5 => VideoStallAction::CompleteFlush { attempt, stall_ms },
            _ => VideoStallAction::Fatal { attempt, stall_ms },
        }
    }
}

impl Default for VideoStallTracker {
    fn default() -> (t: Self)
        ensures
            t == idle_tracker(),
    {
        Self::new()
    }
}

/// Where a stall most likely sits, from the ages (ms since the last buffer)
/// of the encoded RTP, the decoded frames and the presented frames.
#[derive(Debug, Clone, Copy, PartialEq, Eq, Structural)]
pub enum VideoStallStage {
    VideoRtpIdle,
    DecodeChainStalled,
    PresentChainStalled,
    VideoRtpNotObserved,
    VideoOutputStalled,
}

/// An age counts as recent activity when at most this old (ms).
pub const ACTIVE_RECENT_MS: u64 = 1_000;

pub open spec fn stall_stage_for(encoded_age_ms: Option<u64>, decoded_age_ms: Option<u64>, sink_age_ms: Option<u64>) -> VideoStallStage {
    if encoded_age_ms is Some && encoded_age_ms->0 > VIDEO_STALL_WARNING_MS {
        VideoStallStage::VideoRtpIdle
    } else if encoded_age_ms is Some && decoded_age_ms is Some && encoded_age_ms->0 <= ACTIVE_RECENT_MS
        && decoded_age_ms->0 > VIDEO_STALL_WARNING_MS {
        VideoStallStage::DecodeChainStalled
    } else if decoded_age_ms is Some && sink_age_ms is Some && decoded_age_ms->0 <= ACTIVE_RECENT_MS
        && sink_age_ms->0 > VIDEO_STALL_WARNING_MS {
        VideoStallStage::PresentChainStalled
    } else if encoded_age_ms is None {
        VideoStallStage::VideoRtpNotObserved
    } else {
        VideoStallStage::VideoOutputStalled
    }
}

pub open spec fn stall_stage_label(stage: VideoStallStage) -> Seq<char> {
    match stage {
        VideoStallStage::VideoRtpIdle => "video-rtp-idle"@,
        VideoStallStage::DecodeChainStalled => "decode-chain-stalled"@,
        VideoStallStage::PresentChainStalled => "present-chain-stalled"@,
        VideoStallStage::VideoRtpNotObserved => "video-rtp-not-observed"@,
        VideoStallStage::VideoOutputStalled => "video-output-stalled"@,
    }
}

pub fn stall_stage(encoded_age_ms: Option<u64>, decoded_age_ms: Option<u64>, sink_age_ms: Option<u64>) -> (stage: VideoStallStage)
    ensures
        stage == stall_stage_for(encoded_age_ms, decoded_age_ms, sink_age_ms),
{
    match (encoded_age_ms, decoded_age_ms, sink_age_ms) {
        (Some(encoded), _, _) if encoded > VIDEO_STALL_WARNING_MS => VideoStallStage::VideoRtpIdle,
        (Some(encoded), Some(decoded), _) if encoded <= ACTIVE_RECENT_MS && decoded > VIDEO_STALL_WARNING_MS => {
            VideoStallStage::DecodeChainStalled
        },
        (_, Some(decoded), Some(sink)) if decoded <= ACTIVE_RECENT_MS && sink > VIDEO_STALL_WARNING_MS => {
            VideoStallStage::PresentChainStalled
        },
        (None, _, _) => VideoStallStage::VideoRtpNotObserved,
        _ => VideoStallStage::VideoOutputStalled,
    }
}

impl VideoStallStage {
    pub fn as_str(&self) -> (s: &'static str)
        ensures
            s@ == stall_stage_label(*self),
    {
        match self {
            VideoStallStage::VideoRtpIdle => "video-rtp-idle",
            VideoStallStage::DecodeChainStalled => "decode-chain-stalled",
            VideoStallStage::PresentChainStalled => "present-chain-stalled",
            VideoStallStage::VideoRtpNotObserved => "video-rtp-not-observed",
            VideoStallStage::VideoOutputStalled => "video-output-stalled",
        }
    }
}

/// The likely stall stage, as its label.
pub fn classify_video_stall(encoded_age_ms: Option<u64>, decoded_age_ms: Option<u64>, sink_age_ms: Option<u64>) -> (label: &'static str)
    ensures
        label@ == stall_stage_label(stall_stage_for(encoded_age_ms, decoded_age_ms, sink_age_ms)),
{
    stall_stage(encoded_age_ms, decoded_age_ms, sink_age_ms).as_str()
}

/// A decoder transition stall: encoded RTP keeps arriving (within the last
/// second) while the decode chain has produced nothing for the warning
/// window.
pub fn is_transition_stall(encoded_age_ms: Option<u64>, decoded_age_ms: Option<u64>, sink_age_ms: Option<u64>) -> (b: bool)
    ensures
        b == (stall_stage_for(encoded_age_ms, decoded_age_ms, sink_age_ms) == VideoStallStage::DecodeChainStalled
            && encoded_age_ms is Some && encoded_age_ms->0 <= ACTIVE_RECENT_MS),
{
    let stage = stall_stage(encoded_age_ms, decoded_age_ms, sink_age_ms);
    let recent = match encoded_age_ms {
        Some(age) => age <= ACTIVE_RECENT_MS,
        None => false,
    };
    match stage {
        VideoStallStage::DecodeChainStalled => recent,
        _ => false,
    }
}

/// Age (ms) of an activity stamp at `now_ms`; `None` when it never happened
/// (stamp 0).
pub open spec fn age_since(now_ms: u64, last_ms: u64) -> Option<u64> {
    if last_ms != 0 { Some(sat_sub(now_ms, last_ms)) } else { None }
}

pub fn age_since_ms(now_ms: u64, last_ms: u64) -> (age: Option<u64>)
    ensures
        age == age_since(now_ms, last_ms),
{
    if last_ms != 0 { Some(now_ms.saturating_sub(last_ms)) } else { None }
}

/// Log rendering of an optional age: "<n>ms", or "n/a".
pub fn format_age_ms(age_ms: Option<u64>) -> (s: String)
    ensures
        s@ == (match age_ms {
            Some(a) => crate::text::decimal_seq(a as nat) + "ms"@,
            None => "n/a"@,
        }),
{
    match age_ms {
        Some(a) => {
            let mut s = crate::text::decimal_string(a);
            s.append("ms");
            s
        },
        None => String::from_str("n/a"),
    }
}

} // verus!

//! Present pacing: the limiter's target clamp, its deep-backlog drop rule,
//! the slot-grid advance, and the HUD label of the pacing mode.
//!
//! Instants are monotonic clock readings in nanoseconds, durations are
//! nanoseconds.
use vstd::prelude::*;
use crate::text::{is_ascii_digit, lower_eq, lower_seq, trim, trim_seq};

verus! {

/// Highest frame rate the present limiter will pace to.
pub const MAX_SANE_PRESENT_FPS: u32 = 1_000;
/// Catch-up budget: frames arriving up to this long before their slot pass.
pub const PRESENT_LIMITER_BACKLOG_TOLERANCE_NS: u64 = 250_000_000;

/// Clamp a stored present-limiter target to a real frame rate: 0 (pacing
/// off) stays 0, everything else is capped at 1000 fps so the frame interval
/// is never below 1 ms.
pub fn clamped_present_target_fps(raw: u32) -> (fps: u32)
    ensures
        fps == if raw <= MAX_SANE_PRESENT_FPS { raw } else { MAX_SANE_PRESENT_FPS },
        fps <= MAX_SANE_PRESENT_FPS,
        (fps == 0) == (raw == 0),
{
    if raw < MAX_SANE_PRESENT_FPS { raw } else { MAX_SANE_PRESENT_FPS }
}

/// Deep-backlog rule: a frame is dropped only when it arrives more than
/// `tolerance_ns` before its present slot.
pub fn present_limiter_should_drop(now_ns: u64, next_present_ns: u64, tolerance_ns: u64) -> (drop: bool)
    requires
        now_ns + tolerance_ns <= u64::MAX,
    ensures
        drop == (now_ns + tolerance_ns < next_present_ns),
{
    now_ns + tolerance_ns < next_present_ns
}

/// The first slot of the grid `next + k·step` (k ≥ 0) that lies after `now`.
pub fn next_present_slot(next_ns: u64, now_ns: u64, step_ns: u64) -> (slot: u64)
    requires
        step_ns > 0,
        now_ns + step_ns <= u64::MAX,
    ensures
        slot > now_ns,
        slot >= next_ns,
        (slot - next_ns) % (step_ns as int) == 0,
        slot > next_ns ==> slot - step_ns <= now_ns,
{
    let mut slot = next_ns;
    proof {
        vstd::arithmetic::div_mod::lemma_small_mod(0, step_ns as nat);
    }
    while slot <= now_ns
        invariant
            step_ns > 0,
            now_ns + step_ns <= u64::MAX,
            slot >= next_ns,
            (slot - next_ns) % (step_ns as int) == 0,
            slot > next_ns ==> slot - step_ns <= now_ns,
        decreases now_ns as int + step_ns as int - slot as int,
    {
        proof {
            vstd::arithmetic::div_mod::lemma_mod_add_multiples_vanish((slot - next_ns) as int, step_ns as int);
        }
        slot = slot + step_ns;
    }
    slot
}

/// HUD label of a pacing mode: the named modes keep their name
/// ("disabled"/"none" read "off"), an explicit rate reads "<n>fps", anything
/// else reads "?". The mode is trimmed and ASCII-lowercased first.
pub open spec fn pacing_label_for(mode: Seq<char>) -> Seq<char> {
    let m = lower_seq(trim_seq(mode));
    if m == "auto"@ {
        "auto"@
    } else if m == "stream"@ {
        "stream"@
    } else if m == "vrr"@ {
        "vrr"@
    } else if m == "off"@ || m == "disabled"@ || m == "none"@ {
        "off"@
    } else if m.len() > 0 && (forall|i: int| 0 <= i < m.len() ==> is_ascii_digit(#[trigger] m[i])) {
        m + "fps"@
    } else {
        "?"@
    }
}

/// Compact HUD label for the present-limiter pacing mode.
pub fn pacing_mode_hud_label(mode: &str) -> (label: String)
    ensures
        label@ == pacing_label_for(mode@),
{
    let t = trim(mode);
    if lower_eq(t, "auto") {
        return String::from_str("auto");
    }
    if lower_eq(t, "stream") {
        return String::from_str("stream");
    }
    if lower_eq(t, "vrr") {
        return String::from_str("vrr");
    }
    if lower_eq(t, "off") || lower_eq(t, "disabled") || lower_eq(t, "none") {
        return String::from_str("off");
    }
    let n = t.unicode_len();
    let mut all_digits = n > 0;
    let mut i: usize = 0;
    while i < n && all_digits
        invariant
            n == t@.len(),
            i <= n,
            all_digits ==> n > 0,
            all_digits ==> forall|k: int| 0 <= k < i ==> is_ascii_digit(#[trigger] t@[k]),
            !all_digits ==> (n == 0 || exists|k: int| 0 <= k < n && !is_ascii_digit(#[trigger] t@[k])),
        decreases n - i,
    {
        let c = t.get_char(i);
        if !('0' <= c && c <= '9') {
            all_digits = false;
        }
        i = i + 1;
    }
    let ghost m = lower_seq(t@);
    proof {
        if all_digits {
            assert forall|k: int| 0 <= k < n implies m[k] == t@[k] && is_ascii_digit(#[trigger] m[k]) by {
                assert(is_ascii_digit(t@[k]));
            }
            assert(m =~= t@);
        } else if n > 0 {
            let k = choose|k: int| 0 <= k < n && !is_ascii_digit(#[trigger] t@[k]);
            assert(!is_ascii_digit(m[k]));
        }
    }
    if all_digits {
        let mut label = String::from_str(t);
        label.append("fps");
        label
    } else {
        String::from_str("?")
    }
}

/// The label of a normalized (trimmed, lowercased) mode is the label of the
/// mode itself.
pub proof fn lemma_pacing_label_normalized(mode: Seq<char>)
    ensures
        pacing_label_for(lower_seq(trim_seq(mode))) == pacing_label_for(mode),
{
    crate::text::lemma_normalize_idempotent(mode);
}

/// Schedule step used when no present step is known yet (16 ms).
pub const PRESENT_FALLBACK_STEP_NS: u64 = 16_000_000;
/// A frame earlier than a tenth of the present step before its slot is held.
pub const PRESENT_GRID_TOLERANCE_DIVISOR: u64 = 10;
/// Length of one limiter log window (1 s).
pub const PRESENT_LOG_INTERVAL_NS: u64 = 1_000_000_000;

/// The present limiter's slot grid, counters and held frame.
#[derive(Debug, Clone, Copy)]
pub struct PresentLimiter {
    /// The next present slot.
    pub next_present_ns: u64,
    /// Start of the current log window.
    pub last_log_ns: u64,
    /// Frames passed / dropped in the current log window (saturating).
    pub passed: u32,
    pub dropped: u32,
    /// The pacing target the grid was built for (0 = none yet).
    pub active_fps: u32,
    /// Arrival of the last presented frame (for the cadence average).
    pub last_frame_ns: Option<u64>,
    /// Average (75% history) of the real present-to-present cadence.
    pub present_duration_ema_ns: Option<u64>,
    /// A frame is held for its slot.
    pub holding: bool,
    /// The present step of the last scheduled frame (0 = none yet).
    pub present_step_ns: u64,
}

/// What the limiter does with an arriving frame before its slot is placed.
#[derive(Debug, Clone, Copy, PartialEq, Eq, Structural)]
pub enum Admission {
    /// Pacing is off: the frame passes.
    PassThrough { discarded_held: bool },
    /// The frame arrived too far before its slot: it is dropped.
    Drop { pacing_changed: bool, discarded_held: bool },
    /// The frame is scheduled: the caller computes the present step for
    /// `target_fps` and places it.
    Schedule { target_fps: u32, pacing_changed: bool, discarded_held: bool },
}

/// Where a scheduled frame goes.
#[derive(Debug, Clone, Copy, PartialEq, Eq, Structural)]
pub enum Placement {
    /// Held until its slot (a newer early frame replaces an older one).
    Hold { replaced_held: bool },
    /// Presented now; a frame still held for an earlier slot is discarded.
    Pass { discarded_held: bool, previous_frame_ns: Option<u64> },
}

/// What becomes of one arriving frame.
#[derive(Debug, Clone, Copy, PartialEq, Eq, Structural)]
pub enum FrameFate {
    /// Pacing is off: the frame passes untouched.
    PassThrough,
    /// Too far ahead of its slot: dropped.
    Dropped,
    /// Held until its slot; the pacer releases it.
    Held,
    /// Presented now.
    Presented { previous_frame_ns: Option<u64> },
}

/// The limiter's decision for one arriving frame.
#[derive(Debug, Clone, Copy, PartialEq, Eq, Structural)]
pub struct FrameDecision {
    pub fate: FrameFate,
    /// The pacing target changed and the grid restarted.
    pub pacing_changed: bool,
    /// A frame held earlier is discarded (overtaken, replaced, or pacing
    /// turned off or changed).
    pub discarded_held: bool,
    /// Frames this decision drops, the arriving one and a discarded held
    /// one: each consumes one decode→present pairing entry.
    pub frames_dropped: u32,
    /// The pacing target (0 when pacing is off).
    pub target_fps: u32,
    /// The present step used for placing (0 when the frame was not placed).
    pub step_ns: u64,
}

/// The limiter after a change of pacing target to `target` at `now_ns`: the
/// grid, the log window and the cadence restart at `now_ns`, and a held
/// frame is discarded (as the window's only drop).
pub open spec fn regrid(o: PresentLimiter, target: u32, now_ns: u64) -> PresentLimiter {
    PresentLimiter {
        active_fps: target,
        next_present_ns: now_ns,
        last_log_ns: now_ns,
        passed: 0,
        dropped: if o.holding { 1 } else { 0 },
        last_frame_ns: None,
        present_duration_ema_ns: None,
        holding: false,
        ..o
    }
}

/// `a + 1`, saturating at `u32::MAX`.
pub open spec fn inc_sat(a: u32) -> u32 {
    if a == u32::MAX { u32::MAX } else { (a + 1) as u32 }
}

/// The pacing target for a stored raw target.
pub open spec fn clamped_target(raw: u32) -> u32 {
    if raw <= MAX_SANE_PRESENT_FPS { raw } else { MAX_SANE_PRESENT_FPS }
}

/// `slot` is the first slot of the grid `next + k·step` after `now`.
pub open spec fn is_next_slot(slot: u64, next_ns: u64, now_ns: u64, step_ns: u64) -> bool {
    &&& slot > now_ns
    &&& slot >= next_ns
    &&& (slot - next_ns) % (step_ns as int) == 0
    &&& slot > next_ns ==> slot - step_ns <= now_ns
}

/// The schedule after presenting at `now`: anchored at `now` when early,
/// else advanced to the first slot after `now` (a 16 ms grid when the step
/// is unknown).
pub open spec fn schedule_after(next_ns: u64, now_ns: u64, step_ns: u64, slot: u64) -> bool {
    if step_ns == 0 {
        slot == now_ns + PRESENT_FALLBACK_STEP_NS
    } else if now_ns < next_ns {
        slot == now_ns + step_ns
    } else {
        is_next_slot(slot, next_ns, now_ns, step_ns)
    }
}

/// Hold rule: a frame arriving more than a tenth of the step before its slot
/// waits for the slot.
pub open spec fn should_hold(now_ns: u64, next_ns: u64, step_ns: u64) -> bool {
    now_ns + step_ns / PRESENT_GRID_TOLERANCE_DIVISOR < next_ns
}

impl PresentLimiter {
    pub fn new(now_ns: u64) -> (l: Self)
        ensures
            l == (PresentLimiter {
                next_present_ns: now_ns,
                last_log_ns: now_ns,
                passed: 0,
                dropped: 0,
                active_fps: 0,
                last_frame_ns: None,
                present_duration_ema_ns: None,
                holding: false,
                present_step_ns: 0,
            }),
    {
        PresentLimiter {
            next_present_ns: now_ns,
            last_log_ns: now_ns,
            passed: 0,
            dropped: 0,
            active_fps: 0,
            last_frame_ns: None,
            present_duration_ema_ns: None,
            holding: false,
            present_step_ns: 0,
        }
    }

    /// Take one arriving frame at `now_ns` under the stored target
    /// `raw_target_fps` (clamped to 1000). Pacing off passes everything and
    /// discards a held frame. A new target restarts the grid at `now_ns`
    /// (and the log window), discarding a held frame. Then a frame more than
    /// the catch-up budget before its slot is dropped; any other is handed
    /// back for scheduling.
    pub fn accept_frame(&mut self, raw_target_fps: u32, now_ns: u64) -> (a: Admission)
        requires
            now_ns + PRESENT_LIMITER_BACKLOG_TOLERANCE_NS <= u64::MAX,
        ensures
            ({
                let target = clamped_target(raw_target_fps);
                let o = *old(self);
                if target == 0 {
                    &&& a == Admission::PassThrough { discarded_held: o.holding }
                    &&& *final(self) == (PresentLimiter {
                        holding: false,
                        dropped: if o.holding { inc_sat(o.dropped) } else { o.dropped },
                        ..o
                    })
                } else {
                    let changed = o.active_fps != target;
                    let base = if changed {
                        PresentLimiter {
                            active_fps: target,
                            next_present_ns: now_ns,
                            last_log_ns: now_ns,
                            passed: 0,
                            dropped: if o.holding { 1 } else { 0 },
                            last_frame_ns: None,
                            present_duration_ema_ns: None,
                            holding: false,
                            ..o
                        }
                    } else {
                        o
                    };
                    let discarded = changed && o.holding;
                    if now_ns + PRESENT_LIMITER_BACKLOG_TOLERANCE_NS < base.next_present_ns {
                        &&& a == Admission::Drop { pacing_changed: changed, discarded_held: discarded }
                        &&& *final(self) == (PresentLimiter { dropped: inc_sat(base.dropped), ..base })
                    } else {
                        &&& a == Admission::Schedule { target_fps: target, pacing_changed: changed, discarded_held: discarded }
                        &&& *final(self) == base
                    }
                }
            }),
    {
        let target = clamped_present_target_fps(raw_target_fps);
        if target == 0 {
            let held = self.holding;
            if held {
                self.holding = false;
                self.dropped = self.dropped.saturating_add(1);
            }
            return Admission::PassThrough { discarded_held: held };
        }
        let changed = self.active_fps != target;
        let mut discarded = false;
        if changed {
            self.active_fps = target;
            self.next_present_ns = now_ns;
            self.last_log_ns = now_ns;
            self.passed = 0;
            self.dropped = 0;
            self.last_frame_ns = None;
            self.present_duration_ema_ns = None;
            if self.holding {
                self.holding = false;
                self.dropped = 1;
                discarded = true;
            }
        }
        if present_limiter_should_drop(now_ns, self.next_present_ns, PRESENT_LIMITER_BACKLOG_TOLERANCE_NS) {
            self.dropped = self.dropped.saturating_add(1);
            return Admission::Drop { pacing_changed: changed, discarded_held: discarded };
        }
        Admission::Schedule { target_fps: target, pacing_changed: changed, discarded_held: discarded }
    }

    /// A frame is presented at `now_ns`: it becomes the last one and the
    /// cadence average takes in the gap from the previous one.
    fn note_present(&mut self, now_ns: u64)
        ensures
            *final(self) == (PresentLimiter {
                last_frame_ns: Some(now_ns),
                present_duration_ema_ns: cadence_after(old(self).present_duration_ema_ns, old(self).last_frame_ns, now_ns),
                ..*old(self)
            }),
    {
        if let Some(previous) = self.last_frame_ns {
            let delta = now_ns.saturating_sub(previous);
            self.present_duration_ema_ns = Some(cadence_ema_next(self.present_duration_ema_ns, delta));
        }
        self.last_frame_ns = Some(now_ns);
    }

    /// The present step for pacing to `target_fps` with the current cadence
    /// average (see `present_step_for`).
    pub fn present_step(&self, target_fps: u32, stream_fps: Option<u32>, display_hz: Option<u32>) -> (step: u64)
        ensures
            step == present_step_for(target_fps, stream_fps, display_hz, self.present_duration_ema_ns),
    {
        present_step_ns(target_fps, stream_fps, display_hz, self.present_duration_ema_ns)
    }

    /// Advance the schedule for a frame presented at `now_ns`.
    fn advance_schedule(&mut self, now_ns: u64)
        requires
            now_ns + old(self).present_step_ns <= u64::MAX,
            now_ns + PRESENT_FALLBACK_STEP_NS <= u64::MAX,
        ensures
            schedule_after(old(self).next_present_ns, now_ns, old(self).present_step_ns, final(self).next_present_ns),
            *final(self) == (PresentLimiter { next_present_ns: final(self).next_present_ns, ..*old(self) }),
    {
        let step = self.present_step_ns;
        if step == 0 {
            self.next_present_ns = now_ns + PRESENT_FALLBACK_STEP_NS;
        } else if now_ns < self.next_present_ns {
            self.next_present_ns = now_ns + step;
        } else {
            self.next_present_ns = next_present_slot(self.next_present_ns, now_ns, step);
        }
    }

    /// Place a scheduled frame arriving at `now_ns` with present step
    /// `step_ns`: hold it when it is early beyond a tenth of the step (a
    /// newer early frame replaces a held one, counted as dropped); else
    /// present it now, discard any frame still held for an earlier slot, and
    /// advance the schedule.
    pub fn place(&mut self, now_ns: u64, step_ns: u64) -> (p: Placement)
        requires
            now_ns + step_ns <= u64::MAX,
            now_ns + PRESENT_FALLBACK_STEP_NS <= u64::MAX,
        ensures
            ({
                let o = PresentLimiter { present_step_ns: step_ns, ..*old(self) };
                if should_hold(now_ns, o.next_present_ns, step_ns) {
                    &&& p == Placement::Hold { replaced_held: o.holding }
                    &&& *final(self) == (PresentLimiter {
                        holding: true,
                        dropped: if o.holding { inc_sat(o.dropped) } else { o.dropped },
                        ..o
                    })
                } else {
                    &&& p == Placement::Pass { discarded_held: o.holding, previous_frame_ns: o.last_frame_ns }
                    &&& schedule_after(o.next_present_ns, now_ns, step_ns, final(self).next_present_ns)
                    &&& *final(self) == (PresentLimiter {
                        next_present_ns: final(self).next_present_ns,
                        passed: inc_sat(o.passed),
                        dropped: if o.holding { inc_sat(o.dropped) } else { o.dropped },
                        holding: false,
                        last_frame_ns: Some(now_ns),
                        present_duration_ema_ns: cadence_after(o.present_duration_ema_ns, o.last_frame_ns, now_ns),
                        ..o
                    })
                }
            }),
            final(self).next_present_ns > now_ns || should_hold(now_ns, old(self).next_present_ns, step_ns),
    {
        self.present_step_ns = step_ns;
        if present_limiter_should_hold(now_ns, self.next_present_ns, step_ns) {
            let replaced = self.holding;
            if replaced {
                self.dropped = self.dropped.saturating_add(1);
            }
            self.holding = true;
            return Placement::Hold { replaced_held: replaced };
        }
        self.passed = self.passed.saturating_add(1);
        let discarded = self.holding;
        if discarded {
            self.holding = false;
            self.dropped = self.dropped.saturating_add(1);
        }
        let previous = self.last_frame_ns;
        self.note_present(now_ns);
        self.advance_schedule(now_ns);
        Placement::Pass { discarded_held: discarded, previous_frame_ns: previous }
    }

    /// Whether a frame arriving under the stored target `raw_target_fps`
    /// changes the pacing target (and so restarts the grid).
    pub fn pacing_change_pending(&self, raw_target_fps: u32) -> (pending: bool)
        ensures
            pending == (clamped_target(raw_target_fps) != 0 && clamped_target(raw_target_fps) != self.active_fps),
    {
        let target = clamped_present_target_fps(raw_target_fps);
        target != 0 && target != self.active_fps
    }

    /// The whole rule for one frame arriving at `now_ns` under the stored
    /// target `raw_target_fps`, with the stream and display rates for the
    /// present step. Pacing off passes the frame and discards a held one. A
    /// new target restarts the grid at `now_ns`, discarding a held frame.
    /// A frame more than the catch-up budget before its slot is dropped; one
    /// more than a tenth of the step early is held (replacing a held frame);
    /// any other is presented now, discarding a frame still held for an
    /// earlier slot, and the schedule advances. Every dropped frame is
    /// counted in `frames_dropped` and in the log window.
    pub fn handle_frame(&mut self, raw_target_fps: u32, now_ns: u64, stream_fps: Option<u32>, display_hz: Option<u32>) -> (d: FrameDecision)
        requires
            now_ns <= u64::MAX / 2,
        ensures
            ({
                let o = *old(self);
                let target = clamped_target(raw_target_fps);
                if target == 0 {
                    &&& d == (FrameDecision {
                        fate: FrameFate::PassThrough,
                        pacing_changed: false,
                        discarded_held: o.holding,
                        frames_dropped: if o.holding { 1 } else { 0 },
                        target_fps: 0,
                        step_ns: 0,
                    })
                    &&& *final(self) == (PresentLimiter {
                        holding: false,
                        dropped: if o.holding { inc_sat(o.dropped) } else { o.dropped },
                        ..o
                    })
                } else {
                    let changed = o.active_fps != target;
                    let base = if changed { regrid(o, target, now_ns) } else { o };
                    let discarded = changed && o.holding;
                    if now_ns + PRESENT_LIMITER_BACKLOG_TOLERANCE_NS < base.next_present_ns {
                        &&& d == (FrameDecision {
                            fate: FrameFate::Dropped,
                            pacing_changed: changed,
                            discarded_held: discarded,
                            frames_dropped: if discarded { 2 } else { 1 },
                            target_fps: target,
                            step_ns: 0,
                        })
                        &&& *final(self) == (PresentLimiter { dropped: inc_sat(base.dropped), ..base })
                    } else {
                        let step = present_step_for(target, stream_fps, display_hz, base.present_duration_ema_ns);
                        let b = PresentLimiter { present_step_ns: step, ..base };
                        let lost_held = discarded || b.holding;
                        &&& d.pacing_changed == changed
                        &&& d.discarded_held == lost_held
                        &&& d.frames_dropped == (if lost_held { 1u32 } else { 0u32 })
                        &&& d.target_fps == target
                        &&& d.step_ns == step
                        &&& if should_hold(now_ns, b.next_present_ns, step) {
                            &&& d.fate == FrameFate::Held
                            &&& *final(self) == (PresentLimiter {
                                holding: true,
                                dropped: if b.holding { inc_sat(b.dropped) } else { b.dropped },
                                ..b
                            })
                        } else {
                            &&& d.fate == (FrameFate::Presented { previous_frame_ns: b.last_frame_ns })
                            &&& schedule_after(b.next_present_ns, now_ns, step, final(self).next_present_ns)
                            &&& *final(self) == (PresentLimiter {
                                next_present_ns: final(self).next_present_ns,
                                passed: inc_sat(b.passed),
                                dropped: if b.holding { inc_sat(b.dropped) } else { b.dropped },
                                holding: false,
                                last_frame_ns: Some(now_ns),
                                present_duration_ema_ns: cadence_after(b.present_duration_ema_ns, b.last_frame_ns, now_ns),
                                ..b
                            })
                        }
                    }
                }
            }),
    {
        let admission = self.accept_frame(raw_target_fps, now_ns);
        match admission {
            Admission::PassThrough { discarded_held } => FrameDecision {
                fate: FrameFate::PassThrough,
                pacing_changed: false,
                discarded_held,
                frames_dropped: if discarded_held { 1 } else { 0 },
                target_fps: 0,
                step_ns: 0,
            },
            Admission::Drop { pacing_changed, discarded_held } => FrameDecision {
                fate: FrameFate::Dropped,
                pacing_changed,
                discarded_held,
                frames_dropped: if discarded_held { 2 } else { 1 },
                target_fps: clamped_present_target_fps(raw_target_fps),
                step_ns: 0,
            },
            Admission::Schedule { target_fps, pacing_changed, discarded_held } => {
                let step_ns = self.present_step(target_fps, stream_fps, display_hz);
                proof {
                    lemma_present_step_bounded(target_fps, stream_fps, display_hz, self.present_duration_ema_ns);
                }
                let placement = self.place(now_ns, step_ns);
                match placement {
                    Placement::Hold { replaced_held } => FrameDecision {
                        fate: FrameFate::Held,
                        pacing_changed,
                        discarded_held: discarded_held || replaced_held,
                        frames_dropped: if discarded_held || replaced_held { 1 } else { 0 },
                        target_fps,
                        step_ns,
                    },
                    Placement::Pass { discarded_held: overtaken, previous_frame_ns } => FrameDecision {
                        fate: FrameFate::Presented { previous_frame_ns },
                        pacing_changed,
                        discarded_held: discarded_held || overtaken,
                        frames_dropped: if discarded_held || overtaken { 1 } else { 0 },
                        target_fps,
                        step_ns,
                    },
                }
            },
        }
    }

    /// Whether the held frame's slot has come at `now_ns`.
    pub fn release_due(&self, now_ns: u64) -> (due: bool)
        ensures
            due == (self.holding && now_ns >= self.next_present_ns),
    {
        self.holding && now_ns >= self.next_present_ns
    }

    /// The pacer releases the held frame at `now_ns`: it is presented (the
    /// previous presentation time is returned for the cadence average) and
    /// the schedule moves past the slot that fired. `None` when nothing is
    /// held.
    pub fn release(&mut self, now_ns: u64) -> (previous: Option<Option<u64>>)
        requires
            now_ns + old(self).present_step_ns <= u64::MAX,
            now_ns + PRESENT_FALLBACK_STEP_NS <= u64::MAX,
        ensures
            !old(self).holding ==> previous is None && *final(self) == *old(self),
            old(self).holding ==> {
                &&& previous == Some(old(self).last_frame_ns)
                &&& schedule_after(old(self).next_present_ns, now_ns, old(self).present_step_ns, final(self).next_present_ns)
                &&& *final(self) == (PresentLimiter {
                    next_present_ns: final(self).next_present_ns,
                    passed: inc_sat(old(self).passed),
                    holding: false,
                    last_frame_ns: Some(now_ns),
                    present_duration_ema_ns: cadence_after(old(self).present_duration_ema_ns, old(self).last_frame_ns, now_ns),
                    ..*old(self)
                })
            },
            final(self).holding == false,
    {
        if !self.holding {
            return None;
        }
        let previous = self.last_frame_ns;
        self.note_present(now_ns);
        self.advance_schedule(now_ns);
        self.passed = self.passed.saturating_add(1);
        self.holding = false;
        Some(previous)
    }

    /// A frame refused because the pacer is pushing a released frame at that
    /// moment: counted as dropped; the schedule and the held frame are kept.
    pub fn collision_drop(&mut self)
        ensures
            *final(self) == (PresentLimiter { dropped: inc_sat(old(self).dropped), ..*old(self) }),
    {
        self.dropped = self.dropped.saturating_add(1);
    }

    /// End of stream: a held frame is discarded (counted as dropped).
    pub fn end_of_stream(&mut self) -> (discarded: bool)
        ensures
            discarded == old(self).holding,
            *final(self) == (PresentLimiter {
                holding: false,
                dropped: if old(self).holding { inc_sat(old(self).dropped) } else { old(self).dropped },
                ..*old(self)
            }),
    {
        let held = self.holding;
        if held {
            self.holding = false;
            self.dropped = self.dropped.saturating_add(1);
        }
        held
    }

    /// Close the log window when it is at least 1 s old at `now_ns`: return
    /// its passed/dropped counts and start a new one.
    pub fn take_log_window(&mut self, now_ns: u64) -> (w: Option<(u32, u32)>)
        ensures
            ({
                let o = *old(self);
                if now_ns >= o.last_log_ns && now_ns - o.last_log_ns >= PRESENT_LOG_INTERVAL_NS {
                    &&& w == Some((o.passed, o.dropped))
                    &&& *final(self) == (PresentLimiter { passed: 0, dropped: 0, last_log_ns: now_ns, ..o })
                } else {
                    &&& w is None
                    &&& *final(self) == o
                }
            }),
    {
        if now_ns >= self.last_log_ns && now_ns - self.last_log_ns >= PRESENT_LOG_INTERVAL_NS {
            let w = (self.passed, self.dropped);
            self.passed = 0;
            self.dropped = 0;
            self.last_log_ns = now_ns;
            Some(w)
        } else {
            None
        }
    }
}

/// Delayed-delivery gate: a frame arriving more than a tenth of the present
/// step before its slot is held for the slot.
pub fn present_limiter_should_hold(now_ns: u64, next_present_ns: u64, step_ns: u64) -> (hold: bool)
    requires
        now_ns + step_ns <= u64::MAX,
    ensures
        hold == should_hold(now_ns, next_present_ns, step_ns),
{
    now_ns + step_ns / PRESENT_GRID_TOLERANCE_DIVISOR < next_present_ns
}

/// Refresh intervals per stream frame for the cinematic cadence: the
/// display/stream ratio rounded (halves up), within 1..=4; 1 when either
/// rate is unusable.
pub open spec fn cinematic_base_for(display_hz: u32, stream_fps: u32) -> u32 {
    if display_hz <= 1 || stream_fps == 0 {
        1
    } else {
        let rounded = (2 * display_hz + stream_fps) / (2 * stream_fps);
        if rounded < 1 { 1 } else if rounded > 4 { 4 } else { rounded as u32 }
    }
}

pub fn cinematic_base_intervals(display_hz: u32, stream_fps: u32) -> (n: u32)
    ensures
        n == cinematic_base_for(display_hz, stream_fps),
        1 <= n <= 4,
{
    if display_hz <= 1 || stream_fps == 0 {
        return 1;
    }
    let rounded: u64 = (2 * display_hz as u64 + stream_fps as u64) / (2 * stream_fps as u64);
    if rounded < 1 {
        1
    } else if rounded > 4 {
        4
    } else {
        rounded as u32
    }
}


/// Nanoseconds per second.
pub const NANOS_PER_SECOND: u64 = 1_000_000_000;

/// The cadence average after a gap of `delta_ns` (75% history, 25% latest;
/// the first gap is taken as is).
pub open spec fn cadence_ema_step(ema_ns: Option<u64>, delta_ns: u64) -> u64 {
    match ema_ns {
        None => delta_ns,
        Some(e) => ((3 * e + delta_ns) / 4) as u64,
    }
}

/// The cadence average after a present at `now_ns` following the one at
/// `last_ns` (unchanged for the first present).
pub open spec fn cadence_after(ema_ns: Option<u64>, last_ns: Option<u64>, now_ns: u64) -> Option<u64> {
    match last_ns {
        Some(last) => Some(cadence_ema_step(ema_ns, crate::stall::sat_sub(now_ns, last))),
        None => ema_ns,
    }
}

fn cadence_ema_next(ema_ns: Option<u64>, delta_ns: u64) -> (e: u64)
    ensures
        e == cadence_ema_step(ema_ns, delta_ns),
{
    match ema_ns {
        None => delta_ns,
        Some(e) => ((3 * e as u128 + delta_ns as u128) / 4) as u64,
    }
}

/// VRR correction of the present step: when the real cadence runs slower
/// than the stream's natural interval, shorten the step by 1% of the gap,
/// at most 1% of the step; otherwise (or with no cadence yet) keep it.
pub open spec fn vrr_step_for(frame_ns: u64, natural_ns: u64, ema_ns: Option<u64>) -> u64 {
    match ema_ns {
        None => frame_ns,
        Some(e) => if e <= natural_ns {
            frame_ns
        } else {
            let gap = (e - natural_ns) as u64;
            let m = if frame_ns <= gap { frame_ns } else { gap };
            (frame_ns - m / 100) as u64
        },
    }
}

pub fn vrr_corrected_present_duration(frame_ns: u64, natural_ns: u64, ema_ns: Option<u64>) -> (step: u64)
    ensures
        step == vrr_step_for(frame_ns, natural_ns, ema_ns),
        step <= frame_ns,
        step >= frame_ns - frame_ns / 100,
{
    match ema_ns {
        None => frame_ns,
        Some(e) => if e <= natural_ns {
            frame_ns
        } else {
            let gap = e - natural_ns;
            let m = if frame_ns <= gap { frame_ns } else { gap };
            frame_ns - m / 100
        },
    }
}

/// The cinematic cadence: `cinematic_base_for` refresh intervals per frame,
/// one fewer (never below 1) while the real cadence runs more than 25%
/// behind the stream interval.
pub open spec fn cinematic_intervals_for(display_hz: u32, stream_fps: u32, ema_ns: Option<u64>) -> u32 {
    let base = cinematic_base_for(display_hz, stream_fps);
    if base <= 1 {
        1
    } else {
        match ema_ns {
            Some(e) => if 4 * e * stream_fps > 5 * NANOS_PER_SECOND { (base - 1) as u32 } else { base },
            None => base,
        }
    }
}

pub fn cinematic_present_intervals(display_hz: u32, stream_fps: u32, ema_ns: Option<u64>) -> (n: u32)
    ensures
        n == cinematic_intervals_for(display_hz, stream_fps, ema_ns),
        1 <= n <= 4,
{
    let base = cinematic_base_intervals(display_hz, stream_fps);
    if base <= 1 {
        return 1;
    }
    match ema_ns {
        Some(e) => {
            let scaled: u128 = 4 * e as u128;
            assert(scaled * (stream_fps as u128) <= 4 * 0xFFFF_FFFF_FFFF_FFFFu128 * 0xFFFF_FFFFu128) by (nonlinear_arith)
                requires
                    scaled <= 4 * 0xFFFF_FFFF_FFFF_FFFFu128,
                    stream_fps <= 0xFFFF_FFFFu32,
            ;
            if scaled * stream_fps as u128 > 5 * NANOS_PER_SECOND as u128 {
                base - 1
            } else {
                base
            }
        },
        None => base,
    }
}

/// The present step (ns) for pacing to `target_fps`: the cinematic cadence
/// (N display refreshes) when the display and stream rates are known and it
/// engages, else the VRR-corrected frame interval, referenced to the stream
/// interval when the stream rate is known.
pub open spec fn present_step_for(target_fps: u32, stream_fps: Option<u32>, display_hz: Option<u32>, ema_ns: Option<u64>) -> u64 {
    let frame = NANOS_PER_SECOND / (if target_fps == 0 { 1 } else { target_fps }) as u64;
    let natural = match stream_fps {
        Some(s) => if s > 0 { NANOS_PER_SECOND / (s as u64) } else { frame },
        None => frame,
    };
    let vrr = vrr_step_for(frame as u64, natural as u64, ema_ns);
    match (display_hz, stream_fps) {
        (Some(d), Some(s)) => {
            let n = cinematic_intervals_for(d, s, ema_ns);
            if n > 1 { ((n as int) * (NANOS_PER_SECOND as int) / (d as int)) as u64 } else { vrr }
        },
        _ => vrr,
    }
}

pub fn present_step_ns(target_fps: u32, stream_fps: Option<u32>, display_hz: Option<u32>, ema_ns: Option<u64>) -> (step: u64)
    ensures
        step == present_step_for(target_fps, stream_fps, display_hz, ema_ns),
{
    let frame = NANOS_PER_SECOND / (if target_fps == 0 { 1 } else { target_fps }) as u64;
    let natural = match stream_fps {
        Some(s) => if s > 0 { NANOS_PER_SECOND / (s as u64) } else { frame },
        None => frame,
    };
    let vrr = vrr_corrected_present_duration(frame, natural, ema_ns);
    match (display_hz, stream_fps) {
        (Some(d), Some(s)) => {
            let n = cinematic_present_intervals(d, s, ema_ns);
            if n > 1 {
                proof {
                    assert(d > 1);
                }
                (n as u64) * NANOS_PER_SECOND / (d as u64)
            } else {
                vrr
            }
        },
        _ => vrr,
    }
}


/// The present step never exceeds two seconds.
pub proof fn lemma_present_step_bounded(target_fps: u32, stream_fps: Option<u32>, display_hz: Option<u32>, ema_ns: Option<u64>)
    ensures
        present_step_for(target_fps, stream_fps, display_hz, ema_ns) <= 2 * NANOS_PER_SECOND,
{
    let f: u64 = (if target_fps == 0 { 1 } else { target_fps }) as u64;
    let frame = NANOS_PER_SECOND / f;
    assert(frame <= NANOS_PER_SECOND) by (nonlinear_arith)
        requires
            f >= 1,
            frame == NANOS_PER_SECOND / f,
    ;
    match (display_hz, stream_fps) {
        (Some(d), Some(s)) => {
            let n = cinematic_intervals_for(d, s, ema_ns);
            if n > 1 {
                assert(cinematic_base_for(d, s) <= 4);
                assert(d > 1);
                assert(n <= 4);
                assert((n as int) * (NANOS_PER_SECOND as int) / (d as int) <= 2 * NANOS_PER_SECOND) by (nonlinear_arith)
                    requires
                        1 < n <= 4,
                        d >= 2,
                {
                    assert((n as int) * (NANOS_PER_SECOND as int) <= 4 * NANOS_PER_SECOND);
                    vstd::arithmetic::div_mod::lemma_div_is_ordered_by_denominator(4 * NANOS_PER_SECOND as int, 2, d as int);
                    vstd::arithmetic::div_mod::lemma_div_is_ordered((n as int) * (NANOS_PER_SECOND as int), 4 * NANOS_PER_SECOND as int, d as int);
                }
            }
        },
        _ => {},
    }
}

/// A slower real cadence never lengthens the VRR-corrected step, and the
/// step never exceeds the frame interval nor drops below 99% of it.
pub proof fn lemma_vrr_step_monotonic(frame_ns: u64, natural_ns: u64, ema1: u64, ema2: u64)
    requires
        ema1 <= ema2,
    ensures
        vrr_step_for(frame_ns, natural_ns, Some(ema2)) <= vrr_step_for(frame_ns, natural_ns, Some(ema1)),
        vrr_step_for(frame_ns, natural_ns, Some(ema1)) <= vrr_step_for(frame_ns, natural_ns, None),
        vrr_step_for(frame_ns, natural_ns, Some(ema2)) >= frame_ns - frame_ns / 100,
{
    if ema1 > natural_ns {
        let g1 = (ema1 - natural_ns) as u64;
        let g2 = (ema2 - natural_ns) as u64;
        let m1 = if frame_ns <= g1 { frame_ns } else { g1 };
        let m2 = if frame_ns <= g2 { frame_ns } else { g2 };
        assert(m1 <= m2);
        assert(m1 / 100 <= m2 / 100) by (nonlinear_arith)
            requires
                m1 <= m2,
        {
            vstd::arithmetic::div_mod::lemma_div_is_ordered(m1 as int, m2 as int, 100);
        }
    }
    if ema2 > natural_ns {
        let g2 = (ema2 - natural_ns) as u64;
        let m2 = if frame_ns <= g2 { frame_ns } else { g2 };
        assert(m2 / 100 <= frame_ns / 100) by (nonlinear_arith)
            requires
                m2 <= frame_ns,
        {
            vstd::arithmetic::div_mod::lemma_div_is_ordered(m2 as int, frame_ns as int, 100);
        }
    }
}

} // verus!

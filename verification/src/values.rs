//! Typed values read from element statistics and pad state, reduced to the
//! plain values the liveness logic reads.
use vstd::prelude::*;

verus! {

/// A numeric statistics field as its element exposes it (the width and
/// signedness vary between elements and runtime versions).
#[derive(Debug, Clone, Copy, PartialEq, Eq, Structural)]
pub enum StatValue {
    UChar(u8),
    UInt(u32),
    UInt64(u64),
    Int(i32),
    Int64(i64),
    /// Any other type.
    Other,
}

/// A counter field read as `u64`: the unsigned widths as they are, the
/// signed ones when not negative; anything else (and `guchar`) is absent.
pub open spec fn counter_value(v: StatValue) -> Option<u64> {
    match v {
        StatValue::UInt(x) => Some(x as u64),
        StatValue::UInt64(x) => Some(x),
        StatValue::Int(x) => if x >= 0 { Some(x as u64) } else { None },
        StatValue::Int64(x) => if x >= 0 { Some(x as u64) } else { None },
        _ => None,
    }
}

pub fn stat_counter_u64(v: StatValue) -> (r: Option<u64>)
    ensures
        r == counter_value(v),
{
    match v {
        StatValue::UInt(x) => Some(x as u64),
        StatValue::UInt64(x) => Some(x),
        StatValue::Int(x) => if x >= 0 { Some(x as u64) } else { None },
        StatValue::Int64(x) => if x >= 0 { Some(x as u64) } else { None },
        _ => None,
    }
}

/// The RTCP round-trip field (16.16 fixed point) read as `u64`: only the
/// unsigned widths the session statistics use.
pub open spec fn round_trip_value(v: StatValue) -> Option<u64> {
    match v {
        StatValue::UChar(x) => Some(x as u64),
        StatValue::UInt(x) => Some(x as u64),
        StatValue::UInt64(x) => Some(x),
        _ => None,
    }
}

pub fn stat_round_trip_fixed(v: StatValue) -> (r: Option<u64>)
    ensures
        r == round_trip_value(v),
{
    match v {
        StatValue::UChar(x) => Some(x as u64),
        StatValue::UInt(x) => Some(x as u64),
        StatValue::UInt64(x) => Some(x),
        _ => None,
    }
}

/// The kind of a sticky event on a pad.
#[derive(Debug, Clone, Copy, PartialEq, Eq, Structural)]
pub enum StickyEventKind {
    StreamStart,
    Caps,
    Segment,
    Other,
}

/// Whether the sticky events hold the full media sequence: a stream-start,
/// caps and a segment.
pub open spec fn has_media_sequence(kinds: Seq<StickyEventKind>) -> bool {
    &&& kinds.contains(StickyEventKind::StreamStart)
    &&& kinds.contains(StickyEventKind::Caps)
    &&& kinds.contains(StickyEventKind::Segment)
}

pub fn has_media_sticky_events(kinds: &[StickyEventKind]) -> (b: bool)
    ensures
        b == has_media_sequence(kinds@),
{
    let mut start = false;
    let mut caps = false;
    let mut segment = false;
    let mut i: usize = 0;
    while i < kinds.len()
        invariant
            i <= kinds@.len(),
            start == exists|j: int| 0 <= j < i && kinds@[j] == StickyEventKind::StreamStart,
            caps == exists|j: int| 0 <= j < i && kinds@[j] == StickyEventKind::Caps,
            segment == exists|j: int| 0 <= j < i && kinds@[j] == StickyEventKind::Segment,
        decreases kinds@.len() - i,
    {
        match kinds[i] {
            StickyEventKind::StreamStart => start = true,
            StickyEventKind::Caps => caps = true,
            StickyEventKind::Segment => segment = true,
            StickyEventKind::Other => {},
        }
        i = i + 1;
    }
    start && caps && segment
}

} // verus!

//! Byte-level classification of RTCP feedback and of RTP video packet
//! headers.
use vstd::prelude::*;
use crate::text::{upper_eq, upper_seq};

verus! {

/// Per-type tally of the RTCP messages in one (possibly compound) packet.
#[derive(Debug, Default, Clone, Copy, PartialEq, Eq, Structural)]
pub struct RtcpMessageCounts {
    pub sr: u64,
    pub rr: u64,
    pub twcc: u64,
    pub nack: u64,
    pub pli: u64,
    pub fir: u64,
    pub other: u64,
}

/// The kind of one RTCP message: sender/receiver report, transport feedback
/// (NACK, transport-cc), payload-specific feedback (PLI, FIR), or other.
#[derive(Debug, Clone, Copy, PartialEq, Eq, Structural)]
pub enum RtcpKind {
    Sr,
    Rr,
    Twcc,
    Nack,
    Pli,
    Fir,
    Other,
}

/// Kind of a message from its first header byte (FMT in the low five bits)
/// and its payload type.
pub open spec fn rtcp_kind(byte0: u8, pt: u8) -> RtcpKind {
    let fmt = byte0 % 32;
    if pt == 200 {
        RtcpKind::Sr
    } else if pt == 201 {
        RtcpKind::Rr
    } else if pt == 205 {
        if fmt == 1 { RtcpKind::Nack } else if fmt == 15 { RtcpKind::Twcc } else { RtcpKind::Other }
    } else if pt == 206 {
        if fmt == 1 { RtcpKind::Pli } else if fmt == 4 { RtcpKind::Fir } else { RtcpKind::Other }
    } else {
        RtcpKind::Other
    }
}

/// The kind of a message depends on its first byte only through the FMT
/// field (its low five bits; the version and padding bits are ignored):
/// PT 200 is a sender report and PT 201 a receiver report whatever the FMT;
/// transport feedback (PT 205) with FMT 1 is a NACK and with FMT 15
/// transport-cc; payload-specific feedback (PT 206) with FMT 1 is a PLI and
/// with FMT 4 a FIR; everything else is other.
pub proof fn lemma_rtcp_kind_rule(byte0: u8, pt: u8)
    ensures
        rtcp_kind(byte0, pt) == rtcp_kind(byte0 % 32, pt),
        pt == 200 ==> rtcp_kind(byte0, pt) == RtcpKind::Sr,
        pt == 201 ==> rtcp_kind(byte0, pt) == RtcpKind::Rr,
        pt == 205 && byte0 % 32 == 1 ==> rtcp_kind(byte0, pt) == RtcpKind::Nack,
        pt == 205 && byte0 % 32 == 15 ==> rtcp_kind(byte0, pt) == RtcpKind::Twcc,
        pt == 206 && byte0 % 32 == 1 ==> rtcp_kind(byte0, pt) == RtcpKind::Pli,
        pt == 206 && byte0 % 32 == 4 ==> rtcp_kind(byte0, pt) == RtcpKind::Fir,
        !(pt == 200 || pt == 201 || (pt == 205 && (byte0 % 32 == 1 || byte0 % 32 == 15)) || (pt == 206 && (byte0 % 32
            == 1 || byte0 % 32 == 4))) ==> rtcp_kind(byte0, pt) == RtcpKind::Other,
{
}

/// Length in bytes of the message whose header starts at `offset`:
/// (length field + 1) 32-bit words.
pub open spec fn rtcp_message_len(buf: Seq<u8>, offset: int) -> int {
    (buf[offset + 2] * 256 + buf[offset + 3] + 1) * 4
}

/// The kinds of the complete messages of `buf` from `offset` on, walking the
/// length fields; a truncated tail (partial header or body) ends the walk.
pub open spec fn rtcp_kinds_from(buf: Seq<u8>, offset: int) -> Seq<RtcpKind>
    decreases buf.len() - offset,
{
    if offset < 0 || offset + 4 > buf.len() || offset + rtcp_message_len(buf, offset) > buf.len() {
        Seq::empty()
    } else {
        seq![rtcp_kind(buf[offset], buf[offset + 1])] + rtcp_kinds_from(buf, offset + rtcp_message_len(buf, offset))
    }
}

/// Number of messages of kind `k`.
pub open spec fn count_kind(kinds: Seq<RtcpKind>, k: RtcpKind) -> nat
    decreases kinds.len(),
{
    if kinds.len() == 0 {
        0
    } else {
        count_kind(kinds.drop_last(), k) + if kinds.last() == k { 1nat } else { 0nat }
    }
}

/// The tally of a kind sequence.
pub open spec fn tally(kinds: Seq<RtcpKind>) -> RtcpMessageCounts {
    RtcpMessageCounts {
        sr: count_kind(kinds, RtcpKind::Sr) as u64,
        rr: count_kind(kinds, RtcpKind::Rr) as u64,
        twcc: count_kind(kinds, RtcpKind::Twcc) as u64,
        nack: count_kind(kinds, RtcpKind::Nack) as u64,
        pli: count_kind(kinds, RtcpKind::Pli) as u64,
        fir: count_kind(kinds, RtcpKind::Fir) as u64,
        other: count_kind(kinds, RtcpKind::Other) as u64,
    }
}

proof fn lemma_count_kind_le_len(kinds: Seq<RtcpKind>, k: RtcpKind)
    ensures
        count_kind(kinds, k) <= kinds.len(),
    decreases kinds.len(),
{
    if kinds.len() > 0 {
        lemma_count_kind_le_len(kinds.drop_last(), k);
    }
}

proof fn lemma_count_kind_push(kinds: Seq<RtcpKind>, x: RtcpKind, k: RtcpKind)
    ensures
        count_kind(kinds.push(x), k) == count_kind(kinds, k) + if x == k { 1nat } else { 0nat },
{
    assert(kinds.push(x).drop_last() =~= kinds);
}

proof fn lemma_kinds_len(buf: Seq<u8>, offset: int)
    requires
        0 <= offset,
    ensures
        rtcp_kinds_from(buf, offset).len() * 4 <= if buf.len() >= offset { buf.len() - offset } else { 0 },
    decreases buf.len() - offset,
{
    if offset + 4 <= buf.len() && offset + rtcp_message_len(buf, offset) <= buf.len() {
        lemma_kinds_len(buf, offset + rtcp_message_len(buf, offset));
    }
}

/// `buf` from `offset` on is a whole number of complete messages: the walk
/// of the length fields ends exactly at the end of the buffer.
pub open spec fn whole_rtcp_messages(buf: Seq<u8>, offset: int) -> bool
    decreases buf.len() - offset,
{
    if offset < 0 || offset > buf.len() {
        false
    } else if offset == buf.len() {
        true
    } else if offset + 4 > buf.len() || offset + rtcp_message_len(buf, offset) > buf.len() {
        false
    } else {
        whole_rtcp_messages(buf, offset + rtcp_message_len(buf, offset))
    }
}

/// Field-wise sum of two tallies.
pub open spec fn add_counts(x: RtcpMessageCounts, y: RtcpMessageCounts) -> RtcpMessageCounts {
    RtcpMessageCounts {
        sr: (x.sr + y.sr) as u64,
        rr: (x.rr + y.rr) as u64,
        twcc: (x.twcc + y.twcc) as u64,
        nack: (x.nack + y.nack) as u64,
        pli: (x.pli + y.pli) as u64,
        fir: (x.fir + y.fir) as u64,
        other: (x.other + y.other) as u64,
    }
}

/// Sum of the seven counters of a tally.
pub open spec fn total_count(c: RtcpMessageCounts) -> int {
    c.sr + c.rr + c.twcc + c.nack + c.pli + c.fir + c.other
}

proof fn lemma_kinds_shift(a: Seq<u8>, b: Seq<u8>, o: int)
    requires
        0 <= o,
    ensures
        rtcp_kinds_from(a + b, a.len() + o) == rtcp_kinds_from(b, o),
    decreases b.len() - o,
{
    let ab = a + b;
    let p = a.len() + o;
    if o + 4 <= b.len() {
        assert(ab[p] == b[o] && ab[p + 1] == b[o + 1] && ab[p + 2] == b[o + 2] && ab[p + 3] == b[o + 3]);
        assert(rtcp_message_len(ab, p) == rtcp_message_len(b, o));
        if o + rtcp_message_len(b, o) <= b.len() {
            lemma_kinds_shift(a, b, o + rtcp_message_len(b, o));
        }
    }
}

proof fn lemma_kinds_concat(a: Seq<u8>, b: Seq<u8>, o: int)
    requires
        whole_rtcp_messages(a, o),
    ensures
        rtcp_kinds_from(a + b, o) == rtcp_kinds_from(a, o) + rtcp_kinds_from(b, 0),
    decreases a.len() - o,
{
    let ab = a + b;
    if o == a.len() {
        lemma_kinds_shift(a, b, 0);
        assert(rtcp_kinds_from(a, o) =~= Seq::<RtcpKind>::empty());
        assert(rtcp_kinds_from(a, o) + rtcp_kinds_from(b, 0) =~= rtcp_kinds_from(b, 0));
    } else {
        assert(ab[o] == a[o] && ab[o + 1] == a[o + 1] && ab[o + 2] == a[o + 2] && ab[o + 3] == a[o + 3]);
        assert(rtcp_message_len(ab, o) == rtcp_message_len(a, o));
        lemma_kinds_concat(a, b, o + rtcp_message_len(a, o));
        let head = seq![rtcp_kind(a[o], a[o + 1])];
        let rest_a = rtcp_kinds_from(a, o + rtcp_message_len(a, o));
        assert(head + (rest_a + rtcp_kinds_from(b, 0)) =~= (head + rest_a) + rtcp_kinds_from(b, 0));
    }
}

proof fn lemma_count_kind_concat(x: Seq<RtcpKind>, y: Seq<RtcpKind>, k: RtcpKind)
    ensures
        count_kind(x + y, k) == count_kind(x, k) + count_kind(y, k),
    decreases y.len(),
{
    if y.len() == 0 {
        assert(x + y =~= x);
    } else {
        assert((x + y).drop_last() =~= x + y.drop_last());
        lemma_count_kind_concat(x, y.drop_last(), k);
    }
}

proof fn lemma_count_kinds_total(kinds: Seq<RtcpKind>)
    ensures
        count_kind(kinds, RtcpKind::Sr) + count_kind(kinds, RtcpKind::Rr) + count_kind(kinds, RtcpKind::Twcc)
            + count_kind(kinds, RtcpKind::Nack) + count_kind(kinds, RtcpKind::Pli) + count_kind(
            kinds,
            RtcpKind::Fir,
        ) + count_kind(kinds, RtcpKind::Other) == kinds.len(),
    decreases kinds.len(),
{
    if kinds.len() > 0 {
        lemma_count_kinds_total(kinds.drop_last());
    }
}

/// A buffer holding exactly one complete message is tallied as one message
/// of the kind its header gives, and nothing else: SR (PT 200), RR (PT
/// 201), NACK (PT 205, FMT 1), transport-cc (PT 205, FMT 15), PLI (PT 206,
/// FMT 1), FIR (PT 206, FMT 4), else other; whatever the version bits of
/// its first byte.
pub proof fn lemma_single_message_tally(buf: Seq<u8>)
    requires
        buf.len() >= 4,
        (buf[2] * 256 + buf[3] + 1) * 4 == buf.len(),
    ensures
        rtcp_kinds_from(buf, 0) == seq![rtcp_kind(buf[0], buf[1])],
        total_count(tally(rtcp_kinds_from(buf, 0))) == 1,
        buf[1] == 205 && buf[0] % 32 == 1 ==> tally(rtcp_kinds_from(buf, 0)) == (RtcpMessageCounts {
            sr: 0,
            rr: 0,
            twcc: 0,
            nack: 1,
            pli: 0,
            fir: 0,
            other: 0,
        }),
        buf[1] == 206 && buf[0] % 32 == 1 ==> tally(rtcp_kinds_from(buf, 0)) == (RtcpMessageCounts {
            sr: 0,
            rr: 0,
            twcc: 0,
            nack: 0,
            pli: 1,
            fir: 0,
            other: 0,
        }),
        buf[1] == 200 ==> tally(rtcp_kinds_from(buf, 0)) == (RtcpMessageCounts {
            sr: 1,
            rr: 0,
            twcc: 0,
            nack: 0,
            pli: 0,
            fir: 0,
            other: 0,
        }),
        buf[1] == 201 ==> tally(rtcp_kinds_from(buf, 0)) == (RtcpMessageCounts {
            sr: 0,
            rr: 1,
            twcc: 0,
            nack: 0,
            pli: 0,
            fir: 0,
            other: 0,
        }),
        buf[1] == 205 && buf[0] % 32 == 15 ==> tally(rtcp_kinds_from(buf, 0)) == (RtcpMessageCounts {
            sr: 0,
            rr: 0,
            twcc: 1,
            nack: 0,
            pli: 0,
            fir: 0,
            other: 0,
        }),
        buf[1] == 206 && buf[0] % 32 == 4 ==> tally(rtcp_kinds_from(buf, 0)) == (RtcpMessageCounts {
            sr: 0,
            rr: 0,
            twcc: 0,
            nack: 0,
            pli: 0,
            fir: 1,
            other: 0,
        }),
        !(buf[1] == 200 || buf[1] == 201 || (buf[1] == 205 && (buf[0] % 32 == 1 || buf[0] % 32 == 15)) || (buf[1]
            == 206 && (buf[0] % 32 == 1 || buf[0] % 32 == 4))) ==> tally(rtcp_kinds_from(buf, 0)) == (RtcpMessageCounts {
            sr: 0,
            rr: 0,
            twcc: 0,
            nack: 0,
            pli: 0,
            fir: 0,
            other: 1,
        }),
{
    let k = rtcp_kind(buf[0], buf[1]);
    assert(rtcp_message_len(buf, 0) == buf.len());
    assert(rtcp_kinds_from(buf, buf.len() as int) =~= Seq::<RtcpKind>::empty());
    assert(rtcp_kinds_from(buf, 0) =~= seq![k]);
    let one = seq![k];
    assert(one.drop_last() =~= Seq::<RtcpKind>::empty());
    lemma_count_kinds_total(one);
    lemma_rtcp_kind_rule(buf[0], buf[1]);
}

/// Classification adds up over whole messages: for a buffer `a` that is a
/// whole number of complete messages followed by any bytes `b`, the message
/// kinds of the joined buffer are those of `a` followed by those of `b`, its
/// tally is the field-wise sum of the two tallies (so a truncated tail adds
/// nothing), and the counters of every tally sum to the number of complete
/// messages walked.
pub proof fn lemma_classify_concat(a: Seq<u8>, b: Seq<u8>)
    requires
        whole_rtcp_messages(a, 0),
        a.len() + b.len() <= usize::MAX,
    ensures
        rtcp_kinds_from(a + b, 0) == rtcp_kinds_from(a, 0) + rtcp_kinds_from(b, 0),
        tally(rtcp_kinds_from(a + b, 0)) == add_counts(tally(rtcp_kinds_from(a, 0)), tally(rtcp_kinds_from(b, 0))),
        total_count(tally(rtcp_kinds_from(a + b, 0))) == rtcp_kinds_from(a + b, 0).len(),
        total_count(tally(rtcp_kinds_from(a + b, 0))) == total_count(tally(rtcp_kinds_from(a, 0))) + total_count(
            tally(rtcp_kinds_from(b, 0)),
        ),
{
    let ka = rtcp_kinds_from(a, 0);
    let kb = rtcp_kinds_from(b, 0);
    let kab = rtcp_kinds_from(a + b, 0);
    lemma_kinds_concat(a, b, 0);
    lemma_kinds_len(a + b, 0);
    lemma_kinds_len(a, 0);
    lemma_kinds_len(b, 0);
    lemma_count_kinds_total(kab);
    lemma_count_kinds_total(ka);
    lemma_count_kinds_total(kb);
    lemma_count_kind_concat(ka, kb, RtcpKind::Sr);
    lemma_count_kind_concat(ka, kb, RtcpKind::Rr);
    lemma_count_kind_concat(ka, kb, RtcpKind::Twcc);
    lemma_count_kind_concat(ka, kb, RtcpKind::Nack);
    lemma_count_kind_concat(ka, kb, RtcpKind::Pli);
    lemma_count_kind_concat(ka, kb, RtcpKind::Fir);
    lemma_count_kind_concat(ka, kb, RtcpKind::Other);
}

/// Classify every complete message of a (possibly compound) RTCP buffer by
/// packet type: PT 200 = SR, 201 = RR, 205 = RTPFB (FMT 1 NACK, 15
/// transport-cc), 206 = PSFB (FMT 1 PLI, 4 FIR); everything else is other.
pub fn classify_rtcp_messages(buf: &[u8]) -> (counts: RtcpMessageCounts)
    ensures
        counts == tally(rtcp_kinds_from(buf@, 0)),
{
    let mut counts = RtcpMessageCounts { sr: 0, rr: 0, twcc: 0, nack: 0, pli: 0, fir: 0, other: 0 };
    let mut offset: usize = 0;
    let ghost mut walked: Seq<RtcpKind> = Seq::empty();
    proof {
        lemma_kinds_len(buf@, 0);
    }
    loop
        invariant
            offset <= buf@.len(),
            rtcp_kinds_from(buf@, 0) == walked + rtcp_kinds_from(buf@, offset as int),
            walked.len() * 4 <= offset,
            counts == tally(walked),
        ensures
            rtcp_kinds_from(buf@, offset as int) =~= Seq::<RtcpKind>::empty(),
        decreases buf@.len() - offset,
    {
        if buf.len() - offset < 4 {
            break;
        }
        let pt = buf[offset + 1];
        let length_words: usize = buf[offset + 2] as usize * 256 + buf[offset + 3] as usize;
        let message_len: usize = (length_words + 1) * 4;
        if message_len > buf.len() - offset {
            break;
        }
        let byte0 = buf[offset];
        let fmt = byte0 & 0x1F;
        assert(fmt == byte0 % 32) by (bit_vector)
            requires
                fmt == byte0 & 0x1F,
        ;
        let kind = if pt == 200 {
            RtcpKind::Sr
        } else if pt == 201 {
            RtcpKind::Rr
        } else if pt == 205 {
            if fmt == 1 { RtcpKind::Nack } else if fmt == 15 { RtcpKind::Twcc } else { RtcpKind::Other }
        } else if pt == 206 {
            if fmt == 1 { RtcpKind::Pli } else if fmt == 4 { RtcpKind::Fir } else { RtcpKind::Other }
        } else {
            RtcpKind::Other
        };
        proof {
            assert(kind == rtcp_kind(buf@[offset as int], buf@[offset + 1]));
            lemma_count_kind_push(walked, kind, RtcpKind::Sr);
            lemma_count_kind_push(walked, kind, RtcpKind::Rr);
            lemma_count_kind_push(walked, kind, RtcpKind::Twcc);
            lemma_count_kind_push(walked, kind, RtcpKind::Nack);
            lemma_count_kind_push(walked, kind, RtcpKind::Pli);
            lemma_count_kind_push(walked, kind, RtcpKind::Fir);
            lemma_count_kind_push(walked, kind, RtcpKind::Other);
            lemma_count_kind_le_len(walked, RtcpKind::Sr);
            lemma_count_kind_le_len(walked, RtcpKind::Rr);
            lemma_count_kind_le_len(walked, RtcpKind::Twcc);
            lemma_count_kind_le_len(walked, RtcpKind::Nack);
            lemma_count_kind_le_len(walked, RtcpKind::Pli);
            lemma_count_kind_le_len(walked, RtcpKind::Fir);
            lemma_count_kind_le_len(walked, RtcpKind::Other);
        }
        match kind {
            RtcpKind::Sr => counts.sr = counts.sr + 1,
            RtcpKind::Rr => counts.rr = counts.rr + 1,
            RtcpKind::Twcc => counts.twcc = counts.twcc + 1,
            RtcpKind::Nack => counts.nack = counts.nack + 1,
            RtcpKind::Pli => counts.pli = counts.pli + 1,
            RtcpKind::Fir => counts.fir = counts.fir + 1,
            RtcpKind::Other => counts.other = counts.other + 1,
        }
        proof {
            assert(walked.push(kind) + rtcp_kinds_from(buf@, offset + message_len) =~= walked + rtcp_kinds_from(
                buf@,
                offset as int,
            ));
            walked = walked.push(kind);
        }
        offset = offset + message_len;
    }
    proof {
        assert(walked + Seq::<RtcpKind>::empty() =~= walked);
    }
    counts
}

/// Header fields of one RTP packet as the payload diagnostic reads them:
/// missing bytes read as zero, and the payload starts after the fixed
/// 12-byte header.
#[derive(Debug, Clone, Copy, PartialEq, Eq)]
pub struct RtpHeaderSummary {
    pub len: usize,
    pub marker: bool,
    pub seq: u16,
    pub timestamp: u32,
    pub payload_first: Option<u8>,
}

/// The diagnostic reading of a packet's bytes.
pub open spec fn rtp_header_of(bytes: Seq<u8>) -> RtpHeaderSummary {
    RtpHeaderSummary {
        len: bytes.len() as usize,
        marker: bytes.len() > 1 && bytes[1] >= 128,
        seq: if bytes.len() >= 4 { (bytes[2] * 256 + bytes[3]) as u16 } else { 0 },
        timestamp: if bytes.len() >= 8 {
            (bytes[4] * 0x100_0000 + bytes[5] * 0x1_0000 + bytes[6] * 0x100 + bytes[7]) as u32
        } else {
            0
        },
        payload_first: if bytes.len() > 12 { Some(bytes[12]) } else { None },
    }
}

/// Read the RTP header fields the payload diagnostic logs.
pub fn rtp_header_summary(bytes: &[u8]) -> (h: RtpHeaderSummary)
    ensures
        h == rtp_header_of(bytes@),
{
    let n = bytes.len();
    let marker = if n > 1 {
        let b = bytes[1];
        let m = b & 0x80 != 0;
        assert(m == (b >= 128)) by (bit_vector)
            requires
                m == (b & 0x80 != 0),
        ;
        m
    } else {
        false
    };
    let seq: u16 = if n >= 4 { bytes[2] as u16 * 256 + bytes[3] as u16 } else { 0 };
    let timestamp: u32 = if n >= 8 {
        bytes[4] as u32 * 0x100_0000 + bytes[5] as u32 * 0x1_0000 + bytes[6] as u32 * 0x100 + bytes[7] as u32
    } else {
        0
    };
    let payload_first = if n > 12 { Some(bytes[12]) } else { None };
    RtpHeaderSummary { len: n, marker, seq, timestamp, payload_first }
}

/// Sequence-number step from the previous packet (`u32::MAX` = no previous
/// packet, giving 0), modulo 2^32.
pub open spec fn seq_gap_for(seq: u16, prev: u32) -> i64 {
    if prev == 0xFFFF_FFFF {
        0
    } else if seq >= prev {
        (seq - prev) as i64
    } else {
        (seq + 0x1_0000_0000 - prev) as i64
    }
}

pub fn rtp_seq_gap(seq: u16, prev: u32) -> (gap: i64)
    ensures
        gap == seq_gap_for(seq, prev),
{
    if prev != u32::MAX {
        (seq as u32).wrapping_sub(prev) as i64
    } else {
        0
    }
}

/// H.264 NAL unit type (low five bits of the first payload byte).
pub fn h264_nal_type(first: u8) -> (t: u8)
    ensures
        t == first % 32,
{
    let t = first & 0x1F;
    assert(t == first % 32) by (bit_vector)
        requires
            t == first & 0x1F,
    ;
    t
}

/// H.265 NAL unit type (bits 1..=6 of the first payload byte).
pub fn h265_nal_type(first: u8) -> (t: u8)
    ensures
        t == (first / 2) % 64,
{
    let t = (first >> 1) & 0x3F;
    assert(t == (first / 2) % 64) by (bit_vector)
        requires
            t == (first >> 1) & 0x3F,
    ;
    t
}

/// RTP packetization of an H.264 NAL type (RFC 6184).
pub open spec fn h264_kind_label(nal: u8) -> Seq<char> {
    if nal == 24 {
        "STAP-A"@
    } else if nal == 25 {
        "STAP-B"@
    } else if nal == 26 {
        "MTAP16"@
    } else if nal == 27 {
        "MTAP24"@
    } else if nal == 28 {
        "FU-A"@
    } else if nal == 29 {
        "FU-B"@
    } else {
        "single-nal"@
    }
}

pub fn h264_packet_kind(nal: u8) -> (k: &'static str)
    ensures
        k@ == h264_kind_label(nal),
{
    match nal {
        24 => "STAP-A",
        25 => "STAP-B",
        26 => "MTAP16",
        27 => "MTAP24",
        28 => "FU-A",
        29 => "FU-B",
        _ => "single-nal",
    }
}

/// RTP packetization of an H.265 NAL type (RFC 7798).
pub open spec fn h265_kind_label(nal: u8) -> Seq<char> {
    if nal == 48 {
        "AP"@
    } else if nal == 49 {
        "FU"@
    } else if nal == 50 {
        "PACI"@
    } else {
        "single-nal"@
    }
}

pub fn h265_packet_kind(nal: u8) -> (k: &'static str)
    ensures
        k@ == h265_kind_label(nal),
{
    match nal {
        48 => "AP",
        49 => "FU",
        50 => "PACI",
        _ => "single-nal",
    }
}

/// Fields of the AV1 RTP aggregation header: Z (continues a fragment), Y
/// (continued in the next packet), W (OBU element count), N (new coded
/// video sequence).
#[derive(Debug, Clone, Copy, PartialEq, Eq)]
pub struct Av1AggregationHeader {
    pub z: bool,
    pub y: bool,
    pub w: u8,
    pub n: bool,
}

pub fn av1_aggregation_header(agg: u8) -> (h: Av1AggregationHeader)
    ensures
        h.z == (agg >= 128),
        h.y == ((agg / 64) % 2 == 1),
        h.w == (agg / 16) % 4,
        h.n == ((agg / 8) % 2 == 1),
{
    let z = (agg & 0x80) != 0;
    let y = (agg & 0x40) != 0;
    let w = (agg >> 4) & 0x03;
    let n = (agg & 0x08) != 0;
    assert(z == (agg >= 128) && y == ((agg / 64) % 2 == 1) && w == (agg / 16) % 4 && n == ((agg / 8) % 2 == 1)) by (bit_vector)
        requires
            z == ((agg & 0x80) != 0),
            y == ((agg & 0x40) != 0),
            w == (agg >> 4) & 0x03,
            n == ((agg & 0x08) != 0),
    ;
    Av1AggregationHeader { z, y, w, n }
}


/// Number of RTP payloads of a session that are dumped for diagnosis.
pub const RTP_PAYLOAD_DUMP_LIMIT: u64 = 6;
/// Sequence-number marker for "no packet yet".
pub const NO_SEQUENCE: u32 = 0xFFFF_FFFF;

/// The codec families whose RTP payload layout the dump interprets.
#[derive(Debug, Clone, Copy, PartialEq, Eq, Structural)]
pub enum PayloadCodec {
    Av1,
    H264,
    H265,
}

/// The payload family of a codec name (ASCII case-insensitive): AV1, H264,
/// or H265 (also spelled HEVC); `None` for anything else.
pub open spec fn payload_codec_of(codec: Seq<char>) -> Option<PayloadCodec> {
    let c = upper_seq(codec);
    if c == "AV1"@ {
        Some(PayloadCodec::Av1)
    } else if c == "H264"@ {
        Some(PayloadCodec::H264)
    } else if c == "H265"@ || c == "HEVC"@ {
        Some(PayloadCodec::H265)
    } else {
        None
    }
}

pub fn payload_dump_codec(codec: &str) -> (c: Option<PayloadCodec>)
    ensures
        c == payload_codec_of(codec@),
{
    if upper_eq(codec, "AV1") {
        Some(PayloadCodec::Av1)
    } else if upper_eq(codec, "H264") {
        Some(PayloadCodec::H264)
    } else if upper_eq(codec, "H265") || upper_eq(codec, "HEVC") {
        Some(PayloadCodec::H265)
    } else {
        None
    }
}

/// Sequence continuity of the first RTP packets of a session.
#[derive(Debug, Clone, Copy, PartialEq, Eq, Structural)]
pub struct RtpDumpTracker {
    /// Buffers seen (wrapping).
    pub count: u64,
    pub prev_seq: u32,
    pub first_seq: u32,
}

impl RtpDumpTracker {
    pub fn new() -> (t: Self)
        ensures
            t == (RtpDumpTracker { count: 0, prev_seq: NO_SEQUENCE, first_seq: NO_SEQUENCE }),
    {
        RtpDumpTracker { count: 0, prev_seq: NO_SEQUENCE, first_seq: NO_SEQUENCE }
    }

    /// Count one RTP buffer: its index when it is among the first
    /// `RTP_PAYLOAD_DUMP_LIMIT` (to be dumped), else `None`.
    pub fn next_buffer(&mut self) -> (index: Option<u64>)
        ensures
            final(self).count == vstd::wrapping::u64_specs::wrapping_add(old(self).count, 1),
            final(self).prev_seq == old(self).prev_seq,
            final(self).first_seq == old(self).first_seq,
            index == if old(self).count < RTP_PAYLOAD_DUMP_LIMIT { Some(old(self).count) } else { None },
    {
        let n = self.count;
        self.count = self.count.wrapping_add(1);
        if n < RTP_PAYLOAD_DUMP_LIMIT { Some(n) } else { None }
    }

    /// Record the sequence number of a dumped packet: returns the session's
    /// first sequence number and the gap from the previous dumped packet
    /// (0 for the first).
    pub fn record_sequence(&mut self, seq: u16) -> (r: (u32, i64))
        ensures
            final(self).count == old(self).count,
            final(self).prev_seq == seq as u32,
            final(self).first_seq == if old(self).first_seq == NO_SEQUENCE { seq as u32 } else { old(self).first_seq },
            r == (final(self).first_seq, seq_gap_for(seq, old(self).prev_seq)),
    {
        let prev = self.prev_seq;
        self.prev_seq = seq as u32;
        if self.first_seq == NO_SEQUENCE {
            self.first_seq = seq as u32;
        }
        (self.first_seq, rtp_seq_gap(seq, prev))
    }
}

} // verus!

//! Duplicate-frame detection: a strided FNV-1a checksum of decoded pixels.
use vstd::prelude::*;

verus! {

pub const FNV_OFFSET_BASIS: u64 = 0xcbf2_9ce4_8422_2325;
pub const FNV_PRIME: u64 = 0x0000_0100_0000_01b3;
/// Read budget of the checksum: about this many bytes are sampled.
pub const CHECKSUM_SAMPLE_BUDGET: usize = 8192;

/// One FNV-1a step: xor the byte in, multiply by the prime modulo 2^64.
pub open spec fn fnv_step(hash: u64, byte: u8) -> u64 {
    vstd::wrapping::u64_specs::wrapping_mul(hash ^ (byte as u64), FNV_PRIME)
}

/// FNV-1a over the bytes at `index`, `index + stride`, … of `bytes`.
pub open spec fn strided_fnv(bytes: Seq<u8>, stride: nat, index: nat, hash: u64) -> u64
    recommends
        stride > 0,
    decreases (if index >= bytes.len() { 0 } else { bytes.len() - index }),
    when stride > 0
{
    if index >= bytes.len() {
        hash
    } else {
        strided_fnv(bytes, stride, index + stride, fnv_step(hash, bytes[index as int]))
    }
}

/// Sampling stride of a frame of `len` bytes.
pub open spec fn checksum_stride(len: nat) -> nat {
    if len / (CHECKSUM_SAMPLE_BUDGET as nat) >= 1 { len / (CHECKSUM_SAMPLE_BUDGET as nat) } else { 1 }
}

/// The checksum of a frame: `None` for an empty buffer.
pub open spec fn frame_checksum_of(bytes: Seq<u8>) -> Option<u64> {
    if bytes.len() == 0 {
        None
    } else {
        Some(strided_fnv(bytes, checksum_stride(bytes.len()), 0, FNV_OFFSET_BASIS))
    }
}

/// Strided FNV-1a checksum of a mapped video frame (about 8 KiB sampled
/// across the whole buffer), for consecutive-identical-frame detection.
pub fn frame_content_checksum(bytes: &[u8]) -> (h: Option<u64>)
    ensures
        h == frame_checksum_of(bytes@),
{
    let n = bytes.len();
    if n == 0 {
        return None;
    }
    let stride: usize = if n / CHECKSUM_SAMPLE_BUDGET >= 1 { n / CHECKSUM_SAMPLE_BUDGET } else { 1 };
    let mut hash: u64 = FNV_OFFSET_BASIS;
    let mut index: usize = 0;
    while index < n
        invariant
            n == bytes@.len(),
            stride == checksum_stride(n as nat),
            stride > 0,
            strided_fnv(bytes@, stride as nat, index as nat, hash) == strided_fnv(
                bytes@,
                stride as nat,
                0,
                FNV_OFFSET_BASIS,
            ),
        decreases n - index,
    {
        hash = (hash ^ bytes[index] as u64).wrapping_mul(FNV_PRIME);
        if n - index <= stride {
            proof {
                assert(strided_fnv(bytes@, stride as nat, (index + stride) as nat, hash) == hash);
            }
            index = n;
        } else {
            index = index + stride;
        }
    }
    Some(hash)
}

} // verus!

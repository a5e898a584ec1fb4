use vstd::prelude::*;

verus! {

/// FNV-1a 64-bit offset basis.
pub const FNV_OFFSET_BASIS: u64 = 0xcbf29ce484222325;

/// FNV-1a 64-bit prime.
pub const FNV_PRIME: u64 = 0x100000001b3;

/// One FNV-1a round: xor the byte in, multiply by the prime modulo 2^64.
pub open spec fn fnv_step(h: u64, b: u8) -> u64 {
    vstd::wrapping::u64_specs::wrapping_mul(h ^ (b as u64), FNV_PRIME)
}

/// FNV-1a 64-bit over a byte sequence, folded left from the given start value.
pub open spec fn spec_fnv1a(bytes: Seq<u8>, start: u64) -> u64
    decreases bytes.len(),
{
    if bytes.len() == 0 {
        start
    } else {
        fnv_step(spec_fnv1a(bytes.drop_last(), start), bytes.last())
    }
}

/// FNV-1a 64-bit of `bytes`, continuing from the running value `start`.
pub fn fnv1a_64(bytes: &[u8], start: u64) -> (r: u64)
    ensures
        r == spec_fnv1a(bytes@, start),
{
    let mut hash: u64 = start;
    let mut i: usize = 0;
    while i < bytes.len()
        invariant
            i <= bytes@.len(),
            hash == spec_fnv1a(bytes@.take(i as int), start),
        decreases bytes@.len() - i,
    {
        hash = (hash ^ (bytes[i] as u64)).wrapping_mul(FNV_PRIME);
        proof {
            assert(bytes@.take(i + 1).drop_last() =~= bytes@.take(i as int));
            assert(bytes@.take(i + 1).last() == bytes@[i as int]);
        }
        i = i + 1;
    }
    proof {
        assert(bytes@.take(bytes@.len() as int) =~= bytes@);
    }
    hash
}

/// One round of the simple 31-based polynomial content fingerprint.
pub open spec fn poly_step(h: u64, b: u8) -> u64 {
    vstd::wrapping::u64_specs::wrapping_add(
        vstd::wrapping::u64_specs::wrapping_mul(h, 31),
        b as u64,
    )
}

/// The polynomial fingerprint of a byte sequence, folded left from zero.
pub open spec fn spec_poly_fold(bytes: Seq<u8>) -> u64
    decreases bytes.len(),
{
    if bytes.len() == 0 {
        0u64
    } else {
        poly_step(spec_poly_fold(bytes.drop_last()), bytes.last())
    }
}

/// How many leading bytes the content fingerprint samples.
pub const FINGERPRINT_WINDOW: usize = 1024;

/// The content fingerprint of a buffer: the polynomial fold of its first
/// `FINGERPRINT_WINDOW` bytes (or of all of them, when shorter).
pub open spec fn spec_md5_hash(bytes: Seq<u8>) -> u64 {
    if bytes.len() <= FINGERPRINT_WINDOW {
        spec_poly_fold(bytes)
    } else {
        spec_poly_fold(bytes.take(FINGERPRINT_WINDOW as int))
    }
}

/// Cheap content fingerprint over the first kilobyte of `data`, used to
/// derive unique scratch-file names for byte buffers.
pub fn md5_hash(data: &[u8]) -> (r: u64)
    ensures
        r == spec_md5_hash(data@),
{
    let n: usize = if data.len() < FINGERPRINT_WINDOW {
        data.len()
    } else {
        FINGERPRINT_WINDOW
    };
    let mut hash: u64 = 0;
    let mut i: usize = 0;
    while i < n
        invariant
            i <= n,
            n <= data@.len(),
            n == if data@.len() <= FINGERPRINT_WINDOW { data@.len() as int } else { FINGERPRINT_WINDOW as int },
            hash == spec_poly_fold(data@.take(i as int)),
        decreases n - i,
    {
        hash = hash.wrapping_mul(31).wrapping_add(data[i] as u64);
        proof {
            assert(data@.take(i + 1).drop_last() =~= data@.take(i as int));
            assert(data@.take(i + 1).last() == data@[i as int]);
        }
        i = i + 1;
    }
    proof {
        if data@.len() <= FINGERPRINT_WINDOW {
            assert(data@.take(data@.len() as int) =~= data@);
        }
    }
    hash
}

} // verus!

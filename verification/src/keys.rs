use vstd::prelude::*;
use vstd::bytes::{spec_u32_to_le_bytes, u32_to_le_bytes};
use vstd::string::StringSliceAdditionalSpecFns;
use vstd::utf8::valid_utf8;

use crate::errors::ThumbnailError;
use crate::hashes::{fnv_step, spec_fnv1a, fnv1a_64, FNV_OFFSET_BASIS, FNV_PRIME};
use crate::paths::{spec_path_components, normalize_seps, PhotoPath};

verus! {

/// The target size of a thumbnail, in pixels.
#[derive(Debug, Clone, Copy, PartialEq, Eq, Hash, Structural)]
pub struct ThumbnailSpec {
    pub width: u32,
    pub height: u32,
}

/// The stable 64-bit cache key derived from a path and a target size.
#[derive(Debug, Clone, Copy, PartialEq, Eq, Hash, Structural)]
pub struct ThumbnailKey(u64);

impl ThumbnailKey {
    /// The key's 64-bit value.
    pub closed spec fn spec_val(&self) -> u64 {
        self.0
    }

    /// Wraps a raw 64-bit key value.
    pub fn new(val: u64) -> (r: Self)
        ensures
            r.spec_val() == val,
    {
        ThumbnailKey(val)
    }

    /// The key's 64-bit value.
    pub fn value(&self) -> (v: u64)
        ensures
            v == self.spec_val(),
    {
        self.0
    }
}

#[verifier::external_type_specification]
#[verifier::external_body]
pub struct ExUtf8Error(core::str::Utf8Error);

/// Relies on core::str::from_utf8: it succeeds exactly on valid UTF-8
/// input, and a success views the same bytes it was given.
pub assume_specification[ core::str::from_utf8 ](v: &[u8]) -> (r: Result<
    &str,
    core::str::Utf8Error,
>)
    ensures
        r is Ok <==> valid_utf8(v@),
        r is Ok ==> r->Ok_0.spec_bytes() == v@,
;

/// The running key value after folding in one component: the component's
/// bytes, then a single `/` byte that keeps component boundaries apart.
pub open spec fn component_step(h: u64, c: Seq<u8>) -> u64 {
    fnv_step(spec_fnv1a(c, h), 0x2fu8)
}

/// The running key value after folding in every component in order.
pub open spec fn spec_component_fold(components: Seq<Seq<u8>>, h: u64) -> u64
    decreases components.len(),
{
    if components.len() == 0 {
        h
    } else {
        component_step(spec_component_fold(components.drop_last(), h), components.last())
    }
}

/// The cache key of a component sequence and a target size: FNV-1a over
/// every component (each closed with a `/` byte), then over the width and
/// height as little-endian bytes.
pub open spec fn spec_key_of(components: Seq<Seq<u8>>, spec: ThumbnailSpec) -> u64 {
    spec_fnv1a(
        spec_u32_to_le_bytes(spec.height),
        spec_fnv1a(
            spec_u32_to_le_bytes(spec.width),
            spec_component_fold(components, FNV_OFFSET_BASIS),
        ),
    )
}

/// Folds one byte into a running FNV-1a value.
fn fnv1a_one(b: u8, start: u64) -> (r: u64)
    ensures
        r == fnv_step(start, b),
{
    (start ^ (b as u64)).wrapping_mul(FNV_PRIME)
}

/// Derives the stable, platform-independent cache key for a source path
/// and a target size.
///
/// Every path component must be valid UTF-8; a path with any other
/// component is rejected with `InvalidPathEncoding` rather than hashed on
/// a guess.
pub fn thumbnail_key(source: &PhotoPath, spec: &ThumbnailSpec) -> (r: Result<
    ThumbnailKey,
    ThumbnailError,
>)
    ensures
        r is Ok <==> (forall|i: int| 0 <= i < source@.len() ==> valid_utf8(source@[i])),
        r is Ok ==> r->Ok_0.spec_val() == spec_key_of(source@, *spec),
        r is Err ==> r->Err_0 is InvalidPathEncoding,
{
    let mut hash: u64 = FNV_OFFSET_BASIS;
    let n = source.component_count();
    let mut i: usize = 0;
    while i < n
        invariant
            i <= n,
            n == source@.len(),
            forall|j: int| 0 <= j < i ==> valid_utf8(source@[j]),
            hash == spec_component_fold(source@.take(i as int), FNV_OFFSET_BASIS),
        decreases n - i,
    {
        let comp = source.component(i);
        if core::str::from_utf8(comp.as_slice()).is_err() {
            return Err(ThumbnailError::InvalidPathEncoding);
        }
        hash = fnv1a_64(comp.as_slice(), hash);
        hash = fnv1a_one(0x2f, hash);
        proof {
            assert(source@.take(i + 1).drop_last() =~= source@.take(i as int));
            assert(source@.take(i + 1).last() == source@[i as int]);
        }
        i = i + 1;
    }
    proof {
        assert(source@.take(source@.len() as int) =~= source@);
    }
    let wb = u32_to_le_bytes(spec.width);
    hash = fnv1a_64(wb.as_slice(), hash);
    let hb = u32_to_le_bytes(spec.height);
    hash = fnv1a_64(hb.as_slice(), hash);
    Ok(ThumbnailKey(hash))
}

/// Key derivation is a function of its inputs alone: equal component
/// sequences and equal target sizes always yield equal keys, across calls,
/// processes and machines.
pub proof fn lemma_thumbnail_key_deterministic(
    c1: Seq<Seq<u8>>,
    s1: ThumbnailSpec,
    c2: Seq<Seq<u8>>,
    s2: ThumbnailSpec,
)
    requires
        c1 == c2,
        s1 == s2,
    ensures
        spec_key_of(c1, s1) == spec_key_of(c2, s2),
{
}

/// The cache key does not depend on the platform's path-separator style:
/// spelling every separator as `/` instead of `\` leaves the key of the
/// parsed path unchanged.
pub proof fn lemma_thumbnail_key_sep_invariant(bytes: Seq<u8>, spec: ThumbnailSpec)
    ensures
        spec_key_of(spec_path_components(normalize_seps(bytes)), spec) == spec_key_of(
            spec_path_components(bytes),
            spec,
        ),
{
    crate::paths::lemma_path_components_sep_invariant(bytes);
}

} // verus!

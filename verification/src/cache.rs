use vstd::prelude::*;
use vstd::string::{StringExecFns, StrSliceExecFns};
use vstd::utf8::valid_utf8;

use crate::errors::ThumbnailError;
use crate::hex::{spec_hex16, hex_prefix, hex16};
use crate::keys::{spec_key_of, thumbnail_key, ThumbnailKey, ThumbnailSpec};
use crate::paths::PhotoPath;

verus! {

/// The cache file path of a key under a root: the key as 16 lowercase hex
/// digits, sharded by its first two digits, with a `.jpg` suffix.
pub open spec fn spec_cache_path(root: Seq<char>, key: u64) -> Seq<char> {
    root + "/"@ + spec_hex16(key).take(2) + "/"@ + spec_hex16(key) + ".jpg"@
}

/// Resolves the cache file path for a key: `root/<2 hex>/<16 hex>.jpg`.
pub fn cache_path(root: &str, key: &ThumbnailKey) -> (r: String)
    ensures
        r@ == spec_cache_path(root@, key.spec_val()),
{
    let hex = hex16(key.value());
    let shard = hex_prefix(key.value(), 2);
    String::from_str(root).concat("/").concat(shard.as_str()).concat("/").concat(
        hex.as_str(),
    ).concat(".jpg")
}

/// Relies on std::path::Path::exists (through Path::new): answers whether
/// anything exists at the path right now. The answer depends on the state
/// of the disk, so nothing is promised of it.
#[verifier::external_body]
fn path_exists(p: &str) -> bool {
    std::path::Path::new(p).exists()
}

/// The unique scratch-file name beside a destination: the destination
/// path itself with a `.tmp.<nanos>_<pid>` suffix, so that concurrent
/// writers in different processes never collide.
pub open spec fn spec_temp_name(dest: Seq<char>, nanos: u64, pid: u64) -> Seq<char> {
    dest + ".tmp."@ + spec_hex16(nanos) + "_"@ + spec_hex16(pid)
}

/// Builds the scratch-file name for a destination from a timestamp and a
/// process id, both supplied by the host layer.
pub fn make_temp_name(dest: &str, nanos: u64, pid: u64) -> (r: String)
    ensures
        r@ == spec_temp_name(dest@, nanos, pid),
{
    let n = hex16(nanos);
    let p = hex16(pid);
    String::from_str(dest).concat(".tmp.").concat(n.as_str()).concat("_").concat(p.as_str())
}

/// The write-once thumbnail cache rooted at a directory.
#[derive(Debug, Clone)]
pub struct Thumbnailer {
    cache_root: String,
}

impl Thumbnailer {
    /// The cache root directory this cache resolves paths under.
    pub closed spec fn root(&self) -> Seq<char> {
        self.cache_root@
    }

    /// A cache over the given root directory.
    pub fn new(cache_root: String) -> (r: Self)
        ensures
            r.root() == cache_root@,
    {
        Thumbnailer { cache_root }
    }

    /// Superseded path scheme kept for interface compatibility: resolves a
    /// flat, unsharded file name directly from a caller-supplied content
    /// hash, ignoring the canonical key derivation.
    pub fn get_cache_path(&self, content_hash: &str, _spec: &ThumbnailSpec) -> (r: String)
        ensures
            r@ == self.root() + "/"@ + content_hash@ + ".jpg"@,
    {
        String::from_str(self.cache_root.as_str()).concat("/").concat(content_hash).concat(
            ".jpg",
        )
    }

    /// Looks up, without creating anything, whether a thumbnail for the
    /// source and size is already cached.
    ///
    /// The check is existence-based only: a present file is reported
    /// whatever its bytes hold, and the only error is a path whose
    /// components cannot be decoded as UTF-8.
    pub fn get_cached_path(&self, source: &PhotoPath, spec: &ThumbnailSpec) -> (r: Result<
        Option<String>,
        ThumbnailError,
    >)
        ensures
            r is Ok <==> (forall|i: int| 0 <= i < source@.len() ==> valid_utf8(source@[i])),
            r is Err ==> r->Err_0 is InvalidPathEncoding,
            r is Ok && r->Ok_0 is Some ==> r->Ok_0->0@ == spec_cache_path(
                self.root(),
                spec_key_of(source@, *spec),
            ),
    {
        let key = match thumbnail_key(source, spec) {
            Ok(k) => k,
            Err(e) => {
                return Err(e);
            },
        };
        let path = cache_path(self.cache_root.as_str(), &key);
        if path_exists(path.as_str()) {
            Ok(Some(path))
        } else {
            Ok(None)
        }
    }
}

/// Repeated cache population is idempotent in its destination: equal
/// sources, target sizes and roots always resolve the same cache file
/// path, in this call, the next one, and any other process. Together
/// with `lemma_cache_hit_never_writes` below, a second run for the same
/// inputs finds the file present and leaves it untouched.
pub proof fn lemma_cache_destination_deterministic(
    c1: Seq<Seq<u8>>,
    s1: ThumbnailSpec,
    r1: Seq<char>,
    c2: Seq<Seq<u8>>,
    s2: ThumbnailSpec,
    r2: Seq<char>,
)
    requires
        c1 == c2,
        s1 == s2,
        r1 == r2,
    ensures
        spec_cache_path(r1, spec_key_of(c1, s1)) == spec_cache_path(r2, spec_key_of(c2, s2)),
{
}

/// Where a cache population run stands.
#[derive(Debug, Clone, Copy, PartialEq, Eq, Structural)]
pub enum CacheStep {
    /// Looking whether the destination already exists.
    CheckExists,
    /// Creating the destination's shard directory.
    EnsureDir,
    /// Generating thumbnail content into the scratch file.
    Generate,
    /// Renaming the scratch file onto the destination.
    Rename,
    /// The destination file is ready.
    Done,
    /// The run failed; any scratch file has been ordered removed.
    Failed,
}

/// What the host layer must do next in a cache population run.
#[derive(Debug, Clone, Copy, PartialEq, Eq, Structural)]
pub enum CacheOp {
    /// Check whether the destination file exists.
    StatDest,
    /// Create the shard directory and its parents.
    MakeDir,
    /// Generate content into the scratch file.
    GenerateTemp,
    /// Atomically rename the scratch file onto the destination.
    RenameTempToDest,
    /// Remove the scratch file, then report the pending error.
    RemoveTempAndFail,
    /// Report the generation error; no scratch file was written.
    FailNoTemp,
    /// Hand the destination path to the caller.
    ReturnPath,
    /// Nothing: the run is over.
    Idle,
}

/// True of the operations that write to the cache directory.
pub open spec fn is_write_op(op: CacheOp) -> bool {
    op is MakeDir || op is GenerateTemp || op is RenameTempToDest
}

/// The transition table of a cache population run: from the current step
/// and the outcome of the operation just performed, the next step and the
/// next operation.
pub open spec fn spec_cache_transition(s: CacheStep, ok: bool) -> (CacheStep, CacheOp) {
    match s {
        CacheStep::CheckExists => if ok {
            (CacheStep::Done, CacheOp::ReturnPath)
        } else {
            (CacheStep::EnsureDir, CacheOp::MakeDir)
        },
        CacheStep::EnsureDir => if ok {
            (CacheStep::Generate, CacheOp::GenerateTemp)
        } else {
            (CacheStep::Failed, CacheOp::FailNoTemp)
        },
        CacheStep::Generate => if ok {
            (CacheStep::Rename, CacheOp::RenameTempToDest)
        } else {
            (CacheStep::Failed, CacheOp::RemoveTempAndFail)
        },
        CacheStep::Rename => if ok {
            (CacheStep::Done, CacheOp::ReturnPath)
        } else {
            (CacheStep::Failed, CacheOp::RemoveTempAndFail)
        },
        CacheStep::Done => (CacheStep::Done, CacheOp::Idle),
        CacheStep::Failed => (CacheStep::Failed, CacheOp::Idle),
    }
}

/// Advances a cache population run by one observed outcome.
///
/// The run begins in `CheckExists` after the host has issued `StatDest`;
/// the host performs each returned operation and feeds its outcome back
/// in. A hit on the existence check finishes the run at once, and every
/// failure after content generation begins orders the scratch file
/// removed before the error is reported.
pub fn cache_populate_step(s: CacheStep, ok: bool) -> (r: (CacheStep, CacheOp))
    ensures
        r == spec_cache_transition(s, ok),
{
    match s {
        CacheStep::CheckExists => if ok {
            (CacheStep::Done, CacheOp::ReturnPath)
        } else {
            (CacheStep::EnsureDir, CacheOp::MakeDir)
        },
        CacheStep::EnsureDir => if ok {
            (CacheStep::Generate, CacheOp::GenerateTemp)
        } else {
            (CacheStep::Failed, CacheOp::FailNoTemp)
        },
        CacheStep::Generate => if ok {
            (CacheStep::Rename, CacheOp::RenameTempToDest)
        } else {
            (CacheStep::Failed, CacheOp::RemoveTempAndFail)
        },
        CacheStep::Rename => if ok {
            (CacheStep::Done, CacheOp::ReturnPath)
        } else {
            (CacheStep::Failed, CacheOp::RemoveTempAndFail)
        },
        CacheStep::Done => (CacheStep::Done, CacheOp::Idle),
        CacheStep::Failed => (CacheStep::Failed, CacheOp::Idle),
    }
}

/// The operations a run issues from step `s` under the outcomes `events`,
/// in order.
pub open spec fn spec_cache_trace(s: CacheStep, events: Seq<bool>) -> Seq<CacheOp>
    decreases events.len(),
{
    if events.len() == 0 {
        Seq::<CacheOp>::empty()
    } else {
        let t = spec_cache_transition(s, events.first());
        seq![t.1] + spec_cache_trace(t.0, events.drop_first())
    }
}

/// A finished run issues no further operation at all.
pub proof fn lemma_terminal_steps_idle(s: CacheStep, events: Seq<bool>)
    requires
        s is Done || s is Failed,
    ensures
        forall|i: int|
            0 <= i < spec_cache_trace(s, events).len() ==> spec_cache_trace(s, events)[i]
                is Idle,
    decreases events.len(),
{
    if events.len() > 0 {
        lemma_terminal_steps_idle(s, events.drop_first());
    }
}

/// A cache hit never writes: when the destination already exists, the
/// whole rest of the run issues no directory creation, no generation and
/// no rename, so the cached file's contents and modification time stay
/// untouched.
pub proof fn lemma_cache_hit_never_writes(events: Seq<bool>)
    requires
        events.len() > 0,
        events.first() == true,
    ensures
        forall|i: int|
            0 <= i < spec_cache_trace(CacheStep::CheckExists, events).len() ==> !is_write_op(
                spec_cache_trace(CacheStep::CheckExists, events)[i],
            ),
{
    lemma_terminal_steps_idle(CacheStep::Done, events.drop_first());
    let tr = spec_cache_trace(CacheStep::CheckExists, events);
    let rest = spec_cache_trace(CacheStep::Done, events.drop_first());
    assert(tr == seq![CacheOp::ReturnPath] + rest);
    assert forall|i: int| 0 <= i < tr.len() implies !is_write_op(tr[i]) by {
        if i > 0 {
            assert(tr[i] == rest[i - 1]);
        }
    }
}

} // verus!

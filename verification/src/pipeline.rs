use vstd::prelude::*;

verus! {

/// Configuration of the core import pipeline.
#[derive(Debug, Clone)]
pub struct PhotoCoreConfig {
    pub thumbnail_dir: String,
    pub thumbnail_size: u32,
}

/// The identifier of a photo record in the index.
#[derive(Debug, Clone, Copy, PartialEq, Eq, Hash, Structural)]
pub struct PhotoId {
    pub id: i64,
}

/// The outcome counters of one import run.
#[derive(Debug, Clone, Copy, PartialEq, Eq, Structural)]
pub struct ImportResult {
    pub success: u32,
    pub failure: u32,
}

impl Default for ImportResult {
    /// A fresh run: nothing succeeded, nothing failed.
    fn default() -> (r: Self)
        ensures
            r.success == 0 && r.failure == 0,
    {
        ImportResult { success: 0, failure: 0 }
    }
}

impl ImportResult {
    /// Counts one more file as imported.
    pub fn record_success(&mut self)
        requires
            old(self).success < u32::MAX,
        ensures
            final(self).success == old(self).success + 1,
            final(self).failure == old(self).failure,
    {
        self.success = self.success + 1;
    }

    /// Counts one more file as failed; the run goes on regardless.
    pub fn record_failure(&mut self)
        requires
            old(self).failure < u32::MAX,
        ensures
            final(self).failure == old(self).failure + 1,
            final(self).success == old(self).success,
    {
        self.failure = self.failure + 1;
    }
}

/// How many of the outcomes are successes.
pub open spec fn count_true(outcomes: Seq<bool>) -> int
    decreases outcomes.len(),
{
    if outcomes.len() == 0 {
        0
    } else {
        count_true(outcomes.drop_last()) + if outcomes.last() {
            1int
        } else {
            0int
        }
    }
}

/// Folds a run's per-file outcomes into its counters: every success and
/// every failure is counted, and nothing stops the count early — the
/// error-tolerance law of the import pipeline.
pub fn tally_outcomes(outcomes: &Vec<bool>) -> (r: ImportResult)
    requires
        outcomes@.len() <= u32::MAX,
    ensures
        r.success == count_true(outcomes@),
        r.failure == outcomes@.len() - count_true(outcomes@),
{
    let mut result = ImportResult { success: 0, failure: 0 };
    let n = outcomes.len();
    let mut i: usize = 0;
    while i < n
        invariant
            i <= n,
            n == outcomes@.len(),
            n <= u32::MAX,
            result.success == count_true(outcomes@.take(i as int)),
            result.failure == i - count_true(outcomes@.take(i as int)),
        decreases n - i,
    {
        proof {
            assert(outcomes@.take(i + 1).drop_last() =~= outcomes@.take(i as int));
            assert(outcomes@.take(i + 1).last() == outcomes@[i as int]);
        }
        if outcomes[i] {
            result.success = result.success + 1;
        } else {
            result.failure = result.failure + 1;
        }
        i = i + 1;
    }
    proof {
        assert(outcomes@.take(outcomes@.len() as int) =~= outcomes@);
    }
    result
}

/// What the index does with an incoming record.
#[derive(Debug, Clone, Copy, PartialEq, Eq, Structural)]
pub enum IndexInsertAction {
    /// The path is already indexed: hand its id back, change nothing.
    UseExisting(i64),
    /// The content hash is already indexed under another path: move that
    /// record to the new path, keep its id.
    UpdatePath(i64),
    /// Neither path nor hash is known: insert a new record.
    InsertNew,
}

/// The deduplication rule of the photo index: an already-indexed path
/// wins outright, an already-indexed content hash moves to the new path,
/// and only a record new on both counts is inserted.
pub fn index_insert_decision(existing_by_path: Option<i64>, existing_by_hash: Option<i64>) -> (r:
    IndexInsertAction)
    ensures
        existing_by_path matches Some(id) ==> r == IndexInsertAction::UseExisting(id),
        existing_by_path is None ==> (existing_by_hash matches Some(id) ==> r
            == IndexInsertAction::UpdatePath(id)),
        existing_by_path is None && existing_by_hash is None ==> r == IndexInsertAction::InsertNew,
{
    match existing_by_path {
        Some(id) => IndexInsertAction::UseExisting(id),
        None => match existing_by_hash {
            Some(id) => IndexInsertAction::UpdatePath(id),
            None => IndexInsertAction::InsertNew,
        },
    }
}

/// The target size the pipeline's configuration asks of a thumbnail:
/// square, of the configured edge length.
pub fn thumbnail_spec_for(config: &PhotoCoreConfig) -> (r: crate::keys::ThumbnailSpec)
    ensures
        r.width == config.thumbnail_size,
        r.height == config.thumbnail_size,
{
    crate::keys::ThumbnailSpec { width: config.thumbnail_size, height: config.thumbnail_size }
}

} // verus!

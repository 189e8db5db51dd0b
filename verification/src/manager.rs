//! Staging of parsed extensions and the reconciliation pass that merges the
//! staged set into the loaded collection.

use vstd::prelude::*;

use crate::conflicts::{
    lemma_find_match_from, spec_conflict, spec_find_match, spec_resolve, LoadAction, LoadConflict,
    StageConflict,
};
use crate::models::{InventoryExtension, Metadata};

verus! {

/// True iff some staged extension carries the identity `id`.
pub open spec fn spec_contains_id(staged: Seq<InventoryExtension>, id: Seq<char>) -> bool {
    exists|i: int| 0 <= i < staged.len() && staged[i].metadata.id@ == id
}

/// One entry of a reconciliation plan: a staged extension, the storage
/// effect chosen for it, and the conflict that led to the choice, if any.
#[derive(Debug)]
pub struct PlannedLoad {
    pub extension: InventoryExtension,
    pub action: LoadAction,
    pub conflict: Option<LoadConflict>,
}

/// The outcome of one reconciliation pass: the per-extension effects in
/// staged order, the conflict report in the same order, and the loaded
/// entries that no staged extension matched.
#[derive(Debug)]
pub struct ReconcilePlan {
    pub steps: Vec<PlannedLoad>,
    pub conflicts: Vec<LoadConflict>,
    pub unmatched_loaded: Vec<Metadata>,
}

/// The reconciliation pass over `staged` in its given order, against the
/// working collection `loaded`: per staged extension, the first loaded entry
/// with the same identity (if any) is consumed and yields a conflict, whose
/// resolved action is reload or skip; an unmatched staged extension is
/// loaded fresh. Yields the steps, the conflict report, and the loaded
/// entries that were never matched.
pub open spec fn spec_reconcile(
    staged: Seq<InventoryExtension>,
    loaded: Seq<Metadata>,
    load_override: bool,
) -> (Seq<PlannedLoad>, Seq<LoadConflict>, Seq<Metadata>)
    decreases staged.len(),
{
    if staged.len() == 0 {
        (Seq::empty(), Seq::empty(), loaded)
    } else {
        let ext = staged[0];
        let rest = staged.drop_first();
        match spec_find_match(loaded, ext.metadata.id@) {
            None => {
                let r = spec_reconcile(rest, loaded, load_override);
                (
                    seq![
                        PlannedLoad { extension: ext, action: LoadAction::Load, conflict: None },
                    ] + r.0,
                    r.1,
                    r.2,
                )
            },
            Some(i) => {
                let c = spec_conflict(loaded[i], ext.metadata);
                let r = spec_reconcile(rest, loaded.remove(i), load_override);
                (
                    seq![
                        PlannedLoad {
                            extension: ext,
                            action: spec_resolve(c, load_override),
                            conflict: Some(c),
                        },
                    ] + r.0,
                    seq![c] + r.1,
                    r.2,
                )
            },
        }
    }
}

/// Law: matching consumes at most one loaded entry per staged extension and
/// never the same entry twice across a pass — every conflict in the report
/// accounts for exactly one consumed loaded entry, so the report and the
/// unmatched remainder together exhaust the loaded collection by count, and
/// the remainder never holds an entry more often than the collection did.
pub proof fn lemma_matching_consumes_loaded(
    staged: Seq<InventoryExtension>,
    loaded: Seq<Metadata>,
    load_override: bool,
)
    ensures
        ({
            let r = spec_reconcile(staged, loaded, load_override);
            &&& r.1.len() + r.2.len() == loaded.len()
            &&& forall|m: Metadata| #[trigger]
                r.2.to_multiset().count(m) <= loaded.to_multiset().count(m)
        }),
    decreases staged.len(),
{
    broadcast use vstd::seq_lib::group_to_multiset_ensures;

    if staged.len() == 0 {
    } else {
        let ext = staged[0];
        let rest = staged.drop_first();
        match spec_find_match(loaded, ext.metadata.id@) {
            None => {
                lemma_matching_consumes_loaded(rest, loaded, load_override);
            },
            Some(i) => {
                lemma_find_match_from(loaded, ext.metadata.id@, 0);
                let shrunk = loaded.remove(i);
                lemma_matching_consumes_loaded(rest, shrunk, load_override);
                assert(shrunk.to_multiset() =~= loaded.to_multiset().remove(loaded[i]));
                assert(forall|m: Metadata| #[trigger]
                    shrunk.to_multiset().count(m) <= loaded.to_multiset().count(m));
            },
        }
    }
}

/// Manages the staging and loading of extensions.
pub struct ExtensionManager {
    pub staged_extensions: Vec<InventoryExtension>,
}

impl Default for ExtensionManager {
    /// A manager with nothing staged.
    fn default() -> (r: Self)
        ensures
            r.staged_extensions@ == Seq::<InventoryExtension>::empty(),
    {
        ExtensionManager { staged_extensions: Vec::new() }
    }
}

impl ExtensionManager {
    /// Checks whether a given extension shares an ID with any of the
    /// already-staged extensions.
    pub fn already_contains(&self, extension: &InventoryExtension) -> (r: bool)
        ensures
            r == spec_contains_id(self.staged_extensions@, extension.metadata.id@),
    {
        let extension_id = &extension.metadata.id;
        let mut i: usize = 0;
        while i < self.staged_extensions.len()
            invariant
                0 <= i <= self.staged_extensions.len(),
                *extension_id == extension.metadata.id,
                forall|j: int|
                    0 <= j < i ==> self.staged_extensions@[j].metadata.id@
                        != extension.metadata.id@,
            decreases self.staged_extensions.len() - i,
        {
            let staged_extension_id = &self.staged_extensions[i].metadata.id;
            if extension_id == staged_extension_id {
                return true;
            }
            i = i + 1;
        }

        false
    }

    /// Accumulates an extension for the next reconciliation pass, rejecting
    /// it if its identity is already staged: the first-staged extension
    /// wins, and a later duplicate is dropped entirely.
    pub fn stage_extension(&mut self, extension: InventoryExtension) -> (r: Result<
        (),
        StageConflict,
    >)
        ensures
            spec_contains_id(old(self).staged_extensions@, extension.metadata.id@) ==> {
                &&& r is Err
                &&& r matches Err(c) && c.id == extension.metadata.id
                &&& final(self).staged_extensions@ == old(self).staged_extensions@
            },
            !spec_contains_id(old(self).staged_extensions@, extension.metadata.id@) ==> {
                &&& r is Ok
                &&& final(self).staged_extensions@ == old(self).staged_extensions@.push(extension)
            },
    {
        if self.already_contains(&extension) {
            Err(StageConflict::new(&extension.metadata))
        } else {
            self.staged_extensions.push(extension);
            Ok(())
        }
    }

    /// Drives one reconciliation pass over the staged extensions, in their
    /// staged order, against a snapshot of the loaded collection. The caller
    /// applies each step's storage effect in order (fail-fast on a storage
    /// error) and keeps the conflict report.
    pub fn reconcile(self, loaded_extensions: Vec<Metadata>, load_override: bool) -> (r:
        ReconcilePlan)
        ensures
            ({
                let m = spec_reconcile(self.staged_extensions@, loaded_extensions@, load_override);
                &&& r.steps@ == m.0
                &&& r.conflicts@ == m.1
                &&& r.unmatched_loaded@ == m.2
            }),
    {
        let mut staged = self.staged_extensions;
        let mut loaded = loaded_extensions;
        let mut steps: Vec<PlannedLoad> = Vec::new();
        let mut conflicts: Vec<LoadConflict> = Vec::new();
        let ghost orig_staged = staged@;
        let ghost orig_loaded = loaded@;

        proof {
            assert(steps@ + spec_reconcile(staged@, loaded@, load_override).0 =~= spec_reconcile(
                orig_staged,
                orig_loaded,
                load_override,
            ).0);
            assert(conflicts@ + spec_reconcile(staged@, loaded@, load_override).1
                =~= spec_reconcile(orig_staged, orig_loaded, load_override).1);
        }

        while staged.len() > 0
            invariant
                ({
                    let m = spec_reconcile(orig_staged, orig_loaded, load_override);
                    let rest = spec_reconcile(staged@, loaded@, load_override);
                    &&& m.0 == steps@ + rest.0
                    &&& m.1 == conflicts@ + rest.1
                    &&& m.2 == rest.2
                }),
            decreases staged.len(),
        {
            let ghost pre_staged = staged@;
            let ghost pre_loaded = loaded@;

            let staged_extension = staged.remove(0);
            proof {
                assert(staged@ =~= pre_staged.drop_first());
            }

            let conflict_opt = LoadConflict::new(&staged_extension, &mut loaded);
            match conflict_opt {
                None => {
                    steps.push(
                        PlannedLoad {
                            extension: staged_extension,
                            action: LoadAction::Load,
                            conflict: None,
                        },
                    );
                    proof {
                        let m = spec_reconcile(orig_staged, orig_loaded, load_override);
                        let rest = spec_reconcile(staged@, loaded@, load_override);
                        assert(steps@ + rest.0 =~= m.0);
                        assert(conflicts@ + rest.1 =~= m.1);
                    }
                },
                Some(conflict) => {
                    let action = conflict.resolve(load_override);
                    conflicts.push(conflict.clone());
                    steps.push(
                        PlannedLoad {
                            extension: staged_extension,
                            action,
                            conflict: Some(conflict),
                        },
                    );
                    proof {
                        let m = spec_reconcile(orig_staged, orig_loaded, load_override);
                        let rest = spec_reconcile(staged@, loaded@, load_override);
                        assert(steps@ + rest.0 =~= m.0);
                        assert(conflicts@ + rest.1 =~= m.1);
                    }
                },
            }
        }

        proof {
            let m = spec_reconcile(orig_staged, orig_loaded, load_override);
            assert(steps@ =~= m.0);
            assert(conflicts@ =~= m.1);
        }

        ReconcilePlan { steps, conflicts, unmatched_loaded: loaded }
    }
}

} // verus!

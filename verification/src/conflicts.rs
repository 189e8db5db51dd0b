//! Conflict detection and classification: comparing a staged extension
//! against the loaded collection, and deciding what to do about a collision.

use vstd::prelude::*;

use crate::models::{ExtensionID, InventoryExtension, Metadata, Version};

verus! {

/// How the staged version of a colliding extension relates to the loaded one.
#[derive(Debug, Clone, Copy, PartialEq, Eq, Structural)]
pub enum VersionOrder {
    StagedHigher,
    StagedLower,
    Equal,
}

/// The order of the staged version relative to the loaded version.
pub open spec fn spec_version_order(staged: Version, loaded: Version) -> VersionOrder {
    if loaded.spec_lt(staged) {
        VersionOrder::StagedHigher
    } else if staged.spec_lt(loaded) {
        VersionOrder::StagedLower
    } else {
        VersionOrder::Equal
    }
}

/// Law: the version order of a staged against a loaded version is a total
/// trichotomy — `Equal` exactly when the versions are equal, `StagedHigher`
/// exactly when the staged version is strictly greater, and `StagedLower`
/// exactly when it is strictly smaller.
pub proof fn lemma_version_order_trichotomy(staged: Version, loaded: Version)
    ensures
        (spec_version_order(staged, loaded) == VersionOrder::Equal) <==> staged == loaded,
        (spec_version_order(staged, loaded) == VersionOrder::StagedHigher) <==> loaded.spec_lt(
            staged,
        ),
        (spec_version_order(staged, loaded) == VersionOrder::StagedLower) <==> staged.spec_lt(
            loaded,
        ),
{
    if !loaded.spec_lt(staged) && !staged.spec_lt(loaded) {
        assert(staged.major == loaded.major);
        assert(staged.minor == loaded.minor);
        assert(staged.patch == loaded.patch);
    }
}

/// Indicator that the manager encountered an error when staging an extension.
#[derive(Debug)]
pub struct StageConflict {
    pub id: ExtensionID,
}

impl StageConflict {
    pub fn new(metadata: &Metadata) -> (r: Self)
        ensures
            r.id == metadata.id,
    {
        StageConflict { id: metadata.id.clone() }
    }
}

/// Indicator that the display name of a staged extension did not match its
/// loaded counterpart.
#[derive(Debug)]
pub struct NameChange {
    pub loaded_name: String,
    pub staged_name: String,
}

impl Clone for NameChange {
    fn clone(&self) -> (r: Self)
        ensures
            r == *self,
    {
        NameChange {
            loaded_name: self.loaded_name.clone(),
            staged_name: self.staged_name.clone(),
        }
    }
}

/// Indicator that the version of a staged extension did not match its loaded
/// counterpart.
#[derive(Debug)]
pub struct VersionChange {
    pub loaded_version: Version,
    pub staged_version: Version,
}

impl Clone for VersionChange {
    fn clone(&self) -> (r: Self)
        ensures
            r == *self,
    {
        VersionChange { loaded_version: self.loaded_version, staged_version: self.staged_version }
    }
}

/// The difference between the metadata of two extensions sharing an
/// identity, used to determine conflicts. Does not account for extension
/// contents.
#[derive(Debug, Clone, Copy, PartialEq, Eq, Structural)]
pub struct ExtensionDiff {
    pub same_display_name: bool,
    pub version_order: VersionOrder,
}

/// The diff of a loaded and a staged metadata value with equal identities.
pub open spec fn spec_diff(loaded: Metadata, staged: Metadata) -> ExtensionDiff {
    ExtensionDiff {
        same_display_name: loaded.display_name@ == staged.display_name@,
        version_order: spec_version_order(staged.version, loaded.version),
    }
}

impl ExtensionDiff {
    /// Generates a diff between the metadata of a loaded and a staged
    /// extension, returning `None` if the extensions do not have the same ID
    /// and are thus incomparable.
    pub fn new(extension_1: &Metadata, extension_2: &Metadata) -> (r: Option<ExtensionDiff>)
        ensures
            r is Some <==> extension_1.id@ == extension_2.id@,
            r is Some ==> r == Some(spec_diff(*extension_1, *extension_2)),
    {
        if extension_1.id != extension_2.id {
            return None;
        }

        let version_order = if extension_1.version.lt(&extension_2.version) {
            VersionOrder::StagedHigher
        } else if extension_2.version.lt(&extension_1.version) {
            VersionOrder::StagedLower
        } else {
            VersionOrder::Equal
        };

        Some(ExtensionDiff {
            same_display_name: extension_1.display_name == extension_2.display_name,
            version_order,
        })
    }

    /// Checks whether the loaded extension is being updated by the staged
    /// extension.
    pub fn is_update(&self) -> (r: bool)
        ensures
            r == (self.same_display_name && self.version_order == VersionOrder::StagedHigher),
    {
        self.same_display_name && matches!(self.version_order, VersionOrder::StagedHigher)
    }

    /// Checks whether the loaded extension is being downgraded by the staged
    /// extension.
    pub fn is_downgrade(&self) -> (r: bool)
        ensures
            r == (self.same_display_name && self.version_order == VersionOrder::StagedLower),
    {
        self.same_display_name && matches!(self.version_order, VersionOrder::StagedLower)
    }

    /// Checks whether the diff indicates that the extension name is being
    /// changed.
    pub fn is_name_change(&self) -> (r: bool)
        ensures
            r == !self.same_display_name,
    {
        !self.same_display_name
    }
}

/// Indicator that the manager encountered a collision when loading an
/// extension: a loaded extension shares the staged extension's identity.
#[derive(Debug)]
pub struct LoadConflict {
    pub id: ExtensionID,
    pub name_change: Option<NameChange>,
    pub version_change: Option<VersionChange>,
}

impl Clone for LoadConflict {
    fn clone(&self) -> (r: Self)
        ensures
            r == *self,
    {
        LoadConflict {
            id: self.id.clone(),
            name_change: match &self.name_change {
                Some(nc) => Some(nc.clone()),
                None => None,
            },
            version_change: match &self.version_change {
                Some(vc) => Some(vc.clone()),
                None => None,
            },
        }
    }
}

/// The conflict recorded for a loaded and a staged metadata value with equal
/// identities: a name change when the display names differ, and a version
/// change when the display names agree but the versions differ. A version
/// difference under a name change is deliberately not surfaced as a version
/// change.
pub open spec fn spec_conflict(loaded: Metadata, staged: Metadata) -> LoadConflict {
    LoadConflict {
        id: loaded.id,
        name_change: if loaded.display_name@ != staged.display_name@ {
            Some(NameChange { loaded_name: loaded.display_name, staged_name: staged.display_name })
        } else {
            None
        },
        version_change: if loaded.display_name@ == staged.display_name@
            && spec_version_order(staged.version, loaded.version) != VersionOrder::Equal {
            Some(
                VersionChange { loaded_version: loaded.version, staged_version: staged.version },
            )
        } else {
            None
        },
    }
}

/// The index of the first entry of `loaded`, at `i` or later, whose identity
/// is `id`.
pub open spec fn spec_find_match_from(loaded: Seq<Metadata>, id: Seq<char>, i: int) -> Option<int>
    decreases loaded.len() - i,
{
    if i < 0 || i >= loaded.len() {
        None
    } else if loaded[i].id@ == id {
        Some(i)
    } else {
        spec_find_match_from(loaded, id, i + 1)
    }
}

/// The index of the first entry of `loaded` whose identity is `id`.
pub open spec fn spec_find_match(loaded: Seq<Metadata>, id: Seq<char>) -> Option<int> {
    spec_find_match_from(loaded, id, 0)
}

/// The found index, if any, carries an equal identity and is the first such;
/// absence means no entry matches.
pub proof fn lemma_find_match_from(loaded: Seq<Metadata>, id: Seq<char>, i: int)
    requires
        0 <= i <= loaded.len(),
    ensures
        (match spec_find_match_from(loaded, id, i) {
            Some(k) => i <= k < loaded.len() && loaded[k].id@ == id && (forall|j: int|
                i <= j < k ==> loaded[j].id@ != id),
            None => forall|j: int| i <= j < loaded.len() ==> loaded[j].id@ != id,
        }),
    decreases loaded.len() - i,
{
    if i < loaded.len() && loaded[i].id@ != id {
        lemma_find_match_from(loaded, id, i + 1);
    }
}

impl LoadConflict {
    /// Checks whether a given staged extension conflicts with any of the
    /// given loaded extensions. If it does, the matched loaded entry is
    /// removed from the collection and the conflict is returned.
    ///
    /// Any staged extension can only logically have up to one conflict with
    /// a loaded extension, and vice versa: conflicts only arise between
    /// extensions sharing an ID, no two loaded extensions share an ID due to
    /// database constraints, and no two staged extensions share an ID
    /// because they are pre-filtered. Removing the matched entry enforces
    /// the single consumption procedurally all the same.
    pub fn new(staged_extension: &InventoryExtension, loaded_extensions: &mut Vec<Metadata>) -> (r:
        Option<LoadConflict>)
        ensures
            (match spec_find_match(old(loaded_extensions)@, staged_extension.metadata.id@) {
                None => r is None && final(loaded_extensions)@ == old(loaded_extensions)@,
                Some(i) => r == Some(
                    spec_conflict(old(loaded_extensions)@[i], staged_extension.metadata),
                ) && final(loaded_extensions)@ == old(loaded_extensions)@.remove(i),
            }),
    {
        let staged_extension_metadata = &staged_extension.metadata;
        let ghost orig = loaded_extensions@;
        let ghost id = staged_extension_metadata.id@;
        let mut i: usize = 0;
        while i < loaded_extensions.len()
            invariant
                0 <= i <= loaded_extensions.len(),
                loaded_extensions@ == orig,
                old(loaded_extensions)@ == orig,
                *staged_extension_metadata == staged_extension.metadata,
                id == staged_extension.metadata.id@,
                spec_find_match(orig, id) == spec_find_match_from(orig, id, i as int),
            decreases loaded_extensions.len() - i,
        {
            let loaded_extension_metadata = &loaded_extensions[i];

            // Check the difference between the loaded and staged extensions.
            let diff = ExtensionDiff::new(loaded_extension_metadata, staged_extension_metadata);

            match diff {
                // If the extensions have different IDs, move on to the next
                // loaded extension.
                None => {
                    proof {
                        assert(spec_find_match_from(orig, id, i as int) == spec_find_match_from(
                            orig,
                            id,
                            i as int + 1,
                        ));
                    }
                    i = i + 1;
                },
                // Otherwise, determine the conflict.
                Some(diff) => {
                    let conflict = LoadConflict {
                        id: loaded_extension_metadata.id.clone(),
                        name_change: if diff.is_name_change() {
                            Some(
                                NameChange {
                                    loaded_name: loaded_extension_metadata.display_name.clone(),
                                    staged_name: staged_extension_metadata.display_name.clone(),
                                },
                            )
                        } else {
                            None
                        },
                        version_change: if diff.is_update() || diff.is_downgrade() {
                            Some(
                                VersionChange {
                                    loaded_version: loaded_extension_metadata.version,
                                    staged_version: staged_extension_metadata.version,
                                },
                            )
                        } else {
                            None
                        },
                    };

                    proof {
                        assert(spec_find_match_from(orig, id, i as int) == Some(i as int));
                    }

                    // Skip the matched extension in subsequent conflict
                    // checks within the same pass.
                    loaded_extensions.remove(i);
                    return Some(conflict);
                },
            }
        }

        None
    }

    /// Checks whether the conflict indicates that the extension should be
    /// reloaded or skipped. Load and handle override flags should be checked
    /// before calling this method; `resolve` does both in one step.
    pub fn should_reload(&self) -> (r: bool)
        ensures
            r == spec_should_reload(*self),
    {
        if let Some(version_change) = &self.version_change {
            version_change.loaded_version.lt(&version_change.staged_version)
        } else {
            false
        }
    }

    /// The resolved action for this conflict: reload exactly when the
    /// override flag is set and the staged version is strictly higher than
    /// the loaded one; skip otherwise.
    pub fn resolve(&self, load_override: bool) -> (r: LoadAction)
        ensures
            r == spec_resolve(*self, load_override),
    {
        if load_override && self.should_reload() {
            LoadAction::Reload
        } else {
            LoadAction::Skip
        }
    }
}

/// True iff a version change is present with the staged version strictly
/// greater than the loaded one.
pub open spec fn spec_should_reload(conflict: LoadConflict) -> bool {
    match conflict.version_change {
        Some(vc) => vc.loaded_version.spec_lt(vc.staged_version),
        None => false,
    }
}

/// The storage effect chosen for one staged extension.
#[derive(Debug, Clone, Copy, PartialEq, Eq, Structural)]
pub enum LoadAction {
    Load,
    Reload,
    Skip,
}

/// The action taken for a conflicting staged extension: the override flag is
/// a strict prerequisite for any reload, and a downgrade or an unchanged
/// version never reloads.
pub open spec fn spec_resolve(conflict: LoadConflict, load_override: bool) -> LoadAction {
    if load_override && spec_should_reload(conflict) {
        LoadAction::Reload
    } else {
        LoadAction::Skip
    }
}

} // verus!

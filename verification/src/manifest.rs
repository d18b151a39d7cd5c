//! Manifests and lock files: what a generation records.

use vstd::prelude::*;
use crate::names;

verus! {

/// What the user asks an environment to hold: an ordered list of package
/// specifiers and, optionally, the system the environment targets.
#[derive(Debug, PartialEq, Eq)]
pub struct Manifest {
    pub packages: Vec<String>,
    pub system: Option<String>,
}

/// A manifest as a value: the text of its specifiers and of its system.
pub struct ManifestView {
    pub packages: Seq<Seq<char>>,
    pub system: Option<Seq<char>>,
}

/// The text of an optional string.
pub open spec fn text_of(value: Option<String>) -> Option<Seq<char>> {
    match value {
        Some(text) => Some(text@),
        None => None,
    }
}

impl View for Manifest {
    type V = ManifestView;

    open spec fn view(&self) -> ManifestView {
        ManifestView { packages: self.packages.deep_view(), system: text_of(self.system) }
    }
}

impl ManifestView {
    /// The manifest of an environment that has no generation yet.
    pub open spec fn empty() -> ManifestView {
        ManifestView { packages: Seq::empty(), system: None }
    }

    /// Every specifier is well formed and none occurs twice; the system,
    /// where one is named, is well formed too.
    pub open spec fn valid(self) -> bool {
        &&& names::all_well_formed(self.packages)
        &&& self.packages.no_duplicates()
        &&& self.system matches Some(system) ==> names::well_formed(system)
    }

    /// This manifest with `packages` added behind what it already lists.
    pub open spec fn with_installed(self, packages: Seq<Seq<char>>) -> ManifestView {
        ManifestView { packages: names::union(self.packages, packages), system: self.system }
    }

    /// This manifest without `packages`.
    pub open spec fn with_removed(self, packages: Seq<Seq<char>>) -> ManifestView {
        ManifestView { packages: names::difference(self.packages, packages), system: self.system }
    }
}

/// Installing well-formed specifiers into a valid manifest, or removing any
/// from it, gives a valid manifest.
pub proof fn mutations_keep_validity(manifest: ManifestView, packages: Seq<Seq<char>>)
    requires
        manifest.valid(),
    ensures
        names::all_well_formed(packages) ==> manifest.with_installed(packages).valid(),
        manifest.with_removed(packages).valid(),
{
    names::union_properties(manifest.packages, packages);
    names::difference_properties(manifest.packages, packages);
    let grown = manifest.with_installed(packages).packages;
    let shrunk = manifest.with_removed(packages).packages;
    if names::all_well_formed(packages) {
        assert forall|i: int| 0 <= i < grown.len() implies names::well_formed(
            #[trigger] grown[i],
        ) by {
            assert(grown.contains(grown[i]));
            if manifest.packages.contains(grown[i]) {
                let k = choose|k: int|
                    0 <= k < manifest.packages.len() && manifest.packages[k] == grown[i];
                assert(names::well_formed(manifest.packages[k]));
            } else {
                let k = choose|k: int| 0 <= k < packages.len() && packages[k] == grown[i];
                assert(names::well_formed(packages[k]));
            }
        }
    }
    assert forall|i: int| 0 <= i < shrunk.len() implies names::well_formed(
        #[trigger] shrunk[i],
    ) by {
        assert(shrunk.contains(shrunk[i]));
        let k = choose|k: int|
            0 <= k < manifest.packages.len() && manifest.packages[k] == shrunk[i];
        assert(names::well_formed(manifest.packages[k]));
    }
}

/// Whether two optional strings hold the same text.
pub fn same_text(left: &Option<String>, right: &Option<String>) -> (same: bool)
    ensures
        same == (text_of(*left) == text_of(*right)),
{
    match (left, right) {
        (Some(a), Some(b)) => *a == *b,
        (None, None) => true,
        _ => false,
    }
}

/// A copy of an optional string.
pub fn copy_text(value: &Option<String>) -> (copy: Option<String>)
    ensures
        text_of(copy) == text_of(*value),
{
    match value {
        Some(text) => Some(text.clone()),
        None => None,
    }
}

impl Manifest {
    pub fn new(packages: Vec<String>, system: Option<String>) -> (manifest: Manifest)
        ensures
            manifest@.packages == packages.deep_view(),
            manifest@.system == text_of(system),
    {
        Manifest { packages, system }
    }

    /// The manifest that lists nothing.
    pub fn empty() -> (manifest: Manifest)
        ensures
            manifest@ == ManifestView::empty(),
    {
        let manifest = Manifest { packages: Vec::new(), system: None };
        assert(manifest@.packages =~= Seq::empty());
        manifest
    }

    pub fn is_valid(&self) -> (valid: bool)
        ensures
            valid == self@.valid(),
    {
        let system_ok = match &self.system {
            Some(system) => names::is_well_formed(system.as_str()),
            None => true,
        };
        system_ok && names::are_well_formed(&self.packages) && names::are_distinct(&self.packages)
    }

    pub fn same_as(&self, other: &Manifest) -> (same: bool)
        ensures
            same == (self@ == other@),
    {
        names::same_list(&self.packages, &other.packages) && same_text(&self.system, &other.system)
    }
}

impl Clone for Manifest {
    fn clone(&self) -> (copy: Manifest)
        ensures
            copy@ == self@,
    {
        Manifest { packages: names::copy_list(&self.packages), system: copy_text(&self.system) }
    }
}

/// What the resolver pinned for a manifest, together with the handle of the
/// environment it built from those pins.
#[derive(Debug, PartialEq, Eq)]
pub struct LockFile {
    pub content: String,
    pub realized: String,
}

pub struct LockView {
    pub content: Seq<char>,
    pub realized: Seq<char>,
}

impl View for LockFile {
    type V = LockView;

    open spec fn view(&self) -> LockView {
        LockView { content: self.content@, realized: self.realized@ }
    }
}

impl LockFile {
    pub fn new(content: String, realized: String) -> (lock: LockFile)
        ensures
            lock@ == (LockView { content: content@, realized: realized@ }),
    {
        LockFile { content, realized }
    }

    pub fn same_as(&self, other: &LockFile) -> (same: bool)
        ensures
            same == (self@ == other@),
    {
        self.content == other.content && self.realized == other.realized
    }
}

impl Clone for LockFile {
    fn clone(&self) -> (copy: LockFile)
        ensures
            copy@ == self@,
    {
        LockFile { content: self.content.clone(), realized: self.realized.clone() }
    }
}

} // verus!

//! The history controller: moving the cursor along the chain, listing the
//! chain with the changes between neighbours, and collapsing it.
//!
//! Collapsing keeps the generation in use under the index it already has;
//! generations created afterwards continue from that index.

use vstd::prelude::*;
use crate::environment::{lemma_position, Environment, EnvironmentView};
use crate::error::ErrorKind;
use crate::generation::{Actor, ActorView, Generation};
use crate::manifest::{same_text, ManifestView};
use crate::names;
use crate::record::views;

verus! {

/// What changed between a generation's manifest and the one before it.
#[derive(Debug, PartialEq, Eq)]
pub enum Change {
    /// The specifiers that came and went.
    Listed { added: Vec<String>, removed: Vec<String> },
    /// Only how many came and went: the one-line form.
    Counted { additions: usize, removals: usize },
}

pub enum ChangeView {
    Listed { added: Seq<Seq<char>>, removed: Seq<Seq<char>> },
    Counted { additions: nat, removals: nat },
}

impl View for Change {
    type V = ChangeView;

    open spec fn view(&self) -> ChangeView {
        match self {
            Change::Listed { added, removed } => ChangeView::Listed {
                added: added.deep_view(),
                removed: removed.deep_view(),
            },
            Change::Counted { additions, removals } => ChangeView::Counted {
                additions: *additions as nat,
                removals: *removals as nat,
            },
        }
    }
}

/// One line of an environment's history.
#[derive(Debug, PartialEq, Eq)]
pub struct HistoryEntry {
    pub index: u32,
    pub created_at: u64,
    pub created_by: Actor,
    /// Whether the cursor is on this generation.
    pub in_use: bool,
    /// Whether the target system differs from that of the generation before.
    pub system_changed: bool,
    pub change: Change,
}

pub struct HistoryEntryView {
    pub index: u32,
    pub created_at: u64,
    pub created_by: ActorView,
    pub in_use: bool,
    pub system_changed: bool,
    pub change: ChangeView,
}

impl View for HistoryEntry {
    type V = HistoryEntryView;

    open spec fn view(&self) -> HistoryEntryView {
        HistoryEntryView {
            index: self.index,
            created_at: self.created_at,
            created_by: self.created_by@,
            in_use: self.in_use,
            system_changed: self.system_changed,
            change: self.change@,
        }
    }
}

/// The change from manifest `before` to manifest `after`.
pub open spec fn change_between(before: ManifestView, after: ManifestView, oneline: bool)
    -> ChangeView {
    let added = names::difference(after.packages, before.packages);
    let removed = names::difference(before.packages, after.packages);
    if oneline {
        ChangeView::Counted { additions: added.len(), removals: removed.len() }
    } else {
        ChangeView::Listed { added, removed }
    }
}

impl EnvironmentView {
    /// Where the cursor goes on a rollback: to `to` if the chain holds it,
    /// and with no `to`, to the index just below the cursor.
    pub open spec fn rollback_target(self, to: Option<u32>) -> Result<u32, ErrorKind> {
        match to {
            Some(index) => if self.contains(index) {
                Ok(index)
            } else {
                Err(ErrorKind::UnknownGeneration)
            },
            None => match self.current {
                Some(current) => if current > 0 && self.contains((current - 1) as u32) {
                    Ok((current - 1) as u32)
                } else {
                    Err(ErrorKind::NoPreviousGeneration)
                },
                None => Err(ErrorKind::NoPreviousGeneration),
            },
        }
    }

    /// The chain collapsed to the generation in use.
    pub open spec fn wiped(self) -> EnvironmentView {
        EnvironmentView { generations: seq![self.current_generation()], current: self.current }
    }

    /// The manifest that the generation at place `i` is compared with: that
    /// of its neighbour below, or the empty manifest for the oldest.
    pub open spec fn manifest_before(self, i: int) -> ManifestView {
        if i == 0 {
            ManifestView::empty()
        } else {
            self.generations[i - 1].manifest
        }
    }

    /// The history line of the generation at place `i`.
    pub open spec fn history_entry(self, i: int, oneline: bool) -> HistoryEntryView {
        let generation = self.generations[i];
        let before = self.manifest_before(i);
        HistoryEntryView {
            index: generation.index,
            created_at: generation.created_at,
            created_by: generation.created_by,
            in_use: self.current == Some(generation.index),
            system_changed: before.system != generation.manifest.system,
            change: change_between(before, generation.manifest, oneline),
        }
    }
}

impl Environment {
    /// Moves the cursor back: to `to`, or to the generation just before the
    /// one in use. No generation is deleted.
    pub fn rollback(&mut self, to: Option<u32>) -> (result: Result<u32, ErrorKind>)
        ensures
            final(self)@.wf(),
            result == old(self)@.rollback_target(to),
            match result {
                Ok(target) => final(self)@ == old(self)@.moved_to(target),
                Err(_) => final(self)@ == old(self)@,
            },
    {
        let target = match to {
            Some(index) => index,
            None => match self.current() {
                Some(current) => {
                    if current == 0 || !self.contains(current - 1) {
                        return Err(ErrorKind::NoPreviousGeneration);
                    }
                    current - 1
                },
                None => {
                    return Err(ErrorKind::NoPreviousGeneration);
                },
            },
        };
        match self.set_current(target) {
            Ok(_) => Ok(target),
            Err(kind) => Err(kind),
        }
    }

    /// Moves the cursor to any generation of the chain, older or newer.
    pub fn switch_generation(&mut self, index: u32) -> (result: Result<(), ErrorKind>)
        ensures
            final(self)@.wf(),
            match result {
                Ok(_) => old(self)@.contains(index) && final(self)@ == old(self)@.moved_to(index),
                Err(kind) => kind == ErrorKind::UnknownGeneration && !old(self)@.contains(index)
                    && final(self)@ == old(self)@,
            },
    {
        self.set_current(index)
    }

    /// Deletes every generation but the one in use, which keeps its index
    /// and its content. The cursor does not move.
    pub fn wipe_history(&mut self) -> (result: Result<(), ErrorKind>)
        ensures
            final(self)@.wf(),
            match result {
                Ok(_) => old(self)@.generations.len() > 1 && final(self)@ == old(self)@.wiped(),
                Err(kind) => kind == ErrorKind::NothingToWipe && old(self)@.generations.len() <= 1
                    && final(self)@ == old(self)@,
            },
    {
        let current = self.current();
        if self.len() <= 1 {
            return Err(ErrorKind::NothingToWipe);
        }
        let ghost before = self@;
        match current {
            Some(index) => {
                proof {
                    lemma_position(before, index);
                }
                let first = self.generations()[0].index;
                let position = (index - first) as usize;
                let mut generations = self.dismantle();
                let kept = generations.swap_remove(position);
                let mut chain: Vec<Generation> = Vec::new();
                chain.push(kept);
                proof {
                    assert(kept@ == before.generations[position as int]);
                    assert(views(chain@) =~= before.wiped().generations);
                    assert(before.wiped().generations[0].index == index);
                }
                *self = Environment::assemble(chain, current);
                Ok(())
            },
            None => Err(ErrorKind::NothingToWipe),
        }
    }

    /// The chain from the oldest generation to the newest, each with what
    /// changed against its neighbour below. With `oneline` a line only counts
    /// the changes.
    pub fn history(&self, oneline: bool) -> (entries: Vec<HistoryEntry>)
        ensures
            entries@.len() == self@.generations.len(),
            forall|i: int|
                0 <= i < entries@.len() ==> (#[trigger] entries@[i])@ == self@.history_entry(
                    i,
                    oneline,
                ),
    {
        let generations = self.generations();
        let current = self.current();
        let nothing: Vec<String> = Vec::new();
        assert(nothing.deep_view() =~= Seq::empty());
        let mut entries: Vec<HistoryEntry> = Vec::new();
        let mut i: usize = 0;
        while i < generations.len()
            invariant
                i <= generations.len(),
                views(generations@) == self@.generations,
                current == self@.current,
                nothing.deep_view() == Seq::<Seq<char>>::empty(),
                entries@.len() == i,
                forall|j: int|
                    0 <= j < i ==> (#[trigger] entries@[j])@ == self@.history_entry(j, oneline),
            decreases generations.len() - i,
        {
            let generation = &generations[i];
            assert(generation@ == self@.generations[i as int]);
            let (added, removed, system_changed) = if i == 0 {
                (
                    names::difference_of(&generation.manifest.packages, &nothing),
                    names::difference_of(&nothing, &generation.manifest.packages),
                    !same_text(&None, &generation.manifest.system),
                )
            } else {
                let before = &generations[i - 1];
                assert(before@ == self@.generations[i - 1]);
                (
                    names::difference_of(&generation.manifest.packages, &before.manifest.packages),
                    names::difference_of(&before.manifest.packages, &generation.manifest.packages),
                    !same_text(&before.manifest.system, &generation.manifest.system),
                )
            };
            let change = if oneline {
                Change::Counted { additions: added.len(), removals: removed.len() }
            } else {
                Change::Listed { added, removed }
            };
            entries.push(
                HistoryEntry {
                    index: generation.index,
                    created_at: generation.created_at,
                    created_by: generation.created_by.clone(),
                    in_use: current == Some(generation.index),
                    system_changed,
                    change,
                },
            );
            i = i + 1;
        }
        entries
    }
}

} // verus!

//! The transaction pipeline: from a requested change of the manifest to a
//! new generation.
//!
//! A transaction is begun against the manifest in use, handed to the
//! resolver, and committed with what the resolver returned. Nothing is
//! written before the commit, and the commit writes either one whole
//! generation or nothing.

use vstd::prelude::*;
use crate::environment::{Environment, EnvironmentView};
use crate::error::ErrorKind;
use crate::generation::{Actor, ActorView, GenerationRef, Operation};
use crate::manifest::{LockFile, LockView, Manifest, ManifestView};
use crate::names;

verus! {

/// A requested change of an environment's manifest.
#[derive(Debug, PartialEq, Eq)]
pub enum Mutation {
    /// Add these specifiers to the manifest.
    Install(Vec<String>),
    /// Take these specifiers out of the manifest.
    Remove(Vec<String>),
    /// Resolve these specifiers anew and hold the others to their pins;
    /// with an empty list, resolve every specifier anew.
    Upgrade(Vec<String>),
    /// Replace the manifest by one the user edited.
    Edit(Manifest),
    /// Replace the manifest by one read from a source.
    Import(Manifest),
}

pub enum MutationView {
    Install(Seq<Seq<char>>),
    Remove(Seq<Seq<char>>),
    Upgrade(Seq<Seq<char>>),
    Edit(ManifestView),
    Import(ManifestView),
}

impl View for Mutation {
    type V = MutationView;

    open spec fn view(&self) -> MutationView {
        match self {
            Mutation::Install(packages) => MutationView::Install(packages.deep_view()),
            Mutation::Remove(packages) => MutationView::Remove(packages.deep_view()),
            Mutation::Upgrade(packages) => MutationView::Upgrade(packages.deep_view()),
            Mutation::Edit(manifest) => MutationView::Edit(manifest@),
            Mutation::Import(manifest) => MutationView::Import(manifest@),
        }
    }
}

impl MutationView {
    /// The operation a generation made by this change is tagged with.
    pub open spec fn operation(self) -> Operation {
        match self {
            MutationView::Install(_) => Operation::Install,
            MutationView::Remove(_) => Operation::Remove,
            MutationView::Upgrade(_) => Operation::Upgrade,
            MutationView::Edit(_) => Operation::Edit,
            MutationView::Import(_) => Operation::Import,
        }
    }

    /// The manifest this change makes of `current`.
    pub open spec fn candidate(self, current: ManifestView) -> ManifestView {
        match self {
            MutationView::Install(packages) => current.with_installed(packages),
            MutationView::Remove(packages) => current.with_removed(packages),
            MutationView::Upgrade(_) => current,
            MutationView::Edit(manifest) => manifest,
            MutationView::Import(manifest) => manifest,
        }
    }

    /// The specifiers the resolver has to resolve anew; every other
    /// specifier of the candidate stays at its pin.
    pub open spec fn refreshed(self, current: ManifestView) -> Seq<Seq<char>> {
        match self {
            MutationView::Install(packages) => names::difference(
                self.candidate(current).packages,
                current.packages,
            ),
            MutationView::Remove(_) => Seq::empty(),
            MutationView::Upgrade(packages) => if packages.len() == 0 {
                current.packages
            } else {
                names::union(Seq::empty(), packages)
            },
            MutationView::Edit(manifest) => manifest.packages,
            MutationView::Import(manifest) => manifest.packages,
        }
    }

    /// Whether this change can be applied to `current`.
    ///
    /// Installing and removing need at least one specifier; what is removed
    /// or upgraded by name must be listed in `current`; and the manifest that
    /// results must be valid.
    pub open spec fn accepted(self, current: ManifestView) -> bool {
        &&& match self {
            MutationView::Install(packages) => packages.len() > 0,
            MutationView::Remove(packages) => packages.len() > 0 && names::all_within(
                packages,
                current.packages,
            ),
            MutationView::Upgrade(packages) => names::all_within(packages, current.packages),
            MutationView::Edit(_) => true,
            MutationView::Import(_) => true,
        }
        &&& self.candidate(current).valid()
    }
}

/// A change that passed validation and waits for the resolver.
#[derive(Debug, PartialEq, Eq)]
pub struct Transaction {
    /// The cursor as it stood when the transaction began.
    pub base: Option<u32>,
    pub operation: Operation,
    /// The manifest the new generation will hold.
    pub manifest: Manifest,
    /// The specifiers to resolve anew.
    pub refresh: Vec<String>,
    /// The lock of the generation in use, whose pins hold for every
    /// specifier that is not resolved anew.
    pub pinned: Option<LockFile>,
}

pub struct TransactionView {
    pub base: Option<u32>,
    pub operation: Operation,
    pub manifest: ManifestView,
    pub refresh: Seq<Seq<char>>,
    pub pinned: Option<LockView>,
}

/// The value of an optional lock.
pub open spec fn lock_of(lock: Option<LockFile>) -> Option<LockView> {
    match lock {
        Some(lock) => Some(lock@),
        None => None,
    }
}

impl View for Transaction {
    type V = TransactionView;

    open spec fn view(&self) -> TransactionView {
        TransactionView {
            base: self.base,
            operation: self.operation,
            manifest: self.manifest@,
            refresh: self.refresh.deep_view(),
            pinned: lock_of(self.pinned),
        }
    }
}

impl TransactionView {
    /// The specifiers that stay at their pins: those of the manifest that
    /// are not resolved anew.
    pub open spec fn held(self) -> Seq<Seq<char>> {
        names::difference(self.manifest.packages, self.refresh)
    }
}

impl Transaction {
    /// The specifiers that the resolver holds to their pins.
    pub fn held(&self) -> (held: Vec<String>)
        ensures
            held.deep_view() == self@.held(),
    {
        names::difference_of(&self.manifest.packages, &self.refresh)
    }
}

/// What the resolver made of a transaction's manifest.
#[derive(Debug, PartialEq, Eq)]
pub enum ResolveOutcome {
    /// The lock for the manifest, with the environment realized from it.
    Resolved(LockFile),
    /// The resolver or the builder failed; the text is its diagnostic.
    Failed(String),
}

pub enum ResolveOutcomeView {
    Resolved(LockView),
    Failed(Seq<char>),
}

impl View for ResolveOutcome {
    type V = ResolveOutcomeView;

    open spec fn view(&self) -> ResolveOutcomeView {
        match self {
            ResolveOutcome::Resolved(lock) => ResolveOutcomeView::Resolved(lock@),
            ResolveOutcome::Failed(diagnostic) => ResolveOutcomeView::Failed(diagnostic@),
        }
    }
}

impl EnvironmentView {
    /// The lock of the generation in use, if there is one.
    pub open spec fn current_lock(self) -> Option<LockView> {
        if self.current is Some {
            Some(self.current_generation().lock)
        } else {
            None
        }
    }

    /// The transaction that `mutation` begins on this environment.
    pub open spec fn begun(self, mutation: MutationView) -> TransactionView {
        TransactionView {
            base: self.current,
            operation: mutation.operation(),
            manifest: mutation.candidate(self.current_manifest()),
            refresh: mutation.refreshed(self.current_manifest()),
            pinned: self.current_lock(),
        }
    }

    /// The environment after a transaction was committed with the
    /// resolver's outcome, or the reason why nothing was committed.
    pub open spec fn committed(
        self,
        transaction: TransactionView,
        outcome: ResolveOutcomeView,
        actor: Seq<char>,
        created_at: u64,
    ) -> Result<EnvironmentView, ErrorKind> {
        match outcome {
            ResolveOutcomeView::Failed(_) => Err(ErrorKind::ExternalToolFailure),
            ResolveOutcomeView::Resolved(lock) => if transaction.base == self.current {
                Ok(
                    self.created(
                        transaction.manifest,
                        lock,
                        ActorView { name: actor, operation: transaction.operation },
                        created_at,
                    ),
                )
            } else {
                Err(ErrorKind::ConcurrentModification)
            },
        }
    }
}

impl EnvironmentView {
    /// Whether `after` and `result` are how ending a transaction on this
    /// environment comes out: the next generation and its reference, or the
    /// reason for committing nothing and the environment as it was.
    pub open spec fn ends_as(
        self,
        transaction: TransactionView,
        outcome: ResolveOutcomeView,
        actor: Seq<char>,
        created_at: u64,
        after: EnvironmentView,
        result: Result<GenerationRef, ErrorKind>,
    ) -> bool {
        match self.committed(transaction, outcome, actor, created_at) {
            Ok(next) => after == next && (result matches Ok(reference) && reference@
                == next.generations.last().reference()),
            Err(kind) => after == self && result == Err::<GenerationRef, ErrorKind>(kind),
        }
    }
}

impl Mutation {
    pub fn operation(&self) -> (operation: Operation)
        ensures
            operation == self@.operation(),
    {
        match self {
            Mutation::Install(_) => Operation::Install,
            Mutation::Remove(_) => Operation::Remove,
            Mutation::Upgrade(_) => Operation::Upgrade,
            Mutation::Edit(_) => Operation::Edit,
            Mutation::Import(_) => Operation::Import,
        }
    }
}

impl Environment {
    /// Reads the manifest in use, applies `mutation` to it and validates the
    /// result. The environment itself is not touched.
    pub fn begin(&self, mutation: Mutation) -> (result: Result<Transaction, ErrorKind>)
        ensures
            match result {
                Ok(transaction) => mutation@.accepted(self@.current_manifest()) && transaction@
                    == self@.begun(mutation@),
                Err(kind) => kind == ErrorKind::ValidationError && !mutation@.accepted(
                    self@.current_manifest(),
                ),
            },
    {
        let current = self.current_manifest();
        let operation = mutation.operation();
        let pinned = match self.current_generation() {
            Some(generation) => Some(generation.lock.clone()),
            None => None,
        };
        let (inputs_ok, manifest, refresh) = match mutation {
            Mutation::Install(packages) => {
                let all = names::union_of(&current.packages, &packages);
                let fresh = names::difference_of(&all, &current.packages);
                (
                    packages.len() > 0,
                    Manifest::new(all, crate::manifest::copy_text(&current.system)),
                    fresh,
                )
            },
            Mutation::Remove(packages) => {
                let rest = names::difference_of(&current.packages, &packages);
                let nothing: Vec<String> = Vec::new();
                assert(nothing.deep_view() =~= Seq::empty());
                (
                    packages.len() > 0 && names::are_within(&packages, &current.packages),
                    Manifest::new(rest, crate::manifest::copy_text(&current.system)),
                    nothing,
                )
            },
            Mutation::Upgrade(packages) => {
                let listed = names::are_within(&packages, &current.packages);
                let refresh = if packages.len() == 0 {
                    names::copy_list(&current.packages)
                } else {
                    let nothing: Vec<String> = Vec::new();
                    assert(nothing.deep_view() =~= Seq::empty());
                    names::union_of(&nothing, &packages)
                };
                (listed, current, refresh)
            },
            Mutation::Edit(manifest) => {
                let refresh = names::copy_list(&manifest.packages);
                (true, manifest, refresh)
            },
            Mutation::Import(manifest) => {
                let refresh = names::copy_list(&manifest.packages);
                (true, manifest, refresh)
            },
        };
        if inputs_ok && manifest.is_valid() {
            Ok(Transaction { base: self.current(), operation, manifest, refresh, pinned })
        } else {
            Err(ErrorKind::ValidationError)
        }
    }

    /// Runs a whole transaction: begins it, hands it to `resolver`, and
    /// commits what the resolver returned.
    ///
    /// A change that is refused never reaches the resolver. Whatever the
    /// resolver returns, the environment ends as [`EnvironmentView::committed`]
    /// says for that outcome.
    pub fn transact<R: FnOnce(&Transaction) -> ResolveOutcome>(
        &mut self,
        mutation: Mutation,
        resolver: R,
        actor: String,
        created_at: u64,
    ) -> (result: Result<GenerationRef, ErrorKind>)
        requires
            mutation@.accepted(old(self)@.current_manifest()) ==> old(self)@.next_index()
                <= u32::MAX,
            forall|transaction: &Transaction| call_requires(resolver, (transaction,)),
        ensures
            final(self)@.wf(),
            !mutation@.accepted(old(self)@.current_manifest()) ==> final(self)@ == old(self)@
                && result == Err::<GenerationRef, ErrorKind>(ErrorKind::ValidationError),
            mutation@.accepted(old(self)@.current_manifest()) ==> exists|
                transaction: Transaction,
                outcome: ResolveOutcome,
            |
                transaction@ == old(self)@.begun(mutation@) && call_ensures(
                    resolver,
                    (&transaction,),
                    outcome,
                ) && old(self)@.ends_as(
                    transaction@,
                    outcome@,
                    actor@,
                    created_at,
                    final(self)@,
                    result,
                ),
    {
        match self.begin(mutation) {
            Ok(transaction) => {
                let outcome = resolver(&transaction);
                let ghost begun = transaction;
                let ghost returned = outcome;
                let result = self.commit(transaction, outcome, actor, created_at);
                proof {
                    assert(call_ensures(resolver, (&begun,), returned));
                }
                result
            },
            Err(kind) => {
                self.recall_invariant();
                Err(kind)
            },
        }
    }

    /// Ends a transaction. If the resolver failed, or if the cursor has moved
    /// since the transaction began, the environment stays as it is; otherwise
    /// the transaction's manifest and the resolver's lock become the next
    /// generation, which is then the one in use.
    ///
    /// Only a commit that creates a generation needs room for its index.
    pub fn commit(
        &mut self,
        transaction: Transaction,
        outcome: ResolveOutcome,
        actor: String,
        created_at: u64,
    ) -> (result: Result<GenerationRef, ErrorKind>)
        requires
            outcome is Resolved && transaction.base == old(self)@.current
                ==> old(self)@.next_index() <= u32::MAX,
        ensures
            final(self)@.wf(),
            old(self)@.ends_as(transaction@, outcome@, actor@, created_at, final(self)@, result),
    {
        match outcome {
            ResolveOutcome::Failed(_) => {
                self.recall_invariant();
                Err(ErrorKind::ExternalToolFailure)
            },
            ResolveOutcome::Resolved(lock) => self.create_generation(
                transaction.manifest,
                lock,
                Actor::new(actor, transaction.operation),
                created_at,
                transaction.base,
            ),
        }
    }
}

} // verus!

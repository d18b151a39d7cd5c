//! What holds of every environment, whatever was done to it.

use vstd::prelude::*;
use crate::environment::{lemma_position, EnvironmentView};
use crate::error::ErrorKind;
use crate::commands::EnvironmentCommands;
use crate::generation::ActorView;
use crate::handling::{Failure, ReplicaView, Report, Step};
use crate::manifest::{LockView, ManifestView};
use crate::names;
use crate::record::relation_properties;
use crate::transaction::{MutationView, ResolveOutcomeView, TransactionView};

verus! {

/// The cursor never dangles: in a well-formed environment it names a
/// generation of the chain, and no two generations share an index, so it
/// names exactly one.
pub proof fn cursor_names_one_generation(env: EnvironmentView)
    requires
        env.wf(),
    ensures
        env.current matches Some(index) ==> env.contains(index) && env.current_generation().index
            == index,
        forall|i: int, j: int|
            0 <= i < env.generations.len() && 0 <= j < env.generations.len()
                && env.generations[i].index == env.generations[j].index ==> i == j,
{
    if let Some(index) = env.current {
        lemma_position(env, index);
    }
}

/// Indices run without a gap from the oldest retained generation to the
/// newest, so each is larger than the one before by one. Collapsing the
/// history leaves exactly one generation: the one in use, unchanged and
/// under its old index, with the cursor where it was.
pub proof fn indices_are_gapless(env: EnvironmentView)
    requires
        env.wf(),
    ensures
        forall|i: int|
            0 < i < env.generations.len() ==> (#[trigger] env.generations[i]).index
                == env.generations[i - 1].index + 1,
        env.generations.len() > 0 ==> env.wiped().generations.len() == 1
            && env.wiped().generations[0] == env.current_generation() && env.wiped().current
            == env.current,
{
    assert forall|i: int| 0 < i < env.generations.len() implies (#[trigger] env.generations[i]).index
        == env.generations[i - 1].index + 1 by {
        assert(env.generations[i - 1].index == env.generations[0].index + (i - 1));
    }
}

/// Whatever is done to a well-formed environment leaves it well formed:
/// creating a generation, moving the cursor to a generation of the chain,
/// collapsing the history, pushing, pulling and destroying.
pub proof fn operations_keep_the_invariant(
    env: EnvironmentView,
    remote: EnvironmentView,
    manifest: ManifestView,
    lock: LockView,
    actor: ActorView,
    created_at: u64,
    index: u32,
    to: Option<u32>,
    force: bool,
    origin: bool,
)
    requires
        env.wf(),
        remote.wf(),
    ensures
        env.next_index() <= u32::MAX ==> env.created(manifest, lock, actor, created_at).wf(),
        env.contains(index) ==> env.moved_to(index).wf(),
        env.rollback_target(to) matches Ok(target) ==> env.moved_to(target).wf(),
        env.generations.len() > 0 ==> env.wiped().wf(),
        env.pushed(remote, force) matches Ok(next) ==> next.wf(),
        env.pulled(remote, force) matches Ok(next) ==> next.wf(),
        env.destroyed(remote, force, origin) matches Ok(left) ==> left.0.wf() && left.1.wf(),
{
    if env.next_index() <= u32::MAX {
        let next = env.created(manifest, lock, actor, created_at);
        assert(next.generations[env.generations.len() as int].index == next.current->0);
        assert forall|i: int| 0 <= i < next.generations.len() implies (
        #[trigger] next.generations[i]).parent_index matches Some(parent) ==> parent
            < next.generations[i].index by {
            if i == env.generations.len() {
                if let Some(parent) = env.current {
                    lemma_position(env, parent);
                }
            } else {
                assert(next.generations[i] == env.generations[i]);
            }
        }
    }
    if env.generations.len() > 0 {
        let index = env.current->0;
        lemma_position(env, index);
        assert(env.wiped().generations[0].index == index);
    }
}

/// History is only ever appended to: creating a generation and committing a
/// transaction leave every earlier generation in its place and unchanged, and
/// moving the cursor leaves the whole chain unchanged.
pub proof fn earlier_generations_stay(
    env: EnvironmentView,
    transaction: TransactionView,
    outcome: ResolveOutcomeView,
    actor: Seq<char>,
    created_at: u64,
    to: Option<u32>,
)
    ensures
        env.committed(transaction, outcome, actor, created_at) matches Ok(next)
            ==> env.generations.is_prefix_of(next.generations) && next.generations.len()
            == env.generations.len() + 1 && next.current == Some(next.generations.last().index),
        env.rollback_target(to) matches Ok(target) ==> env.moved_to(target).generations
            == env.generations,
{
    if let Ok(next) = env.committed(transaction, outcome, actor, created_at) {
        assert(next.generations.subrange(0, env.generations.len() as int) =~= env.generations);
    }
}

/// Once a transaction is committed, the environment uses what the
/// transaction made: the manifest in use is the one the change made of the
/// former manifest, the lock in use is the resolver's, and the new
/// generation has the index that follows the newest.
pub proof fn committed_change_is_in_use(
    env: EnvironmentView,
    mutation: MutationView,
    lock: LockView,
    actor: Seq<char>,
    created_at: u64,
)
    requires
        env.wf(),
        env.next_index() <= u32::MAX,
    ensures
        env.committed(env.begun(mutation), ResolveOutcomeView::Resolved(lock), actor, created_at)
            matches Ok(next) && next.current == Some(env.next_index() as u32)
            && next.current_manifest() == mutation.candidate(env.current_manifest())
            && next.current_lock() == Some(lock) && next.current_generation().parent_index
            == env.current,
{
    let next = env.created(
        env.begun(mutation).manifest,
        lock,
        ActorView { name: actor, operation: mutation.operation() },
        created_at,
    );
    operations_keep_the_invariant(
        env,
        env,
        env.begun(mutation).manifest,
        lock,
        ActorView { name: actor, operation: mutation.operation() },
        created_at,
        0,
        None,
        false,
        false,
    );
    assert(next.generations[env.generations.len() as int].index == env.next_index());
    lemma_position(next, env.next_index() as u32);
}

/// An install lists what was listed before, in its order, followed by what
/// is new; a removal lists what was listed before and is not removed.
pub proof fn install_adds_and_remove_takes_out(manifest: ManifestView, packages: Seq<Seq<char>>)
    ensures
        manifest.packages.is_prefix_of(
            MutationView::Install(packages).candidate(manifest).packages,
        ),
        forall|name: Seq<char>| #[trigger]
            MutationView::Install(packages).candidate(manifest).packages.contains(name)
                <==> manifest.packages.contains(name) || packages.contains(name),
        forall|name: Seq<char>| #[trigger]
            MutationView::Remove(packages).candidate(manifest).packages.contains(name)
                <==> manifest.packages.contains(name) && !packages.contains(name),
        MutationView::Install(packages).candidate(manifest).system == manifest.system,
        MutationView::Remove(packages).candidate(manifest).system == manifest.system,
{
    names::union_properties(manifest.packages, packages);
    names::difference_properties(manifest.packages, packages);
}

/// An upgrade leaves the manifest as it is. Without names it has every
/// specifier resolved anew and holds none to its pin; with names it has
/// exactly the named ones resolved anew and holds all the others.
pub proof fn upgrade_resolves_all_or_only_the_named(env: EnvironmentView, packages: Seq<Seq<char>>)
    ensures
        env.begun(MutationView::Upgrade(packages)).manifest == env.current_manifest(),
        packages.len() == 0 ==> env.begun(MutationView::Upgrade(packages)).refresh
            == env.current_manifest().packages && env.begun(
            MutationView::Upgrade(packages),
        ).held().len() == 0,
        packages.len() > 0 ==> forall|name: Seq<char>| #[trigger]
            env.begun(MutationView::Upgrade(packages)).refresh.contains(name)
                <==> packages.contains(name),
        packages.len() > 0 ==> forall|name: Seq<char>| #[trigger]
            env.begun(MutationView::Upgrade(packages)).held().contains(name)
                <==> env.current_manifest().packages.contains(name) && !packages.contains(name),
{
    let transaction = env.begun(MutationView::Upgrade(packages));
    names::union_properties(Seq::<Seq<char>>::empty(), packages);
    names::difference_properties(transaction.manifest.packages, transaction.refresh);
    if packages.len() == 0 {
        let held = transaction.held();
        if held.len() > 0 {
            assert(held.contains(held[0]));
        }
    }
}

/// A commit whose resolver failed reports the failure of the outside tool
/// and commits nothing, whatever the transaction holds.
pub proof fn failed_resolution_commits_nothing(
    env: EnvironmentView,
    transaction: TransactionView,
    diagnostic: Seq<char>,
    actor: Seq<char>,
    created_at: u64,
)
    ensures
        env.committed(transaction, ResolveOutcomeView::Failed(diagnostic), actor, created_at)
            == Err::<EnvironmentView, ErrorKind>(ErrorKind::ExternalToolFailure),
{
}

/// A command whose resolver failed ends as a failure of the outside tool that
/// carries the resolver's diagnostic, and leaves the local side exactly as it
/// was, whatever the history holds and however often it is tried.
pub proof fn failed_resolution_concludes_with_no_change(
    command: EnvironmentCommands,
    before: ReplicaView,
    transaction: TransactionView,
    diagnostic: Seq<char>,
    actor: Seq<char>,
    created_at: u64,
    first: (ReplicaView, Result<Step, Failure>),
    again: (ReplicaView, Result<Step, Failure>),
)
    requires
        command.concluded(
            before,
            transaction,
            ResolveOutcomeView::Failed(diagnostic),
            actor,
            created_at,
            first.0,
            first.1,
        ),
        command.concluded(
            first.0,
            transaction,
            ResolveOutcomeView::Failed(diagnostic),
            actor,
            created_at,
            again.0,
            again.1,
        ),
    ensures
        first.0 == before,
        again.0 == before,
        first.1 matches Err(failure) && command.fails_because(
            failure,
            ErrorKind::ExternalToolFailure,
            diagnostic,
        ),
        again.1 matches Err(failure) && command.fails_because(
            failure,
            ErrorKind::ExternalToolFailure,
            diagnostic,
        ),
{
}

/// Of two commands whose transactions were begun on the same state and both
/// resolved, the one concluded first commits and the other then fails as a
/// concurrent modification. The chain has grown by exactly one generation:
/// the winner's, which is in use, has the former cursor as its parent, and
/// stands behind every earlier generation. Room is needed for that one
/// generation only.
pub proof fn concurrent_commands_commit_once(
    winner: EnvironmentCommands,
    loser: EnvironmentCommands,
    before: ReplicaView,
    changes: (MutationView, MutationView),
    locks: (LockView, LockView),
    actors: (Seq<char>, Seq<char>),
    times: (u64, u64),
    first: (ReplicaView, Result<Step, Failure>),
    second: (ReplicaView, Result<Step, Failure>),
)
    requires
        before.environment.wf(),
        before.environment.next_index() <= u32::MAX,
        winner.concluded(
            before,
            before.environment.begun(changes.0),
            ResolveOutcomeView::Resolved(locks.0),
            actors.0,
            times.0,
            first.0,
            first.1,
        ),
        loser.concluded(
            first.0,
            before.environment.begun(changes.1),
            ResolveOutcomeView::Resolved(locks.1),
            actors.1,
            times.1,
            second.0,
            second.1,
        ),
    ensures
        first.1 matches Ok(Step::Done(Report::Committed(_))),
        second.1 matches Err(failure) && loser.fails_with(
            failure,
            ErrorKind::ConcurrentModification,
        ),
        second.0 == first.0,
        second.0.environment.generations.len() == before.environment.generations.len() + 1,
        before.environment.generations.is_prefix_of(second.0.environment.generations),
        second.0.environment.current == Some(second.0.environment.generations.last().index),
        second.0.environment.generations.last().parent_index == before.environment.current,
        second.0.environment.generations.last().manifest == changes.0.candidate(
            before.environment.current_manifest(),
        ),
        second.0.environment.generations.last().lock == locks.0,
{
    let env = before.environment;
    if let Some(index) = env.current {
        lemma_position(env, index);
    }
    assert(first.0.environment.generations.subrange(0, env.generations.len() as int)
        =~= env.generations);
}

/// A rollback followed by a switch to the index that was in use before puts
/// the environment back exactly as it was.
pub proof fn rollback_then_switch_restores(env: EnvironmentView, to: Option<u32>)
    requires
        env.wf(),
        env.rollback_target(to) is Ok,
    ensures
        env.current is Some,
        env.moved_to(env.rollback_target(to)->Ok_0).contains(env.current->0),
        env.moved_to(env.rollback_target(to)->Ok_0).moved_to(env.current->0) == env,
{
    if let Some(index) = to {
        lemma_position(env, index);
    }
}

/// Of two transactions begun on the same state, whichever is committed first
/// succeeds, the other is then refused as a concurrent modification, and the
/// chain has grown by exactly one generation.
pub proof fn concurrent_transactions_commit_once(
    env: EnvironmentView,
    first: MutationView,
    second: MutationView,
    first_lock: LockView,
    second_lock: LockView,
    first_actor: Seq<char>,
    second_actor: Seq<char>,
    first_at: u64,
    second_at: u64,
)
    requires
        env.wf(),
        env.next_index() <= u32::MAX,
    ensures
        env.committed(
            env.begun(first),
            ResolveOutcomeView::Resolved(first_lock),
            first_actor,
            first_at,
        ) matches Ok(after) && after.generations.len() == env.generations.len() + 1
            && after.committed(
            env.begun(second),
            ResolveOutcomeView::Resolved(second_lock),
            second_actor,
            second_at,
        ) == Err::<EnvironmentView, ErrorKind>(ErrorKind::ConcurrentModification),
{
    if let Some(index) = env.current {
        lemma_position(env, index);
    }
}

/// A pull right after a successful push changes nothing: neither the chain
/// nor the cursor.
pub proof fn pull_after_push_is_a_no_op(
    local: EnvironmentView,
    remote: EnvironmentView,
    push_force: bool,
    pull_force: bool,
)
    requires
        local.pushed(remote, push_force) is Ok,
    ensures
        local.pulled(local.pushed(remote, push_force)->Ok_0, pull_force) == Ok::<
            EnvironmentView,
            ErrorKind,
        >(local),
{
    relation_properties(local.generations, local.generations);
}

/// A push without `force` succeeds exactly when the remote chain holds no
/// generation that the local chain lacks; a push with `force` always
/// succeeds; and after any successful push the remote side equals the
/// local one.
pub proof fn push_succeeds_unless_remote_has_more(
    local: EnvironmentView,
    remote: EnvironmentView,
    force: bool,
)
    ensures
        local.pushed(remote, force) is Ok <==> force || remote.generations.is_prefix_of(
            local.generations,
        ),
        local.pushed(remote, force) matches Ok(next) ==> next == local,
        local.pushed(remote, force) matches Err(kind) ==> kind == ErrorKind::DivergedHistory,
{
    relation_properties(local.generations, remote.generations);
}

/// A pull without `force` fails exactly when each side holds a generation
/// that the other lacks; otherwise the local side ends up with the longer
/// of the two chains.
pub proof fn pull_fails_only_on_divergence(
    local: EnvironmentView,
    remote: EnvironmentView,
    force: bool,
)
    ensures
        local.pulled(remote, force) is Err <==> !force && !local.generations.is_prefix_of(
            remote.generations,
        ) && !remote.generations.is_prefix_of(local.generations),
        local.pulled(remote, force) matches Ok(next) ==> next == local || next == remote,
        !force && local.generations.is_prefix_of(remote.generations) && local.generations
            != remote.generations ==> local.pulled(remote, force) == Ok::<
            EnvironmentView,
            ErrorKind,
        >(remote),
{
    relation_properties(local.generations, remote.generations);
}

} // verus!

//! What each environment command does.
//!
//! A command is handled against the state it is scoped to: the local copy of
//! one environment and of the main branch, and their counterparts in the
//! remote registry. Handling never talks to the outside itself. Where a
//! command needs the resolver, the user's editor, a file or the renderer, it
//! stops and says so; the caller does that work and comes back with the
//! result.

use vstd::prelude::*;
use crate::commands::{
    CommandKind, EnvironmentCommands, EnvironmentRef, ListOutput, PullFloxmainOrEnv,
    PushFloxmainOrEnv,
};
use crate::environment::{Environment, EnvironmentView};
use crate::error::ErrorKind;
use crate::generation::{Generation, GenerationRef};
use crate::history::HistoryEntry;
use crate::main_branch::{pulled, pushed, recorded, MainBranch, RegistrationView};
use crate::manifest::{text_of, Manifest};
use crate::names;
use crate::text::parsed;
use crate::transaction::{
    Mutation, MutationView, ResolveOutcome, ResolveOutcomeView, Transaction, TransactionView,
};

verus! {

/// One side of the synchronisation, local or remote: its copy of the
/// environment a command is scoped to, and its copy of the main branch.
#[derive(Debug, PartialEq, Eq)]
pub struct Replica {
    pub environment: Environment,
    pub main: MainBranch,
}

/// A command that did not take effect. It names the command and the
/// environment, and left every state as it was.
#[derive(Debug, PartialEq, Eq)]
pub struct Failure {
    pub kind: ErrorKind,
    pub command: CommandKind,
    pub environment: Option<EnvironmentRef>,
    /// What the outside tool said, where one failed.
    pub diagnostic: Option<String>,
}

impl Failure {
    /// The exit status to leave with: that of the failure's class.
    pub fn exit_code(&self) -> (code: u8)
        ensures
            code == self.kind.category().exit_code(),
            code != crate::error::EXIT_SUCCESS,
    {
        self.kind.exit_code()
    }
}

/// What a finished command reports.
#[derive(Debug, PartialEq, Eq)]
pub enum Report {
    /// The environment is tracked from now on.
    Created,
    /// The environment and its history are gone.
    Destroyed,
    /// The manifest in use.
    Exported(Manifest),
    /// The generations of the chain, by ascending index.
    Generations(Vec<GenerationRef>),
    /// The lines of the history, oldest generation first.
    History(Vec<HistoryEntry>),
    /// The generation to list, and how to print it.
    Listing(Generation, Option<ListOutput>),
    /// The push went through.
    Pushed,
    /// The pull went through; store links are to be made for the generation
    /// named, if one is.
    Pulled(Option<GenerationRef>),
    /// The cursor is on this index now.
    Moved(u32),
    /// Only the generation in use is left.
    Wiped,
    /// The transaction became this generation.
    Committed(GenerationRef),
}

/// Where handling a command has got to.
#[derive(Debug, PartialEq, Eq)]
pub enum Step {
    /// The feature is forwarded: the whole command goes to the forwarding
    /// implementation.
    Forward,
    /// The command is finished.
    Done(Report),
    /// The environments the command names are to be activated.
    Activate,
    /// The arguments of the command go to the log substrate as they are.
    Git,
    /// The user edits the text of this manifest; handling goes on with
    /// [`EnvironmentCommands::resume`].
    Edit(Manifest),
    /// The text of the manifest is read from the source the command names;
    /// handling goes on with [`EnvironmentCommands::resume`].
    Read,
    /// The resolver runs on this transaction; handling goes on with
    /// [`EnvironmentCommands::conclude`].
    Resolve(Transaction),
}

/// Both copies of a side as values.
pub struct ReplicaView {
    pub environment: EnvironmentView,
    pub main: Seq<RegistrationView>,
}

impl View for Replica {
    type V = ReplicaView;

    open spec fn view(&self) -> ReplicaView {
        ReplicaView { environment: self.environment@, main: self.main@ }
    }
}

impl ReplicaView {
    /// This side with another history of the environment.
    pub open spec fn with_environment(self, environment: EnvironmentView) -> ReplicaView {
        ReplicaView { environment, main: self.main }
    }

    /// This side with another main branch.
    pub open spec fn with_main(self, main: Seq<RegistrationView>) -> ReplicaView {
        ReplicaView { environment: self.environment, main }
    }
}

impl EnvironmentCommands {
    /// Whether `failure` is this command's failure of the given kind.
    pub open spec fn fails_with(&self, failure: Failure, kind: ErrorKind) -> bool {
        &&& failure.kind == kind
        &&& failure.command == self.spec_kind()
        &&& text_of(failure.environment) == text_of(self.spec_environment())
        &&& failure.diagnostic is None
    }

    /// Whether `failure` is this command's failure of the given kind, with
    /// this diagnostic of the outside tool.
    pub open spec fn fails_because(
        &self,
        failure: Failure,
        kind: ErrorKind,
        diagnostic: Seq<char>,
    ) -> bool {
        &&& failure.kind == kind
        &&& failure.command == self.spec_kind()
        &&& text_of(failure.environment) == text_of(self.spec_environment())
        &&& text_of(failure.diagnostic) == Some(diagnostic)
    }

    /// Whether `result` is what beginning `mutation` on the environment
    /// gives: the transaction to resolve, or a validation failure.
    pub open spec fn begins(
        &self,
        env: EnvironmentView,
        mutation: MutationView,
        result: Result<Step, Failure>,
    ) -> bool {
        if mutation.accepted(env.current_manifest()) {
            result matches Ok(Step::Resolve(transaction)) && transaction@ == env.begun(mutation)
        } else {
            result matches Err(failure) && self.fails_with(failure, ErrorKind::ValidationError)
        }
    }

    /// Whether `result` and the states `local` and `remote` are what this
    /// command makes of the states `before`.
    ///
    /// A command that fails, and one that only asks, leaves both sides as
    /// they were.
    pub open spec fn handled(
        &self,
        before: (ReplicaView, ReplicaView),
        local: ReplicaView,
        remote: ReplicaView,
        result: Result<Step, Failure>,
    ) -> bool {
        let env = before.0.environment;
        let name = self.spec_environment().unwrap()@;
        let unchanged = local == before.0 && remote == before.1;
        match self {
            EnvironmentCommands::Activate { .. } => unchanged && result matches Ok(Step::Activate),
            EnvironmentCommands::Git { .. } => unchanged && result matches Ok(Step::Git),
            EnvironmentCommands::Import { .. } => unchanged && result matches Ok(Step::Read),
            EnvironmentCommands::Edit { .. } => unchanged && (result matches Ok(
                Step::Edit(manifest),
            ) && manifest@ == env.current_manifest()),
            EnvironmentCommands::Export { .. } => unchanged && (result matches Ok(
                Step::Done(Report::Exported(manifest)),
            ) && manifest@ == env.current_manifest()),
            EnvironmentCommands::Generations { .. } => unchanged && (result matches Ok(
                Step::Done(Report::Generations(references)),
            ) && references@.len() == env.generations.len() && forall|i: int|
                0 <= i < references@.len() ==> (#[trigger] references@[i])@
                    == env.generations[i].reference()),
            EnvironmentCommands::History { oneline, .. } => unchanged && (result matches Ok(
                Step::Done(Report::History(entries)),
            ) && entries@.len() == env.generations.len() && forall|i: int|
                0 <= i < entries@.len() ==> (#[trigger] entries@[i])@ == env.history_entry(
                    i,
                    *oneline,
                )),
            EnvironmentCommands::List { json, generation, .. } => {
                let wanted = match generation {
                    Some(index) => Some(*index),
                    None => env.current,
                };
                unchanged && match wanted {
                    Some(index) if env.contains(index) => result matches Ok(
                        Step::Done(Report::Listing(listed, format)),
                    ) && listed@ == env.generations[env.position(index)] && format == *json,
                    _ => result matches Err(failure) && self.fails_with(
                        failure,
                        ErrorKind::UnknownGeneration,
                    ),
                }
            },
            EnvironmentCommands::Install { packages, .. } => unchanged && self.begins(
                env,
                MutationView::Install(packages.deep_view()),
                result,
            ),
            EnvironmentCommands::Remove { packages, .. } => unchanged && self.begins(
                env,
                MutationView::Remove(packages.deep_view()),
                result,
            ),
            EnvironmentCommands::Upgrade { packages, .. } => unchanged && self.begins(
                env,
                MutationView::Upgrade(packages.deep_view()),
                result,
            ),
            EnvironmentCommands::Create { .. } => {
                &&& local == before.0.with_main(recorded(before.0.main, name, true))
                &&& remote == before.1
                &&& result matches Ok(Step::Done(Report::Created))
            },
            EnvironmentCommands::Destroy { force, origin, .. } => match env.destroyed(
                before.1.environment,
                *force,
                *origin,
            ) {
                Ok(left) => {
                    &&& local == (ReplicaView {
                        environment: left.0,
                        main: recorded(before.0.main, name, false),
                    })
                    &&& remote == before.1.with_environment(left.1)
                    &&& result matches Ok(Step::Done(Report::Destroyed))
                },
                Err(kind) => unchanged && (result matches Err(failure) && self.fails_with(
                    failure,
                    kind,
                )),
            },
            EnvironmentCommands::Push { target, force, .. } => {
                let sent = if self.on_main_branch() {
                    match pushed(before.0.main, before.1.main, *force) {
                        Ok(main) => Ok(before.1.with_main(main)),
                        Err(kind) => Err(kind),
                    }
                } else {
                    match env.pushed(before.1.environment, *force) {
                        Ok(environment) => Ok(before.1.with_environment(environment)),
                        Err(kind) => Err(kind),
                    }
                };
                match sent {
                    Ok(next) => local == before.0 && remote == next && result matches Ok(
                        Step::Done(Report::Pushed),
                    ),
                    Err(kind) => unchanged && (result matches Err(failure) && self.fails_with(
                        failure,
                        kind,
                    )),
                }
            },
            EnvironmentCommands::Pull { target, force, .. } => {
                let no_render = match target {
                    Some(PullFloxmainOrEnv::Env { no_render, .. }) => *no_render,
                    _ => true,
                };
                let fetched = if self.on_main_branch() {
                    match pulled(before.0.main, before.1.main, *force) {
                        Ok(main) => Ok(before.0.with_main(main)),
                        Err(kind) => Err(kind),
                    }
                } else {
                    match env.pulled(before.1.environment, *force) {
                        Ok(environment) => Ok(before.0.with_environment(environment)),
                        Err(kind) => Err(kind),
                    }
                };
                match fetched {
                    Ok(next) => local == next && remote == before.1 && (result matches Ok(
                        Step::Done(Report::Pulled(render)),
                    ) && match render {
                        Some(reference) => !self.on_main_branch() && Some(reference@)
                            == next.environment.to_render(no_render),
                        None => self.on_main_branch() || next.environment.to_render(no_render)
                            is None,
                    }),
                    Err(kind) => unchanged && (result matches Err(failure) && self.fails_with(
                        failure,
                        kind,
                    )),
                }
            },
            EnvironmentCommands::Rollback { to, .. } => match env.rollback_target(*to) {
                Ok(index) => {
                    &&& local == before.0.with_environment(env.moved_to(index))
                    &&& remote == before.1
                    &&& result matches Ok(Step::Done(Report::Moved(moved))) && moved == index
                },
                Err(kind) => unchanged && (result matches Err(failure) && self.fails_with(
                    failure,
                    kind,
                )),
            },
            EnvironmentCommands::SwitchGeneration { generation, .. } => if env.contains(
                *generation,
            ) {
                &&& local == before.0.with_environment(env.moved_to(*generation))
                &&& remote == before.1
                &&& result matches Ok(Step::Done(Report::Moved(moved))) && moved == *generation
            } else {
                unchanged && (result matches Err(failure) && self.fails_with(
                    failure,
                    ErrorKind::UnknownGeneration,
                ))
            },
            EnvironmentCommands::WipeHistory { .. } => if env.generations.len() > 1 {
                &&& local == before.0.with_environment(env.wiped())
                &&& remote == before.1
                &&& result matches Ok(Step::Done(Report::Wiped))
            } else {
                unchanged && (result matches Err(failure) && self.fails_with(
                    failure,
                    ErrorKind::NothingToWipe,
                ))
            },
        }
    }

    /// Whether `result` and the state `local` are what ending a transaction
    /// of this command makes of the state `before`.
    ///
    /// A committed transaction makes the environment a tracked one.
    pub open spec fn concluded(
        &self,
        before: ReplicaView,
        transaction: TransactionView,
        outcome: ResolveOutcomeView,
        actor: Seq<char>,
        created_at: u64,
        local: ReplicaView,
        result: Result<Step, Failure>,
    ) -> bool {
        match before.environment.committed(transaction, outcome, actor, created_at) {
            Ok(next) => {
                &&& local.environment == next
                &&& local.main == match self.spec_environment() {
                    Some(name) => recorded(before.main, name@, true),
                    None => before.main,
                }
                &&& result matches Ok(Step::Done(Report::Committed(reference))) && reference@
                    == next.generations.last().reference()
            },
            Err(kind) => local == before && (result matches Err(failure) && match outcome {
                ResolveOutcomeView::Failed(diagnostic) => self.fails_because(
                    failure,
                    kind,
                    diagnostic,
                ),
                ResolveOutcomeView::Resolved(_) => self.fails_with(failure, kind),
            }),
        }
    }

    /// A command that needs no exclusive access changes nothing, and neither
    /// does any command that fails.
    pub proof fn reads_and_failures_change_nothing(
        &self,
        before: (ReplicaView, ReplicaView),
        local: ReplicaView,
        remote: ReplicaView,
        result: Result<Step, Failure>,
    )
        requires
            self.handled(before, local, remote, result),
            !self.spec_kind().is_mutating() || result is Err,
        ensures
            local == before.0,
            remote == before.1,
    {
    }

    /// This command's failure of the given kind.
    pub fn failure(&self, kind: ErrorKind) -> (failure: Failure)
        ensures
            self.fails_with(failure, kind),
    {
        let environment = match self.environment() {
            Some(name) => Some(name.clone()),
            None => None,
        };
        Failure { kind, command: self.kind(), environment, diagnostic: None }
    }

    /// The step that follows beginning `mutation`.
    fn begin(&self, environment: &Environment, mutation: Mutation) -> (result: Result<
        Step,
        Failure,
    >)
        ensures
            self.begins(environment@, mutation@, result),
    {
        match environment.begin(mutation) {
            Ok(transaction) => Ok(Step::Resolve(transaction)),
            Err(kind) => Err(self.failure(kind)),
        }
    }

    /// Whether `result` is what going on with this command gives, once the
    /// caller has the text that the user edited or that the source held.
    ///
    /// The manifest that the text spells replaces the one in use. A text that
    /// spells none is invalid, and so is going on with any command but `edit`
    /// and `import`.
    pub open spec fn resumed(
        &self,
        env: EnvironmentView,
        text: Seq<char>,
        result: Result<Step, Failure>,
    ) -> bool {
        match (self.spec_kind(), parsed(text)) {
            (CommandKind::Edit, Some(manifest)) => self.begins(
                env,
                MutationView::Edit(manifest),
                result,
            ),
            (CommandKind::Import, Some(manifest)) => self.begins(
                env,
                MutationView::Import(manifest),
                result,
            ),
            _ => result matches Err(failure) && self.fails_with(
                failure,
                ErrorKind::ValidationError,
            ),
        }
    }

    /// Goes on with `edit` or `import` on the text of the new manifest.
    pub fn resume(&self, local: &Replica, text: &str) -> (result: Result<Step, Failure>)
        ensures
            self.resumed(local@.environment, text@, result),
    {
        match self {
            EnvironmentCommands::Edit { .. } => match Manifest::parse(text) {
                Ok(manifest) => self.begin(&local.environment, Mutation::Edit(manifest)),
                Err(kind) => Err(self.failure(kind)),
            },
            EnvironmentCommands::Import { .. } => match Manifest::parse(text) {
                Ok(manifest) => self.begin(&local.environment, Mutation::Import(manifest)),
                Err(kind) => Err(self.failure(kind)),
            },
            _ => Err(self.failure(ErrorKind::ValidationError)),
        }
    }

    /// Ends a transaction of this command with what the resolver returned.
    /// Only where this creates a generation does its index have to fit.
    pub fn conclude(
        &self,
        local: &mut Replica,
        transaction: Transaction,
        outcome: ResolveOutcome,
        actor: String,
        created_at: u64,
    ) -> (result: Result<Step, Failure>)
        requires
            outcome is Resolved && transaction.base == old(local)@.environment.current
                ==> old(local)@.environment.next_index() <= u32::MAX,
        ensures
            final(local)@.environment.wf(),
            self.concluded(
                old(local)@,
                transaction@,
                outcome@,
                actor@,
                created_at,
                final(local)@,
                result,
            ),
    {
        let diagnostic = match &outcome {
            ResolveOutcome::Failed(diagnostic) => Some(diagnostic.clone()),
            ResolveOutcome::Resolved(_) => None,
        };
        match local.environment.commit(transaction, outcome, actor, created_at) {
            Ok(reference) => {
                match self.environment() {
                    Some(name) => local.main.register(name.clone()),
                    None => {},
                }
                Ok(Step::Done(Report::Committed(reference)))
            },
            Err(kind) => {
                let mut failure = self.failure(kind);
                failure.diagnostic = diagnostic;
                Err(failure)
            },
        }
    }

    /// Handles the command on the states it is scoped to.
    ///
    /// With `forwarded` set the command is not handled here at all. Otherwise
    /// the command does what it can do on its own and says in its result what
    /// is left for the caller to do.
    pub fn handle(&self, forwarded: bool, local: &mut Replica, remote: &mut Replica) -> (result:
        Result<Step, Failure>)
        requires
            !forwarded ==> self.is_scoped(),
        ensures
            final(local)@.environment.wf(),
            final(remote)@.environment.wf(),
            forwarded ==> final(local)@ == old(local)@ && final(remote)@ == old(remote)@
                && result matches Ok(Step::Forward),
            !forwarded ==> self.handled(
                (old(local)@, old(remote)@),
                final(local)@,
                final(remote)@,
                result,
            ),
    {
        local.environment.recall_invariant();
        remote.environment.recall_invariant();
        if forwarded {
            return Ok(Step::Forward);
        }
        match self {
            EnvironmentCommands::Activate { .. } => Ok(Step::Activate),
            EnvironmentCommands::Git { .. } => Ok(Step::Git),
            EnvironmentCommands::Import { .. } => Ok(Step::Read),
            EnvironmentCommands::Edit { .. } => Ok(Step::Edit(local.environment.current_manifest())),
            EnvironmentCommands::Export { .. } => Ok(
                Step::Done(Report::Exported(local.environment.current_manifest())),
            ),
            EnvironmentCommands::Generations { .. } => Ok(
                Step::Done(Report::Generations(local.environment.list_generations())),
            ),
            EnvironmentCommands::History { oneline, .. } => Ok(
                Step::Done(Report::History(local.environment.history(*oneline))),
            ),
            EnvironmentCommands::List { json, generation, .. } => {
                let wanted = match generation {
                    Some(index) => Some(*index),
                    None => local.environment.current(),
                };
                let found = match wanted {
                    Some(index) => local.environment.generation(index),
                    None => None,
                };
                match found {
                    Some(listed) => Ok(Step::Done(Report::Listing(listed.clone(), *json))),
                    None => Err(self.failure(ErrorKind::UnknownGeneration)),
                }
            },
            EnvironmentCommands::Install { packages, .. } => self.begin(
                &local.environment,
                Mutation::Install(names::copy_list(packages)),
            ),
            EnvironmentCommands::Remove { packages, .. } => self.begin(
                &local.environment,
                Mutation::Remove(names::copy_list(packages)),
            ),
            EnvironmentCommands::Upgrade { packages, .. } => self.begin(
                &local.environment,
                Mutation::Upgrade(names::copy_list(packages)),
            ),
            EnvironmentCommands::Create { environment, .. } => {
                match environment {
                    Some(name) => local.main.register(name.clone()),
                    None => {},
                }
                Ok(Step::Done(Report::Created))
            },
            EnvironmentCommands::Destroy { force, origin, environment, .. } => {
                match local.environment.destroy(&mut remote.environment, *force, *origin) {
                    Ok(_) => {
                        match environment {
                            Some(name) => local.main.unregister(name.clone()),
                            None => {},
                        }
                        Ok(Step::Done(Report::Destroyed))
                    },
                    Err(kind) => Err(self.failure(kind)),
                }
            },
            EnvironmentCommands::Push { target, force, .. } => {
                let sent = match target {
                    Some(PushFloxmainOrEnv::Main) => local.main.push(&mut remote.main, *force),
                    _ => local.environment.push(&mut remote.environment, *force),
                };
                match sent {
                    Ok(_) => Ok(Step::Done(Report::Pushed)),
                    Err(kind) => Err(self.failure(kind)),
                }
            },
            EnvironmentCommands::Pull { target, force, .. } => {
                let fetched = match target {
                    Some(PullFloxmainOrEnv::Main) => match local.main.pull(&remote.main, *force) {
                        Ok(_) => Ok(None),
                        Err(kind) => Err(kind),
                    },
                    Some(PullFloxmainOrEnv::Env { no_render, .. }) => local.environment.pull(
                        &remote.environment,
                        *force,
                        *no_render,
                    ),
                    None => local.environment.pull(&remote.environment, *force, true),
                };
                match fetched {
                    Ok(render) => Ok(Step::Done(Report::Pulled(render))),
                    Err(kind) => Err(self.failure(kind)),
                }
            },
            EnvironmentCommands::Rollback { to, .. } => match local.environment.rollback(*to) {
                Ok(index) => Ok(Step::Done(Report::Moved(index))),
                Err(kind) => Err(self.failure(kind)),
            },
            EnvironmentCommands::SwitchGeneration { generation, .. } => {
                match local.environment.switch_generation(*generation) {
                    Ok(_) => Ok(Step::Done(Report::Moved(*generation))),
                    Err(kind) => Err(self.failure(kind)),
                }
            },
            EnvironmentCommands::WipeHistory { .. } => match local.environment.wipe_history() {
                Ok(_) => Ok(Step::Done(Report::Wiped)),
                Err(kind) => Err(self.failure(kind)),
            },
        }
    }
}

} // verus!

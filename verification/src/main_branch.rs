//! The main branch: the user-wide log of which environments are tracked.
//!
//! It is synchronised on its own, whatever happens to the history of any one
//! environment, and it records no package contents.

use vstd::prelude::*;
use crate::error::ErrorKind;
use crate::names;
use crate::record::{relate, relation, views, Record, Relation};

verus! {

/// One entry of the main branch: from here on the environment is tracked
/// (`active`), or no longer tracked.
#[derive(Debug, PartialEq, Eq)]
pub struct Registration {
    pub environment: String,
    pub active: bool,
}

pub struct RegistrationView {
    pub environment: Seq<char>,
    pub active: bool,
}

impl View for Registration {
    type V = RegistrationView;

    open spec fn view(&self) -> RegistrationView {
        RegistrationView { environment: self.environment@, active: self.active }
    }
}

impl Record for Registration {
    fn same_as(&self, other: &Registration) -> (same: bool) {
        self.environment == other.environment && self.active == other.active
    }
}

impl Clone for Registration {
    fn clone(&self) -> (copy: Registration)
        ensures
            copy@ == self@,
    {
        Registration { environment: self.environment.clone(), active: self.active }
    }
}

/// Whether the log leaves `environment` tracked: whether its latest entry
/// for that environment says so.
pub open spec fn is_tracked(log: Seq<RegistrationView>, environment: Seq<char>) -> bool
    decreases log.len(),
{
    if log.len() == 0 {
        false
    } else if log.last().environment == environment {
        log.last().active
    } else {
        is_tracked(log.drop_last(), environment)
    }
}

/// The log after `environment` was set to tracked or not tracked: an entry
/// is appended only where it changes something.
pub open spec fn recorded(log: Seq<RegistrationView>, environment: Seq<char>, active: bool) -> Seq<
    RegistrationView,
> {
    if is_tracked(log, environment) == active {
        log
    } else {
        log.push(RegistrationView { environment, active })
    }
}

/// The environments that the log names, each once, in the order of their
/// first entry.
pub open spec fn named_environments(log: Seq<RegistrationView>) -> Seq<Seq<char>> {
    names::union(Seq::empty(), log.map_values(|entry: RegistrationView| entry.environment))
}

/// The test "the log leaves this environment tracked".
pub open spec fn tracked_in(log: Seq<RegistrationView>) -> spec_fn(Seq<char>) -> bool {
    |environment: Seq<char>| is_tracked(log, environment)
}

/// The environments that the log leaves tracked, each once, in the order of
/// their first entry.
pub open spec fn tracked_environments(log: Seq<RegistrationView>) -> Seq<Seq<char>> {
    named_environments(log).filter(tracked_in(log))
}

/// What the receiving side of a push holds afterwards, given the sender's
/// log, or why the push fails.
pub open spec fn pushed(local: Seq<RegistrationView>, remote: Seq<RegistrationView>, force: bool)
    -> Result<Seq<RegistrationView>, ErrorKind> {
    if force || !relation(local, remote).remote_has_more() {
        Ok(local)
    } else {
        Err(ErrorKind::DivergedHistory)
    }
}

/// What the local side holds after a pull, or why the pull fails.
pub open spec fn pulled(local: Seq<RegistrationView>, remote: Seq<RegistrationView>, force: bool)
    -> Result<Seq<RegistrationView>, ErrorKind> {
    if force || relation(local, remote) == Relation::RemoteAhead {
        Ok(remote)
    } else if relation(local, remote) == Relation::Diverged {
        Err(ErrorKind::DivergedHistory)
    } else {
        Ok(local)
    }
}

/// A tracked environment has an entry in the log.
pub proof fn tracked_is_recorded(log: Seq<RegistrationView>, environment: Seq<char>)
    requires
        is_tracked(log, environment),
    ensures
        exists|i: int| 0 <= i < log.len() && (#[trigger] log[i]).environment == environment,
    decreases log.len(),
{
    if log.last().environment == environment {
        assert(log[log.len() - 1].environment == environment);
    } else {
        tracked_is_recorded(log.drop_last(), environment);
        let i = choose|i: int|
            0 <= i < log.drop_last().len() && (#[trigger] log.drop_last()[i]).environment
                == environment;
        assert(log[i].environment == environment);
    }
}

/// The list of tracked environments names every tracked environment, names
/// no other, and names none twice.
pub proof fn tracked_environments_are_exact(log: Seq<RegistrationView>)
    ensures
        tracked_environments(log).no_duplicates(),
        forall|environment: Seq<char>| #[trigger]
            tracked_environments(log).contains(environment) <==> is_tracked(log, environment),
{
    let all = log.map_values(|entry: RegistrationView| entry.environment);
    names::union_properties(Seq::<Seq<char>>::empty(), all);
    names::filter_properties(named_environments(log), tracked_in(log));
    assert forall|environment: Seq<char>| is_tracked(log, environment) implies #[trigger]
        tracked_environments(log).contains(environment) by {
        tracked_is_recorded(log, environment);
        let i = choose|i: int| 0 <= i < log.len() && (#[trigger] log[i]).environment == environment;
        assert(all[i] == environment);
        assert(all.contains(environment));
        assert(named_environments(log).contains(environment));
    }
}

/// After an environment was set to tracked or not, the log says so of it and
/// says of every other environment what it said before.
pub proof fn recorded_properties(
    log: Seq<RegistrationView>,
    environment: Seq<char>,
    active: bool,
    other: Seq<char>,
)
    ensures
        is_tracked(recorded(log, environment, active), environment) == active,
        other != environment ==> is_tracked(recorded(log, environment, active), other)
            == is_tracked(log, other),
        log.is_prefix_of(recorded(log, environment, active)),
{
    let after = log.push(RegistrationView { environment, active });
    assert(after.drop_last() =~= log);
}

/// The main branch of one side, local or remote.
#[derive(Debug, PartialEq, Eq)]
pub struct MainBranch {
    entries: Vec<Registration>,
}

impl View for MainBranch {
    type V = Seq<RegistrationView>;

    closed spec fn view(&self) -> Seq<RegistrationView> {
        views(self.entries@)
    }
}

impl Clone for MainBranch {
    fn clone(&self) -> (copy: MainBranch)
        ensures
            copy@ == self@,
    {
        let mut entries: Vec<Registration> = Vec::new();
        let mut i: usize = 0;
        while i < self.entries.len()
            invariant
                i <= self.entries.len(),
                entries@.len() == i,
                forall|j: int| 0 <= j < i ==> (#[trigger] entries@[j])@ == self.entries@[j]@,
            decreases self.entries.len() - i,
        {
            entries.push(self.entries[i].clone());
            i = i + 1;
        }
        assert(views(entries@) =~= views(self.entries@));
        MainBranch { entries }
    }
}

impl MainBranch {
    /// A main branch without entries.
    pub fn new() -> (branch: MainBranch)
        ensures
            branch@ == Seq::<RegistrationView>::empty(),
    {
        let branch = MainBranch { entries: Vec::new() };
        assert(branch@ =~= Seq::empty());
        branch
    }

    /// The main branch that holds these entries, oldest first.
    pub fn restore(entries: Vec<Registration>) -> (branch: MainBranch)
        ensures
            branch@ == views(entries@),
    {
        MainBranch { entries }
    }

    /// The log, oldest entry first.
    pub fn entries(&self) -> (entries: &Vec<Registration>)
        ensures
            views(entries@) == self@,
    {
        &self.entries
    }

    /// Whether the environment is tracked.
    pub fn is_tracked(&self, environment: &String) -> (active: bool)
        ensures
            active == is_tracked(self@, environment@),
    {
        let mut i: usize = self.entries.len();
        assert(self@.take(i as int) =~= self@);
        while i > 0
            invariant
                i <= self.entries.len(),
                is_tracked(self@, environment@) == is_tracked(self@.take(i as int), environment@),
            decreases i,
        {
            assert(self@.take(i as int).drop_last() =~= self@.take(i - 1));
            assert(self@.take(i as int).last() == self.entries@[i - 1]@);
            if self.entries[i - 1].environment == *environment {
                return self.entries[i - 1].active;
            }
            i = i - 1;
        }
        false
    }

    /// Records that the environment is tracked from now on.
    pub fn register(&mut self, environment: String)
        ensures
            final(self)@ == recorded(old(self)@, environment@, true),
    {
        self.record(environment, true)
    }

    /// Records that the environment is no longer tracked.
    pub fn unregister(&mut self, environment: String)
        ensures
            final(self)@ == recorded(old(self)@, environment@, false),
    {
        self.record(environment, false)
    }

    fn record(&mut self, environment: String, active: bool)
        ensures
            final(self)@ == recorded(old(self)@, environment@, active),
    {
        if self.is_tracked(&environment) != active {
            let ghost before = self@;
            self.entries.push(Registration { environment, active });
            assert(self@ =~= before.push(RegistrationView { environment: environment@, active }));
        }
    }

    /// The tracked environments, each once, in the order in which the log
    /// first names them.
    pub fn tracked_environments(&self) -> (found: Vec<String>)
        ensures
            found.deep_view() == tracked_environments(self@),
    {
        let ghost all = self@.map_values(|entry: RegistrationView| entry.environment);
        let ghost keep = tracked_in(self@);
        let ghost nothing = Seq::<Seq<char>>::empty();
        let mut found: Vec<String> = Vec::new();
        let mut i: usize = 0;
        proof {
            reveal(Seq::filter);
            assert(all.take(0) =~= Seq::empty());
            assert(found.deep_view() =~= names::union(nothing, all.take(0)).filter(keep));
        }
        while i < self.entries.len()
            invariant
                i <= self.entries.len(),
                all == self@.map_values(|entry: RegistrationView| entry.environment),
                keep == tracked_in(self@),
                nothing == Seq::<Seq<char>>::empty(),
                found.deep_view() == names::union(nothing, all.take(i as int)).filter(keep),
            decreases self.entries.len() - i,
        {
            let name = &self.entries[i].environment;
            let ghost named = names::union(nothing, all.take(i as int));
            let ghost before = found.deep_view();
            proof {
                assert(self@[i as int].environment == name@);
                assert(all.take(i + 1).drop_last() =~= all.take(i as int));
                assert(all.take(i + 1).last() == name@);
                names::filter_properties(named, keep);
                named.lemma_filter_push(name@, keep);
            }
            if self.is_tracked(name) && !names::contains(&found, name) {
                found.push(name.clone());
                assert(found.deep_view() =~= before.push(name@));
            }
            i = i + 1;
        }
        assert(all.take(i as int) =~= all);
        found
    }

    /// Compares this log with its remote counterpart.
    pub fn relate_to(&self, remote: &MainBranch) -> (found: Relation)
        ensures
            found == relation(self@, remote@),
    {
        relate(&self.entries, &remote.entries)
    }

    /// Sends this log to the remote registry. Without `force` the push fails
    /// where the remote log holds an entry that this one lacks.
    pub fn push(&self, remote: &mut MainBranch, force: bool) -> (result: Result<(), ErrorKind>)
        ensures
            match pushed(self@, old(remote)@, force) {
                Ok(next) => result is Ok && final(remote)@ == next,
                Err(kind) => result == Err::<(), ErrorKind>(kind) && final(remote)@ == old(remote)@,
            },
    {
        let found = self.relate_to(remote);
        if force || !found.remote_has_more() {
            *remote = self.clone();
            Ok(())
        } else {
            Err(ErrorKind::DivergedHistory)
        }
    }

    /// Brings this log up to the remote one. Without `force` the pull fails
    /// where both logs have gone on since they last agreed.
    pub fn pull(&mut self, remote: &MainBranch, force: bool) -> (result: Result<(), ErrorKind>)
        ensures
            match pulled(old(self)@, remote@, force) {
                Ok(next) => result is Ok && final(self)@ == next,
                Err(kind) => result == Err::<(), ErrorKind>(kind) && final(self)@ == old(self)@,
            },
    {
        let found = self.relate_to(remote);
        if force || found == Relation::RemoteAhead {
            *self = remote.clone();
            Ok(())
        } else if found == Relation::Diverged {
            Err(ErrorKind::DivergedHistory)
        } else {
            Ok(())
        }
    }
}

} // verus!

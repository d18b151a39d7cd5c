//! The sync engine for one environment: pushing its history to the remote
//! registry and pulling it from there.
//!
//! Both sides are compared by the content of their chains. A push or a pull
//! moves the whole history or nothing.

use vstd::prelude::*;
use crate::environment::{Environment, EnvironmentView};
use crate::error::ErrorKind;
use crate::generation::GenerationRef;
use crate::record::{relate, relation, Relation};

verus! {

impl EnvironmentView {
    /// How this history stands to its counterpart `remote`.
    pub open spec fn relation_to(self, remote: EnvironmentView) -> Relation {
        relation(self.generations, remote.generations)
    }

    /// What the remote side holds after this history was pushed to it.
    ///
    /// Without `force` a push needs the remote chain to hold nothing that
    /// this one lacks.
    pub open spec fn pushed(self, remote: EnvironmentView, force: bool) -> Result<
        EnvironmentView,
        ErrorKind,
    > {
        if force || !self.relation_to(remote).remote_has_more() {
            Ok(self)
        } else {
            Err(ErrorKind::DivergedHistory)
        }
    }

    /// What this side holds after `remote` was pulled into it.
    ///
    /// With `force` it is the remote history. Without, the remote history
    /// replaces this one where it continues it, nothing happens where it has
    /// nothing new, and the pull fails where both sides have gone on.
    pub open spec fn pulled(self, remote: EnvironmentView, force: bool) -> Result<
        EnvironmentView,
        ErrorKind,
    > {
        if force || self.relation_to(remote) == Relation::RemoteAhead {
            Ok(remote)
        } else if self.relation_to(remote) == Relation::Diverged {
            Err(ErrorKind::DivergedHistory)
        } else {
            Ok(self)
        }
    }

    /// The generation whose store links are to be made after a pull.
    pub open spec fn to_render(self, no_render: bool) -> Option<crate::generation::GenerationRefView> {
        if no_render || self.current is None {
            None
        } else {
            Some(self.current_generation().reference())
        }
    }

    /// What is left after the environment was destroyed, here and, with
    /// `origin`, in the remote registry.
    ///
    /// Without `force` an environment is not destroyed while it holds a
    /// generation that the remote registry lacks.
    pub open spec fn destroyed(self, remote: EnvironmentView, force: bool, origin: bool) -> Result<
        (EnvironmentView, EnvironmentView),
        ErrorKind,
    > {
        if !force && self.relation_to(remote).local_has_more() {
            Err(ErrorKind::DivergedHistory)
        } else {
            Ok(
                (
                    EnvironmentView::empty(),
                    if origin {
                        EnvironmentView::empty()
                    } else {
                        remote
                    },
                ),
            )
        }
    }
}

impl Environment {
    /// Compares this history with its remote counterpart.
    pub fn relate_to(&self, remote: &Environment) -> (found: Relation)
        ensures
            found == self@.relation_to(remote@),
            self@.wf(),
            remote@.wf(),
    {
        relate(self.generations(), remote.generations())
    }

    /// Sends this history to the remote registry.
    pub fn push(&self, remote: &mut Environment, force: bool) -> (result: Result<(), ErrorKind>)
        ensures
            final(remote)@.wf(),
            match self@.pushed(old(remote)@, force) {
                Ok(next) => result is Ok && final(remote)@ == next,
                Err(kind) => result == Err::<(), ErrorKind>(kind) && final(remote)@ == old(remote)@,
            },
    {
        let found = self.relate_to(remote);
        if force || !found.remote_has_more() {
            *remote = self.clone();
            Ok(())
        } else {
            Err(ErrorKind::DivergedHistory)
        }
    }

    /// Brings this history up to the remote one. Unless `no_render` is set,
    /// the result names the generation in use afterwards, for which the
    /// caller makes the store links.
    pub fn pull(&mut self, remote: &Environment, force: bool, no_render: bool) -> (result: Result<
        Option<GenerationRef>,
        ErrorKind,
    >)
        ensures
            final(self)@.wf(),
            match old(self)@.pulled(remote@, force) {
                Ok(next) => final(self)@ == next && (result matches Ok(render) && match render {
                    Some(reference) => Some(reference@) == next.to_render(no_render),
                    None => next.to_render(no_render) is None,
                }),
                Err(kind) => final(self)@ == old(self)@ && result == Err::<
                    Option<GenerationRef>,
                    ErrorKind,
                >(kind),
            },
    {
        let found = self.relate_to(remote);
        if force || found == Relation::RemoteAhead {
            *self = remote.clone();
        } else if found == Relation::Diverged {
            return Err(ErrorKind::DivergedHistory);
        }
        if no_render {
            self.recall_invariant();
            return Ok(None);
        }
        match self.current_generation() {
            Some(generation) => Ok(Some(generation.reference())),
            None => Ok(None),
        }
    }

    /// Removes the environment with its whole history; with `origin`, its
    /// record in the remote registry too.
    pub fn destroy(&mut self, remote: &mut Environment, force: bool, origin: bool) -> (result:
        Result<(), ErrorKind>)
        ensures
            final(self)@.wf(),
            final(remote)@.wf(),
            match old(self)@.destroyed(old(remote)@, force, origin) {
                Ok(left) => result is Ok && final(self)@ == left.0 && final(remote)@ == left.1,
                Err(kind) => result == Err::<(), ErrorKind>(kind) && final(self)@ == old(self)@
                    && final(remote)@ == old(remote)@,
            },
    {
        let found = self.relate_to(remote);
        if !force && found.local_has_more() {
            return Err(ErrorKind::DivergedHistory);
        }
        *self = Environment::new();
        if origin {
            *remote = Environment::new();
        }
        Ok(())
    }
}

} // verus!

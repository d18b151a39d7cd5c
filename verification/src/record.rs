//! Logs of records and how two copies of one log stand to each other.

use vstd::prelude::*;

verus! {

/// A record of a log: a value that can be compared with another by content.
pub trait Record: View + Sized {
    /// Whether the two records have the same content.
    fn same_as(&self, other: &Self) -> (same: bool)
        ensures
            same == (self@ == other@),
    ;
}

/// The records of a log as values.
pub open spec fn views<T: View>(records: Seq<T>) -> Seq<T::V> {
    Seq::new(records.len(), |i: int| records[i]@)
}

/// How a local log stands to its remote counterpart.
#[derive(Clone, Copy, Debug, PartialEq, Eq, Structural)]
pub enum Relation {
    /// Both hold the same records.
    Identical,
    /// The local log continues the remote one.
    LocalAhead,
    /// The remote log continues the local one.
    RemoteAhead,
    /// Each holds a record that the other does not know.
    Diverged,
}

pub open spec fn relation<V>(local: Seq<V>, remote: Seq<V>) -> Relation {
    if local == remote {
        Relation::Identical
    } else if remote.is_prefix_of(local) {
        Relation::LocalAhead
    } else if local.is_prefix_of(remote) {
        Relation::RemoteAhead
    } else {
        Relation::Diverged
    }
}

impl Relation {
    /// Whether the local log holds a record that the remote one lacks.
    pub open spec fn spec_local_has_more(self) -> bool {
        self == Relation::LocalAhead || self == Relation::Diverged
    }

    #[verifier::when_used_as_spec(spec_local_has_more)]
    pub fn local_has_more(self) -> (more: bool)
        ensures
            more == self.spec_local_has_more(),
    {
        match self {
            Relation::LocalAhead => true,
            Relation::Diverged => true,
            _ => false,
        }
    }

    /// Whether the remote log holds a record that the local one lacks.
    pub open spec fn spec_remote_has_more(self) -> bool {
        self == Relation::RemoteAhead || self == Relation::Diverged
    }

    #[verifier::when_used_as_spec(spec_remote_has_more)]
    pub fn remote_has_more(self) -> (more: bool)
        ensures
            more == self.spec_remote_has_more(),
    {
        match self {
            Relation::RemoteAhead => true,
            Relation::Diverged => true,
            _ => false,
        }
    }
}

/// The relation says which side holds records unknown to the other: the
/// local log has more exactly when the remote log is not its beginning, and
/// the other way round.
pub proof fn relation_properties<V>(local: Seq<V>, remote: Seq<V>)
    ensures
        relation(local, remote).local_has_more() <==> !local.is_prefix_of(remote),
        relation(local, remote).remote_has_more() <==> !remote.is_prefix_of(local),
        relation(local, remote) == Relation::Identical <==> local == remote,
        relation(remote, local).local_has_more() == relation(local, remote).remote_has_more(),
{
    if local.is_prefix_of(remote) && remote.is_prefix_of(local) {
        assert(local =~= remote);
    }
    if local == remote {
        assert(local.is_prefix_of(remote));
    }
}

/// The length of the longest beginning that the two logs share.
pub fn common_prefix<T: Record>(local: &Vec<T>, remote: &Vec<T>) -> (shared: usize)
    ensures
        shared <= local@.len(),
        shared <= remote@.len(),
        forall|i: int| 0 <= i < shared ==> views(local@)[i] == views(remote@)[i],
        shared < local@.len() && shared < remote@.len() ==> views(local@)[shared as int] != views(
            remote@,
        )[shared as int],
{
    let mut shared: usize = 0;
    while shared < local.len() && shared < remote.len()
        invariant
            shared <= local@.len(),
            shared <= remote@.len(),
            forall|i: int| 0 <= i < shared ==> views(local@)[i] == views(remote@)[i],
        decreases local@.len() - shared,
    {
        if !local[shared].same_as(&remote[shared]) {
            return shared;
        }
        shared = shared + 1;
    }
    shared
}

/// Compares a local log with its remote counterpart.
pub fn relate<T: Record>(local: &Vec<T>, remote: &Vec<T>) -> (found: Relation)
    ensures
        found == relation(views(local@), views(remote@)),
{
    let shared = common_prefix(local, remote);
    let ghost l = views(local@);
    let ghost r = views(remote@);
    proof {
        if shared == l.len() {
            assert(l =~= r.subrange(0, l.len() as int));
        }
        if shared == r.len() {
            assert(r =~= l.subrange(0, r.len() as int));
        }
        if shared < l.len() && shared < r.len() {
            if l.is_prefix_of(r) {
                assert(l.subrange(0, l.len() as int) =~= l);
                assert(r.subrange(0, l.len() as int)[shared as int] == l[shared as int]);
            }
            if r.is_prefix_of(l) {
                assert(l.subrange(0, r.len() as int)[shared as int] == r[shared as int]);
            }
        }
    }
    if shared == local.len() && shared == remote.len() {
        assert(l =~= r);
        Relation::Identical
    } else if shared == remote.len() {
        Relation::LocalAhead
    } else if shared == local.len() {
        Relation::RemoteAhead
    } else {
        Relation::Diverged
    }
}

} // verus!

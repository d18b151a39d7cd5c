//! Waiting for the exclusive access that a writer needs.
//!
//! A writer that finds the environment held by another does not wait
//! forever: it pauses, tries again, and gives up once it has waited as long
//! as it is allowed to.

use vstd::prelude::*;
use crate::error::ErrorKind;

verus! {

/// How long a writer waits for access, in milliseconds.
#[derive(Clone, Copy, Debug, PartialEq, Eq, Structural)]
pub struct Patience {
    /// The longest wait in all.
    pub limit: u64,
    /// The pause between two tries.
    pub pause: u64,
}

/// What a writer does next.
#[derive(Clone, Copy, Debug, PartialEq, Eq, Structural)]
pub enum Attempt {
    /// The access is free: go on.
    Proceed,
    /// Pause for so many milliseconds, then try again.
    Retry(u64),
    /// The wait is over: fail.
    GiveUp(ErrorKind),
}

impl Patience {
    /// What a writer does that has waited for `waited` milliseconds and now
    /// finds the access free or held.
    ///
    /// A pause lasts as long as this patience says, but at least one
    /// millisecond and never beyond the limit.
    pub open spec fn spec_next_attempt(self, held: bool, waited: u64) -> Attempt {
        if !held {
            Attempt::Proceed
        } else if waited >= self.limit {
            Attempt::GiveUp(ErrorKind::ConcurrentModification)
        } else if self.pause == 0 {
            Attempt::Retry(1)
        } else if self.pause <= self.limit - waited {
            Attempt::Retry(self.pause)
        } else {
            Attempt::Retry((self.limit - waited) as u64)
        }
    }

    #[verifier::when_used_as_spec(spec_next_attempt)]
    pub fn next_attempt(self, held: bool, waited: u64) -> (attempt: Attempt)
        ensures
            attempt == self.spec_next_attempt(held, waited),
    {
        if !held {
            Attempt::Proceed
        } else if waited >= self.limit {
            Attempt::GiveUp(ErrorKind::ConcurrentModification)
        } else if self.pause == 0 {
            Attempt::Retry(1)
        } else if self.pause <= self.limit - waited {
            Attempt::Retry(self.pause)
        } else {
            Attempt::Retry(self.limit - waited)
        }
    }
}

/// No writer waits beyond the limit: every pause is at least one millisecond
/// long and ends within the limit, and a writer that has waited that long
/// gets the access or fails as a concurrent modification.
pub proof fn waiting_is_bounded(patience: Patience, held: bool, waited: u64)
    ensures
        patience.next_attempt(held, waited) matches Attempt::Retry(pause) ==> 0 < pause && waited
            + pause <= patience.limit,
        patience.next_attempt(held, waited) == Attempt::Proceed <==> !held,
        held && waited >= patience.limit ==> patience.next_attempt(held, waited)
            == Attempt::GiveUp(ErrorKind::ConcurrentModification),
{
}

} // verus!

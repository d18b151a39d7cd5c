//! The generation store: one environment's chain of generations and the
//! cursor that names the generation in use.

use vstd::prelude::*;
use crate::error::ErrorKind;
use crate::generation::{Actor, ActorView, Generation, GenerationRef, GenerationView};
use crate::manifest::{LockFile, LockView, Manifest, ManifestView};
use crate::record::views;

verus! {

/// An environment as a value: its generations, oldest first, and the index
/// of the generation in use, if it has any generation at all.
pub struct EnvironmentView {
    pub generations: Seq<GenerationView>,
    pub current: Option<u32>,
}

impl EnvironmentView {
    /// A freshly created environment: no generation, no cursor.
    pub open spec fn empty() -> EnvironmentView {
        EnvironmentView { generations: Seq::empty(), current: None }
    }

    /// Whether a generation with this index is in the chain.
    pub open spec fn contains(self, index: u32) -> bool {
        exists|i: int|
            0 <= i < self.generations.len() && (#[trigger] self.generations[i]).index == index
    }

    /// The invariant of every environment:
    /// indices run without a gap from the oldest retained generation to the
    /// newest, a parent is older than its child, and the cursor names a
    /// generation of the chain exactly when the chain is not empty.
    pub open spec fn wf(self) -> bool {
        &&& forall|i: int|
            0 <= i < self.generations.len() ==> (#[trigger] self.generations[i]).index
                == self.generations[0].index + i
        &&& forall|i: int|
            0 <= i < self.generations.len() ==> ((#[trigger] self.generations[i]).parent_index
                matches Some(parent) ==> parent < self.generations[i].index)
        &&& self.current is None <==> self.generations.len() == 0
        &&& self.current matches Some(index) ==> self.contains(index)
    }

    /// The index the next generation will get.
    pub open spec fn next_index(self) -> int {
        if self.generations.len() == 0 {
            0
        } else {
            self.generations.last().index + 1
        }
    }

    /// The place in the chain of the generation with this index.
    pub open spec fn position(self, index: u32) -> int {
        index - self.generations[0].index
    }

    /// The chain after a generation was appended as a child of the one in
    /// use, with the cursor on the new generation.
    pub open spec fn created(
        self,
        manifest: ManifestView,
        lock: LockView,
        created_by: ActorView,
        created_at: u64,
    ) -> EnvironmentView {
        let index = self.next_index() as u32;
        EnvironmentView {
            generations: self.generations.push(
                GenerationView {
                    index,
                    manifest,
                    lock,
                    created_at,
                    created_by,
                    parent_index: self.current,
                },
            ),
            current: Some(index),
        }
    }

    /// The generation in use.
    pub open spec fn current_generation(self) -> GenerationView
        recommends
            self.current is Some,
    {
        self.generations[self.position(self.current->0)]
    }

    /// The manifest in use; the empty manifest before the first generation.
    pub open spec fn current_manifest(self) -> ManifestView {
        if self.current is Some {
            self.current_generation().manifest
        } else {
            ManifestView::empty()
        }
    }

    /// The same chain with the cursor on `index`.
    pub open spec fn moved_to(self, index: u32) -> EnvironmentView {
        EnvironmentView { generations: self.generations, current: Some(index) }
    }
}

/// In a well-formed chain a generation stands at the distance of its index
/// from the oldest index, and the chain holds exactly the indices between
/// its oldest and its newest.
pub proof fn lemma_position(env: EnvironmentView, index: u32)
    requires
        env.wf(),
    ensures
        env.contains(index) <==> env.generations.len() > 0 && env.generations[0].index <= index
            <= env.generations.last().index,
        env.contains(index) ==> 0 <= env.position(index) < env.generations.len()
            && env.generations[env.position(index)].index == index,
{
    if env.generations.len() > 0 && env.generations[0].index <= index
        <= env.generations.last().index {
        assert(env.generations[env.position(index)].index == index);
    }
}

/// One environment's history.
#[derive(Debug, PartialEq, Eq)]
pub struct Environment {
    generations: Vec<Generation>,
    current: Option<u32>,
}

impl View for Environment {
    type V = EnvironmentView;

    closed spec fn view(&self) -> EnvironmentView {
        EnvironmentView { generations: views(self.generations@), current: self.current }
    }
}

impl Environment {
    #[verifier::type_invariant]
    closed spec fn inv(&self) -> bool {
        self@.wf()
    }

    /// A freshly created environment.
    pub fn new() -> (env: Environment)
        ensures
            env@ == EnvironmentView::empty(),
    {
        let env = Environment { generations: Vec::new(), current: None };
        assert(env@.generations =~= Seq::empty());
        env
    }

    /// Puts an environment together from generations and a cursor that were
    /// stored earlier. They are accepted only if they fit together: indices
    /// without a gap, every parent older than its child, and the cursor on a
    /// generation of the chain exactly when there is one.
    pub fn restore(generations: Vec<Generation>, current: Option<u32>) -> (result: Result<
        Environment,
        ErrorKind,
    >)
        ensures
            match result {
                Ok(env) => env@ == (EnvironmentView { generations: views(generations@), current })
                    && env@.wf(),
                Err(kind) => kind == ErrorKind::ValidationError && !(EnvironmentView {
                    generations: views(generations@),
                    current,
                }).wf(),
            },
    {
        let ghost view = EnvironmentView { generations: views(generations@), current };
        let len = generations.len();
        let mut i: usize = 0;
        while i < len
            invariant
                i <= len,
                len == generations@.len(),
                view == (EnvironmentView { generations: views(generations@), current }),
                forall|j: int|
                    0 <= j < i ==> (#[trigger] view.generations[j]).index
                        == view.generations[0].index + j,
                forall|j: int|
                    0 <= j < i ==> ((#[trigger] view.generations[j]).parent_index matches Some(
                        parent,
                    ) ==> parent < view.generations[j].index),
            decreases len - i,
        {
            let generation = &generations[i];
            assert(generation@ == view.generations[i as int]);
            assert(generations[0]@ == view.generations[0]);
            let first = generations[0].index;
            if i > u32::MAX as usize || first > u32::MAX - i as u32 || generation.index != first
                + i as u32 {
                return Err(ErrorKind::ValidationError);
            }
            match generation.parent_index {
                Some(parent) => {
                    if parent >= generation.index {
                        return Err(ErrorKind::ValidationError);
                    }
                },
                None => {},
            }
            i = i + 1;
        }
        let cursor_fits = match current {
            Some(index) => len > 0 && generations[0].index <= index && index <= generations[len
                - 1].index,
            None => len == 0,
        };
        proof {
            if len > 0 {
                assert(generations[0]@ == view.generations[0]);
                assert(generations[len - 1]@ == view.generations[len - 1]);
            }
            if let Some(index) = current {
                if cursor_fits {
                    assert(view.generations[index - view.generations[0].index].index == index);
                } else if view.contains(index) {
                    let k = choose|k: int|
                        0 <= k < view.generations.len() && (#[trigger] view.generations[k]).index
                            == index;
                    assert(view.generations[k].index == view.generations[0].index + k);
                }
            }
        }
        if cursor_fits {
            Ok(Environment { generations, current })
        } else {
            Err(ErrorKind::ValidationError)
        }
    }

    /// An environment made of a chain and a cursor that fit together.
    pub(crate) fn assemble(generations: Vec<Generation>, current: Option<u32>) -> (env:
        Environment)
        requires
            (EnvironmentView { generations: views(generations@), current }).wf(),
        ensures
            env@ == (EnvironmentView { generations: views(generations@), current }),
    {
        Environment { generations, current }
    }

    /// Takes the chain out and leaves a freshly created environment behind.
    pub(crate) fn dismantle(&mut self) -> (generations: Vec<Generation>)
        ensures
            views(generations@) == old(self)@.generations,
            old(self)@.wf(),
            final(self)@ == EnvironmentView::empty(),
    {
        proof {
            use_type_invariant(&*self);
        }
        let mut taken = Environment::new();
        core::mem::swap(self, &mut taken);
        taken.generations
    }

    /// Recalls that this environment, like every environment, meets the
    /// invariant. Nothing is computed.
    pub(crate) fn recall_invariant(&self)
        ensures
            self@.wf(),
    {
        proof {
            use_type_invariant(self);
        }
    }

    /// The index of the generation in use.
    pub fn current(&self) -> (current: Option<u32>)
        ensures
            current == self@.current,
            self@.wf(),
    {
        proof {
            use_type_invariant(self);
        }
        self.current
    }

    /// The chain, oldest generation first.
    pub fn generations(&self) -> (generations: &Vec<Generation>)
        ensures
            views(generations@) == self@.generations,
            self@.wf(),
    {
        proof {
            use_type_invariant(self);
        }
        &self.generations
    }

    /// How many generations the chain holds.
    pub fn len(&self) -> (len: usize)
        ensures
            len == self@.generations.len(),
    {
        self.generations.len()
    }

    /// Whether the chain holds a generation with this index.
    pub fn contains(&self, index: u32) -> (found: bool)
        ensures
            found == self@.contains(index),
    {
        proof {
            use_type_invariant(self);
            lemma_position(self@, index);
        }
        let len = self.generations.len();
        len > 0 && self.generations[0].index <= index && index <= self.generations[len - 1].index
    }

    /// The generation with this index, if the chain holds it.
    pub fn generation(&self, index: u32) -> (found: Option<&Generation>)
        ensures
            match found {
                Some(generation) => self@.contains(index) && generation@
                    == self@.generations[self@.position(index)],
                None => !self@.contains(index),
            },
    {
        proof {
            use_type_invariant(self);
            lemma_position(self@, index);
        }
        if self.contains(index) {
            let position = (index - self.generations[0].index) as usize;
            Some(&self.generations[position])
        } else {
            None
        }
    }

    /// The generation in use, if there is one.
    pub fn current_generation(&self) -> (found: Option<&Generation>)
        ensures
            match found {
                Some(generation) => self@.current is Some && generation@
                    == self@.current_generation(),
                None => self@.current is None,
            },
    {
        proof {
            use_type_invariant(self);
        }
        match self.current {
            Some(index) => self.generation(index),
            None => None,
        }
    }

    /// The generation to hand to the renderer when the environment is
    /// activated: the one in use. It always carries a lock, since only a
    /// resolved transaction becomes a generation.
    pub fn render_target(&self) -> (target: Option<GenerationRef>)
        ensures
            match target {
                Some(reference) => self@.current is Some && reference@
                    == self@.current_generation().reference(),
                None => self@.current is None,
            },
    {
        match self.current_generation() {
            Some(generation) => Some(generation.reference()),
            None => None,
        }
    }

    /// The manifest in use: that of the current generation, or the empty
    /// manifest where there is no generation yet.
    pub fn current_manifest(&self) -> (manifest: Manifest)
        ensures
            manifest@ == self@.current_manifest(),
    {
        match self.current_generation() {
            Some(generation) => generation.manifest.clone(),
            None => Manifest::empty(),
        }
    }

    /// The generations of the chain, by ascending index.
    pub fn list_generations(&self) -> (references: Vec<GenerationRef>)
        ensures
            references@.len() == self@.generations.len(),
            forall|i: int|
                0 <= i < references@.len() ==> (#[trigger] references@[i])@
                    == self@.generations[i].reference(),
            forall|i: int, j: int|
                0 <= i < j < references@.len() ==> references@[i].index < references@[j].index,
    {
        proof {
            use_type_invariant(self);
        }
        let mut references: Vec<GenerationRef> = Vec::new();
        let mut i: usize = 0;
        while i < self.generations.len()
            invariant
                i <= self.generations.len(),
                references@.len() == i,
                forall|j: int|
                    0 <= j < i ==> (#[trigger] references@[j])@
                        == self@.generations[j].reference(),
            decreases self.generations.len() - i,
        {
            references.push(self.generations[i].reference());
            i = i + 1;
        }
        references
    }

    /// Whether the index space has room for one more generation.
    pub fn has_room(&self) -> (room: bool)
        ensures
            room == (self@.next_index() <= u32::MAX),
    {
        let len = self.generations.len();
        len == 0 || self.generations[len - 1].index < u32::MAX
    }

    /// Appends a generation as a child of the one in use and moves the
    /// cursor onto it.
    ///
    /// `expected_parent` is the cursor as the caller read it when it began
    /// its work. If the cursor has moved since, nothing is appended. Where a
    /// generation is appended, its index has to fit.
    pub fn create_generation(
        &mut self,
        manifest: Manifest,
        lock: LockFile,
        actor: Actor,
        created_at: u64,
        expected_parent: Option<u32>,
    ) -> (result: Result<GenerationRef, ErrorKind>)
        requires
            expected_parent == old(self)@.current ==> old(self)@.next_index() <= u32::MAX,
        ensures
            final(self)@.wf(),
            match result {
                Ok(reference) => {
                    &&& expected_parent == old(self)@.current
                    &&& final(self)@ == old(self)@.created(manifest@, lock@, actor@, created_at)
                    &&& reference@ == final(self)@.generations.last().reference()
                },
                Err(kind) => {
                    &&& kind == ErrorKind::ConcurrentModification
                    &&& expected_parent != old(self)@.current
                    &&& final(self)@ == old(self)@
                },
            },
    {
        proof {
            use_type_invariant(&*self);
        }
        if expected_parent != self.current {
            return Err(ErrorKind::ConcurrentModification);
        }
        let len = self.generations.len();
        let index: u32 = if len == 0 {
            0
        } else {
            self.generations[len - 1].index + 1
        };
        let generation = Generation {
            index,
            manifest,
            lock,
            created_at,
            created_by: actor,
            parent_index: self.current,
        };
        let reference = generation.reference();
        let ghost before = self@;
        let ghost after = before.created(manifest@, lock@, actor@, created_at);
        let mut generations = self.dismantle();
        generations.push(generation);
        proof {
            assert(views(generations@) =~= after.generations);
            assert(after.generations[len as int].index == index);
            assert(after.wf());
        }
        *self = Environment::assemble(generations, Some(index));
        Ok(reference)
    }

    /// Points the cursor at an existing generation.
    pub fn set_current(&mut self, index: u32) -> (result: Result<(), ErrorKind>)
        ensures
            final(self)@.wf(),
            match result {
                Ok(_) => old(self)@.contains(index) && final(self)@ == old(self)@.moved_to(index),
                Err(kind) => kind == ErrorKind::UnknownGeneration && !old(self)@.contains(index)
                    && final(self)@ == old(self)@,
            },
    {
        proof {
            use_type_invariant(&*self);
            lemma_position(self@, index);
        }
        let len = self.generations.len();
        if len == 0 || index < self.generations[0].index || index > self.generations[len
            - 1].index {
            return Err(ErrorKind::UnknownGeneration);
        }
        self.current = Some(index);
        Ok(())
    }
}

impl Clone for Environment {
    fn clone(&self) -> (copy: Environment)
        ensures
            copy@ == self@,
    {
        let generations = self.generations();
        let mut chain: Vec<Generation> = Vec::new();
        let mut i: usize = 0;
        while i < generations.len()
            invariant
                i <= generations.len(),
                chain@.len() == i,
                forall|j: int| 0 <= j < i ==> (#[trigger] chain@[j])@ == generations@[j]@,
            decreases generations.len() - i,
        {
            chain.push(generations[i].clone());
            i = i + 1;
        }
        assert(views(chain@) =~= views(generations@));
        Environment::assemble(chain, self.current())
    }
}

} // verus!

//! Generations: the immutable records an environment's history is made of.

use vstd::prelude::*;
use vstd::string::StringExecFns;
use crate::manifest::{LockFile, LockView, Manifest, ManifestView};
use crate::record::Record;

verus! {

/// The operation that created a generation.
#[derive(Clone, Copy, Debug, PartialEq, Eq, Structural)]
pub enum Operation {
    Install,
    Remove,
    Upgrade,
    Edit,
    Import,
}

impl Operation {
    /// The word for the operation.
    pub open spec fn spec_name(self) -> Seq<char> {
        match self {
            Operation::Install => "install"@,
            Operation::Remove => "remove"@,
            Operation::Upgrade => "upgrade"@,
            Operation::Edit => "edit"@,
            Operation::Import => "import"@,
        }
    }

    /// The operation that a word stands for.
    pub open spec fn spec_from_name(name: Seq<char>) -> Option<Operation> {
        if name == "install"@ {
            Some(Operation::Install)
        } else if name == "remove"@ {
            Some(Operation::Remove)
        } else if name == "upgrade"@ {
            Some(Operation::Upgrade)
        } else if name == "edit"@ {
            Some(Operation::Edit)
        } else if name == "import"@ {
            Some(Operation::Import)
        } else {
            None
        }
    }

    /// The word for the operation, as histories show it.
    pub fn name(self) -> (name: &'static str)
        ensures
            name@ == self.spec_name(),
    {
        match self {
            Operation::Install => "install",
            Operation::Remove => "remove",
            Operation::Upgrade => "upgrade",
            Operation::Edit => "edit",
            Operation::Import => "import",
        }
    }

    /// Reads the word for an operation.
    pub fn from_name(name: &String) -> (operation: Option<Operation>)
        ensures
            operation == Operation::spec_from_name(name@),
    {
        if *name == String::from_str("install") {
            Some(Operation::Install)
        } else if *name == String::from_str("remove") {
            Some(Operation::Remove)
        } else if *name == String::from_str("upgrade") {
            Some(Operation::Upgrade)
        } else if *name == String::from_str("edit") {
            Some(Operation::Edit)
        } else if *name == String::from_str("import") {
            Some(Operation::Import)
        } else {
            None
        }
    }
}

/// Each operation is read back from its own word.
pub proof fn operation_names_round_trip(operation: Operation)
    ensures
        Operation::spec_from_name(operation.spec_name()) == Some(operation),
{
    reveal_strlit("install");
    reveal_strlit("remove");
    reveal_strlit("upgrade");
    reveal_strlit("edit");
    reveal_strlit("import");
    assert("install"@.len() == 7 && "remove"@.len() == 6 && "upgrade"@.len() == 7 && "edit"@.len()
        == 4 && "import"@.len() == 6);
    assert("install"@[0] == 'i' && "upgrade"@[0] == 'u');
    assert("remove"@[0] == 'r' && "import"@[0] == 'i');
}

/// Who created a generation, and by which operation.
#[derive(Debug, PartialEq, Eq)]
pub struct Actor {
    pub name: String,
    pub operation: Operation,
}

pub struct ActorView {
    pub name: Seq<char>,
    pub operation: Operation,
}

impl View for Actor {
    type V = ActorView;

    open spec fn view(&self) -> ActorView {
        ActorView { name: self.name@, operation: self.operation }
    }
}

impl Actor {
    pub fn new(name: String, operation: Operation) -> (actor: Actor)
        ensures
            actor@ == (ActorView { name: name@, operation }),
    {
        Actor { name, operation }
    }

    pub fn same_as(&self, other: &Actor) -> (same: bool)
        ensures
            same == (self@ == other@),
    {
        self.name == other.name && self.operation == other.operation
    }
}

impl Clone for Actor {
    fn clone(&self) -> (copy: Actor)
        ensures
            copy@ == self@,
    {
        Actor { name: self.name.clone(), operation: self.operation }
    }
}

/// One immutable snapshot of an environment: a manifest, the lock resolved
/// for it, and where it stands in the chain.
#[derive(Debug, PartialEq, Eq)]
pub struct Generation {
    pub index: u32,
    pub manifest: Manifest,
    pub lock: LockFile,
    pub created_at: u64,
    pub created_by: Actor,
    /// The generation that was in use when this one was created.
    pub parent_index: Option<u32>,
}

pub struct GenerationView {
    pub index: u32,
    pub manifest: ManifestView,
    pub lock: LockView,
    pub created_at: u64,
    pub created_by: ActorView,
    pub parent_index: Option<u32>,
}

impl View for Generation {
    type V = GenerationView;

    open spec fn view(&self) -> GenerationView {
        GenerationView {
            index: self.index,
            manifest: self.manifest@,
            lock: self.lock@,
            created_at: self.created_at,
            created_by: self.created_by@,
            parent_index: self.parent_index,
        }
    }
}

impl Record for Generation {
    fn same_as(&self, other: &Generation) -> (same: bool) {
        self.index == other.index && self.created_at == other.created_at && self.parent_index
            == other.parent_index && self.manifest.same_as(&other.manifest) && self.lock.same_as(
            &other.lock,
        ) && self.created_by.same_as(&other.created_by)
    }
}

impl Generation {
    /// The reference by which this generation is handed to the renderer.
    pub fn reference(&self) -> (reference: GenerationRef)
        ensures
            reference@ == self@.reference(),
    {
        GenerationRef { index: self.index, realized: self.lock.realized.clone() }
    }
}

impl GenerationView {
    pub open spec fn reference(self) -> GenerationRefView {
        GenerationRefView { index: self.index, realized: self.lock.realized }
    }
}

impl Clone for Generation {
    fn clone(&self) -> (copy: Generation)
        ensures
            copy@ == self@,
    {
        Generation {
            index: self.index,
            manifest: self.manifest.clone(),
            lock: self.lock.clone(),
            created_at: self.created_at,
            created_by: self.created_by.clone(),
            parent_index: self.parent_index,
        }
    }
}

/// A committed generation, named by its index, with the handle of the
/// environment that was realized for it. Only generations that carry a lock
/// are ever referred to.
#[derive(Debug, PartialEq, Eq)]
pub struct GenerationRef {
    pub index: u32,
    pub realized: String,
}

pub struct GenerationRefView {
    pub index: u32,
    pub realized: Seq<char>,
}

impl View for GenerationRef {
    type V = GenerationRefView;

    open spec fn view(&self) -> GenerationRefView {
        GenerationRefView { index: self.index, realized: self.realized@ }
    }
}

impl Clone for GenerationRef {
    fn clone(&self) -> (copy: GenerationRef)
        ensures
            copy@ == self@,
    {
        GenerationRef { index: self.index, realized: self.realized.clone() }
    }
}

} // verus!

//! The surface between host and guest: what the host requires a module to
//! export, under which names, and what it offers the module to import, in
//! which order.

use vstd::prelude::*;

verus! {

/// The name under which a module exports its entry point.
pub open spec fn spec_entry_point_export() -> Seq<char> {
    "main"@
}

/// The name under which a module exports its linear memory.
pub open spec fn spec_memory_export() -> Seq<char> {
    "memory"@
}

/// The name under which a module exports its allocator.
pub open spec fn spec_allocator_export() -> Seq<char> {
    "alloc"@
}

/// The name under which a module exports its entry point: a function
/// without arguments and results.
pub fn entry_point_export() -> (name: &'static str)
    ensures
        name@ == spec_entry_point_export(),
{
    "main"
}

/// The name under which a module exports its linear memory.
pub fn memory_export() -> (name: &'static str)
    ensures
        name@ == spec_memory_export(),
{
    "memory"
}

/// The name under which a module exports its allocator: a function from a
/// length to the offset of a buffer of that length.
pub fn allocator_export() -> (name: &'static str)
    ensures
        name@ == spec_allocator_export(),
{
    "alloc"
}

/// Number of functions that the host offers: a module imports them all.
pub const IMPORT_COUNT: usize = 4;

/// A function that the host offers to its guests.
#[derive(Clone, Copy, Debug, PartialEq, Eq, Structural)]
pub enum Capability {
    /// `identify()`: the host reports the guest's name.
    Identify,
    /// `emit-text(offset)`: the host reports the text at the offset.
    EmitText,
    /// `produce-transform() -> offset`: the host writes a transform into a
    /// buffer of the guest's and returns where.
    ProduceTransform,
    /// `emit-transform(offset)`: the host reports the transform at the
    /// offset.
    EmitTransform,
}

impl Capability {
    /// The capability that a module's import number `slot` is bound to,
    /// counted from zero; `None` behind the last.
    pub open spec fn spec_at(slot: int) -> Option<Capability> {
        if slot == 0 {
            Some(Capability::Identify)
        } else if slot == 1 {
            Some(Capability::EmitText)
        } else if slot == 2 {
            Some(Capability::ProduceTransform)
        } else if slot == 3 {
            Some(Capability::EmitTransform)
        } else {
            None
        }
    }

    /// The number of the import that the capability is bound to.
    pub open spec fn spec_slot(self) -> int {
        match self {
            Capability::Identify => 0,
            Capability::EmitText => 1,
            Capability::ProduceTransform => 2,
            Capability::EmitTransform => 3,
        }
    }

    /// The capability that a module's import number `slot` is bound to,
    /// counted from zero; `None` behind the last.
    pub fn at(slot: usize) -> (capability: Option<Capability>)
        ensures
            capability == Capability::spec_at(slot as int),
    {
        if slot == 0 {
            Some(Capability::Identify)
        } else if slot == 1 {
            Some(Capability::EmitText)
        } else if slot == 2 {
            Some(Capability::ProduceTransform)
        } else if slot == 3 {
            Some(Capability::EmitTransform)
        } else {
            None
        }
    }

    /// The number of the import that the capability is bound to.
    pub fn slot(self) -> (slot: usize)
        ensures
            slot == self.spec_slot(),
    {
        match self {
            Capability::Identify => 0,
            Capability::EmitText => 1,
            Capability::ProduceTransform => 2,
            Capability::EmitTransform => 3,
        }
    }

    /// Every import slot holds one capability and every capability has one
    /// slot.
    pub proof fn lemma_one_slot_each(self, slot: int)
        ensures
            Capability::spec_at(self.spec_slot()) == Some(self),
            0 <= self.spec_slot() < IMPORT_COUNT,
            Capability::spec_at(slot) is Some <==> 0 <= slot < IMPORT_COUNT,
            Capability::spec_at(slot) == Some(self) ==> slot == self.spec_slot(),
    {
    }
}

} // verus!

//! The guest's side of the allocation convention.
//!
//! The host asks the guest for a buffer by length and gets an offset back.
//! The bytes then belong to whoever holds the offset; the guest never takes
//! them back. An arena that hands out a region of the guest's memory front
//! to back, and is dropped with the instance, keeps that convention.

use crate::bridge::GuestMemoryHandle;
use vstd::prelude::*;

verus! {

/// A region of a guest's linear memory from which buffers are handed out.
/// Everything in front of `next` is handed out, everything from `next` up
/// to `limit` is free.
#[derive(Clone, Copy, Debug, PartialEq, Eq, Structural)]
pub struct GuestArena {
    /// Offset of the first free byte.
    pub next: u32,
    /// Offset at which the region ends: as far as the memory can grow.
    pub limit: u32,
}

impl GuestArena {
    /// The free bytes.
    pub open spec fn spec_remaining(self) -> int {
        if self.next <= self.limit {
            self.limit - self.next
        } else {
            0
        }
    }

    /// What asking for `length` bytes gives: the arena afterwards and the
    /// offset of the buffer, or `None` where the free bytes do not suffice.
    /// An arena whose `next` lies behind its `limit` hands out nothing.
    pub open spec fn spec_alloc(self, length: u32) -> Option<(GuestArena, u32)> {
        if self.next <= self.limit && length <= self.limit - self.next {
            Some((GuestArena { next: (self.next + length) as u32, limit: self.limit }, self.next))
        } else {
            None
        }
    }

    /// The arena after one request for each length of `lengths` that it can
    /// hold when its turn comes, in order. The others are not made.
    pub open spec fn spec_after(self, lengths: Seq<u32>) -> GuestArena
        decreases lengths.len(),
    {
        if lengths.len() == 0 {
            self
        } else {
            let before = self.spec_after(lengths.drop_last());
            match before.spec_alloc(lengths.last()) {
                Some((after, _)) => after,
                None => before,
            }
        }
    }

    /// An arena over the bytes from `start` up to `limit`.
    pub fn new(start: u32, limit: u32) -> (arena: GuestArena)
        ensures
            arena.next == start,
            arena.limit == limit,
    {
        GuestArena { next: start, limit }
    }

    /// The free bytes.
    pub fn remaining(&self) -> (free: u32)
        ensures
            free == self.spec_remaining(),
    {
        if self.next <= self.limit {
            self.limit - self.next
        } else {
            0
        }
    }

    /// Whether the arena can hold `length` more bytes: whether a request for
    /// them may be made.
    pub fn fits(&self, length: u32) -> (held: bool)
        ensures
            held == self.spec_alloc(length) is Some,
    {
        self.next <= self.limit && length <= self.limit - self.next
    }

    /// Requests never move `next` back, and never past a limit it was within.
    pub proof fn lemma_next_only_grows(self, lengths: Seq<u32>)
        ensures
            self.spec_after(lengths).next >= self.next,
            self.spec_after(lengths).limit == self.limit,
            self.next <= self.limit ==> self.spec_after(lengths).next <= self.limit,
        decreases lengths.len(),
    {
        if lengths.len() > 0 {
            self.lemma_next_only_grows(lengths.drop_last());
        }
    }

    /// No buffer shares a byte with a buffer handed out before it, however
    /// many requests lie between the two.
    pub proof fn lemma_buffers_do_not_alias(
        self,
        first: u32,
        between: Seq<u32>,
        second: u32,
    )
        requires
            self.spec_alloc(first) is Some,
            self.spec_alloc(first)->Some_0.0.spec_after(between).spec_alloc(second) is Some,
        ensures
            ({
                let (arena, earlier) = self.spec_alloc(first)->Some_0;
                let (_, later) = arena.spec_after(between).spec_alloc(second)->Some_0;
                (GuestMemoryHandle { base: earlier as usize, length: first as usize }).spec_disjoint(
                    GuestMemoryHandle { base: later as usize, length: second as usize },
                )
            }),
            ({
                let (arena, earlier) = self.spec_alloc(first)->Some_0;
                let (_, later) = arena.spec_after(between).spec_alloc(second)->Some_0;
                earlier + first <= later && later + second <= self.limit
            }),
    {
        let (arena, earlier) = self.spec_alloc(first)->Some_0;
        arena.lemma_next_only_grows(between);
    }
}

/// Reserves `len` bytes of the guest's memory and returns the offset of the
/// first.
///
/// The buffer lies behind every buffer handed out before and within the
/// arena's limit. Its bytes are not touched: the host fills them. Nothing is
/// ever taken back.
///
/// A request that the memory cannot hold is fatal to the guest and must not
/// be made here: [`GuestArena::fits`] tells beforehand, and a guest that
/// finds it does not fit traps.
pub fn allocate(arena: &mut GuestArena, len: u32) -> (offset: u32)
    requires
        old(arena).spec_alloc(len) is Some,
    ensures
        (*final(arena), offset) == old(arena).spec_alloc(len)->Some_0,
{
    let at: u32 = arena.next;
    arena.next = at + len;
    at
}

} // verus!

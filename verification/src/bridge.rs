//! The marshalling bridge: every access to guest memory goes through here.
//!
//! An instance's linear memory is a byte slice. A guest hands the host bare
//! offsets into it, which may be anything, so each accessor checks the range
//! it is asked for against the mapped size before it touches a byte.

use crate::error::{ErrorKind, HostError};
use vstd::prelude::*;
use vstd::slice::{slice_subrange, slice_to_vec};
use vstd::utf8::{decode_utf8, valid_utf8};

verus! {

/// A byte range inside one instance's linear memory.
///
/// A handle means something only for the instance it was made for, and only
/// while that instance's current call lasts.
#[derive(Clone, Copy, Debug, PartialEq, Eq, Structural)]
pub struct GuestMemoryHandle {
    /// Offset of the first byte.
    pub base: usize,
    /// Number of bytes.
    pub length: usize,
}

impl GuestMemoryHandle {
    /// One past the last byte.
    pub open spec fn spec_end(self) -> int {
        self.base + self.length
    }

    /// Whether the whole range lies in a memory of `mapped` bytes.
    pub open spec fn spec_within(self, mapped: int) -> bool {
        self.spec_end() <= mapped
    }

    /// Whether the byte at `at` belongs to the range.
    pub open spec fn spec_contains(self, at: int) -> bool {
        self.base <= at < self.spec_end()
    }

    /// Whether two ranges share no byte.
    pub open spec fn spec_disjoint(self, other: GuestMemoryHandle) -> bool {
        forall|at: int| !(#[trigger] self.spec_contains(at) && other.spec_contains(at))
    }

    /// Names the `length` bytes from `base` on.
    pub fn new(base: usize, length: usize) -> (handle: GuestMemoryHandle)
        ensures
            handle.base == base,
            handle.length == length,
    {
        GuestMemoryHandle { base, length }
    }

    /// The bounds check: whether the whole range lies in a memory of
    /// `mapped` bytes. A range whose end does not fit in `usize` lies in none.
    pub fn within(&self, mapped: usize) -> (ok: bool)
        ensures
            ok == self.spec_within(mapped as int),
    {
        self.length <= mapped && self.base <= mapped - self.length
    }
}

/// The bytes of `memory` in `[offset, offset + length)`.
pub open spec fn spec_read(memory: Seq<u8>, offset: int, length: int) -> Seq<u8>
    recommends
        0 <= offset,
        0 <= length,
        offset + length <= memory.len(),
{
    memory.subrange(offset, offset + length)
}

/// `memory` with `bytes` laid over it from `offset` on.
pub open spec fn spec_write(memory: Seq<u8>, offset: int, bytes: Seq<u8>) -> Seq<u8>
    recommends
        0 <= offset,
        offset + bytes.len() <= memory.len(),
{
    Seq::new(
        memory.len(),
        |i: int|
            if offset <= i < offset + bytes.len() {
                bytes[i - offset]
            } else {
                memory[i]
            },
    )
}

/// What was written can be read back, and nothing else has changed.
pub proof fn lemma_read_after_write(memory: Seq<u8>, offset: int, bytes: Seq<u8>)
    requires
        0 <= offset,
        offset + bytes.len() <= memory.len(),
    ensures
        spec_write(memory, offset, bytes).len() == memory.len(),
        spec_read(spec_write(memory, offset, bytes), offset, bytes.len() as int) == bytes,
        forall|i: int|
            0 <= i < memory.len() && !(offset <= i < offset + bytes.len()) ==> spec_write(
                memory,
                offset,
                bytes,
            )[i] == memory[i],
{
    assert(spec_read(spec_write(memory, offset, bytes), offset, bytes.len() as int) =~= bytes);
}

/// Copies `length` bytes out of guest memory, starting at `offset`.
///
/// Fails with `OutOfBounds` exactly when the range does not lie within the
/// mapped memory.
pub fn read_bytes(memory: &[u8], offset: usize, length: usize) -> (result: Result<
    Vec<u8>,
    HostError,
>)
    ensures
        offset + length <= memory@.len() ==> (result matches Ok(bytes) && bytes@ == spec_read(
            memory@,
            offset as int,
            length as int,
        )),
        offset + length > memory@.len() ==> result == Err::<Vec<u8>, HostError>(
            HostError::OutOfBounds,
        ),
{
    if !GuestMemoryHandle::new(offset, length).within(memory.len()) {
        return Err(HostError::OutOfBounds);
    }
    Ok(slice_to_vec(slice_subrange(memory, offset, offset + length)))
}

/// Copies `bytes` into guest memory, starting at `offset`, over whatever
/// was there.
///
/// Fails with `OutOfBounds` exactly when the range does not lie within the
/// mapped memory, and then writes nothing.
pub fn write_bytes(memory: &mut [u8], offset: usize, bytes: &[u8]) -> (result: Result<
    (),
    HostError,
>)
    ensures
        offset + bytes@.len() <= old(memory)@.len() ==> result is Ok && final(memory)@
            == spec_write(old(memory)@, offset as int, bytes@),
        offset + bytes@.len() > old(memory)@.len() ==> result == Err::<(), HostError>(
            HostError::OutOfBounds,
        ) && final(memory)@ == old(memory)@,
{
    if !GuestMemoryHandle::new(offset, bytes.len()).within(memory.len()) {
        return Err(HostError::OutOfBounds);
    }
    let mapped: usize = memory.len();
    let mut done: usize = 0;
    while done < bytes.len()
        invariant
            done <= bytes@.len(),
            offset + bytes@.len() <= mapped,
            memory@.len() == mapped,
            memory@.len() == old(memory)@.len(),
            memory@ == spec_write(old(memory)@, offset as int, bytes@.subrange(0, done as int)),
        decreases bytes@.len() - done,
    {
        memory[offset + done] = bytes[done];
        done = done + 1;
    }
    assert(bytes@.subrange(0, done as int) =~= bytes@);
    Ok(())
}

/// Whether the text that starts at `offset` ends just before `end`: `end`
/// holds the first zero byte at or behind `offset`.
pub open spec fn is_text_end(memory: Seq<u8>, offset: int, end: int) -> bool {
    &&& 0 <= offset <= end < memory.len()
    &&& memory[end] == 0
    &&& forall|i: int| offset <= i < end ==> memory[i] != 0
}

/// Whether a zero byte follows `offset` within the mapped memory.
pub open spec fn has_terminator(memory: Seq<u8>, offset: int) -> bool {
    exists|end: int| is_text_end(memory, offset, end)
}

/// The bytes of the text that starts at `offset`, terminator excluded.
pub open spec fn text_bytes(memory: Seq<u8>, offset: int) -> Seq<u8>
    recommends
        has_terminator(memory, offset),
{
    memory.subrange(offset, choose|end: int| is_text_end(memory, offset, end))
}

/// What reading a text at `offset` gives.
pub open spec fn spec_read_text(memory: Seq<u8>, offset: int) -> Result<Seq<char>, HostError> {
    if offset > memory.len() {
        Err(HostError::OutOfBounds)
    } else if !has_terminator(memory, offset) {
        Err(HostError::MissingTerminator)
    } else if !valid_utf8(text_bytes(memory, offset)) {
        Err(HostError::InvalidText)
    } else {
        Ok(decode_utf8(text_bytes(memory, offset)))
    }
}

/// A text has one end only.
pub proof fn lemma_text_end_is_unique(memory: Seq<u8>, offset: int, first: int, second: int)
    requires
        is_text_end(memory, offset, first),
        is_text_end(memory, offset, second),
    ensures
        first == second,
{
    if first < second {
        assert(memory[first] != 0);
    } else if second < first {
        assert(memory[second] != 0);
    }
}

/// A text whose first zero byte lies at `end` is the decoding of the bytes
/// in front of `end`: the terminator is no part of it.
pub proof fn lemma_terminated_text(memory: Seq<u8>, offset: int, end: int)
    requires
        is_text_end(memory, offset, end),
    ensures
        text_bytes(memory, offset) == memory.subrange(offset, end),
        valid_utf8(memory.subrange(offset, end)) ==> spec_read_text(memory, offset) == Ok::<
            Seq<char>,
            HostError,
        >(decode_utf8(memory.subrange(offset, end))),
        !valid_utf8(memory.subrange(offset, end)) ==> spec_read_text(memory, offset) == Err::<
            Seq<char>,
            HostError,
        >(HostError::InvalidText),
{
    let chosen: int = choose|e: int| is_text_end(memory, offset, e);
    lemma_text_end_is_unique(memory, offset, end, chosen);
}

/// A text that no zero byte ends within the mapped memory is an encoding
/// error, wherever in the memory it starts: the scan stops at the end of
/// the memory.
pub proof fn lemma_unterminated_text(memory: Seq<u8>, offset: int)
    requires
        0 <= offset <= memory.len(),
        forall|i: int| offset <= i < memory.len() ==> memory[i] != 0,
    ensures
        spec_read_text(memory, offset) == Err::<Seq<char>, HostError>(
            HostError::MissingTerminator,
        ),
        HostError::MissingTerminator.spec_kind() == ErrorKind::Encoding,
{
    assert forall|end: int| !is_text_end(memory, offset, end) by {
        if offset <= end < memory.len() {
            assert(memory[end] != 0);
        }
    }
}

/// Looks for the first zero byte at or behind `offset`, up to the end of
/// the mapped memory.
fn find_terminator(memory: &[u8], offset: usize) -> (found: Option<usize>)
    requires
        offset <= memory@.len(),
    ensures
        found matches Some(end) ==> is_text_end(memory@, offset as int, end as int),
        found is None ==> !has_terminator(memory@, offset as int),
{
    let mut at: usize = offset;
    while at < memory.len()
        invariant
            offset <= at <= memory@.len(),
            forall|i: int| offset <= i < at ==> memory@[i] != 0,
        decreases memory@.len() - at,
    {
        if memory[at] == 0 {
            return Some(at);
        }
        at = at + 1;
    }
    proof {
        lemma_unterminated_text(memory@, offset as int);
    }
    None
}

/// Takes `bytes` as UTF-8 text with `std::str::from_utf8`. Trusted: the
/// bytes that the standard library accepts are those that `valid_utf8`
/// describes, and the text it gives is their decoding.
#[verifier::external_body]
fn utf8_to_str(bytes: &[u8]) -> (text: Option<&str>)
    ensures
        text is Some <==> valid_utf8(bytes@),
        text matches Some(s) ==> s@ == decode_utf8(bytes@),
{
    std::str::from_utf8(bytes).ok()
}

/// Reads the nul-terminated UTF-8 text that starts at `offset`.
///
/// The host does not know the length beforehand: it scans from `offset` to
/// the first zero byte, and no further than the end of the mapped memory.
/// Fails with `OutOfBounds` when `offset` lies behind the end of the memory,
/// with `MissingTerminator` when no zero byte follows, and with
/// `InvalidText` when the bytes before it are not UTF-8.
pub fn read_text(memory: &[u8], offset: usize) -> (result: Result<String, HostError>)
    ensures
        match spec_read_text(memory@, offset as int) {
            Ok(text) => result matches Ok(s) && s@ == text,
            Err(error) => result == Err::<String, HostError>(error),
        },
{
    if !GuestMemoryHandle::new(offset, 0).within(memory.len()) {
        return Err(HostError::OutOfBounds);
    }
    match find_terminator(memory, offset) {
        None => Err(HostError::MissingTerminator),
        Some(end) => {
            proof {
                lemma_terminated_text(memory@, offset as int, end as int);
            }
            match utf8_to_str(slice_subrange(memory, offset, end)) {
                Some(text) => Ok(text.to_owned()),
                None => Err(HostError::InvalidText),
            }
        },
    }
}

} // verus!

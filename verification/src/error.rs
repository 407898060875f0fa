//! What can go wrong while an extension is instantiated or run.
//!
//! Every failure aborts the run of the instance it belongs to; none is
//! retried or recovered from.

use vstd::prelude::*;
use vstd::string::StringExecFns;

verus! {

/// The five families of failure.
#[derive(Clone, Copy, Debug, PartialEq, Eq, Structural)]
pub enum ErrorKind {
    /// Something the host requires of the module could not be resolved.
    Resolution,
    /// An offset or length lies outside the instance's mapped memory.
    Bounds,
    /// Text in guest memory is not terminated or not valid UTF-8.
    Encoding,
    /// The guest allocator could not provide a buffer.
    Allocation,
    /// The guest faulted for a reason of its own.
    Trap,
}

/// A failure, with its cause.
#[derive(Clone, Copy, Debug, PartialEq, Eq, Structural)]
pub enum HostError {
    /// The module could not be instantiated with the host's capabilities
    /// bound as its imports.
    InstantiationFailed,
    /// The module does not export the entry point.
    MissingEntryPoint,
    /// The module does not export its linear memory.
    MissingMemory,
    /// The module does not export the allocator that the host calls.
    MissingAllocator,
    /// A byte range does not lie within the mapped memory.
    OutOfBounds,
    /// No zero byte follows the start of a text within the mapped memory.
    MissingTerminator,
    /// The bytes of a text are not valid UTF-8.
    InvalidText,
    /// The guest allocator did not return a buffer.
    AllocationFailed,
    /// The guest trapped.
    GuestTrap,
}

/// A failure together with what the engine said of it.
///
/// `detail` is the engine's own account, with the backtrace where it has
/// one, for whoever reports the failure. It is empty where the library found
/// the failure itself and the engine had nothing to say.
#[derive(Debug, PartialEq, Eq)]
pub struct Failure {
    /// What went wrong.
    pub error: HostError,
    /// The engine's words.
    pub detail: String,
}

impl HostError {
    /// The family a failure belongs to.
    pub open spec fn spec_kind(self) -> ErrorKind {
        match self {
            HostError::InstantiationFailed => ErrorKind::Resolution,
            HostError::MissingEntryPoint => ErrorKind::Resolution,
            HostError::MissingMemory => ErrorKind::Resolution,
            HostError::MissingAllocator => ErrorKind::Resolution,
            HostError::OutOfBounds => ErrorKind::Bounds,
            HostError::MissingTerminator => ErrorKind::Encoding,
            HostError::InvalidText => ErrorKind::Encoding,
            HostError::AllocationFailed => ErrorKind::Allocation,
            HostError::GuestTrap => ErrorKind::Trap,
        }
    }

    /// The cause in words.
    pub open spec fn spec_message(self) -> Seq<char> {
        match self {
            HostError::InstantiationFailed => "unable to instantiate the module with the host capabilities"@,
            HostError::MissingEntryPoint => "the module does not export the entry point `main`"@,
            HostError::MissingMemory => "unable to get wasm memory"@,
            HostError::MissingAllocator => "the module does not export the allocator `alloc`"@,
            HostError::OutOfBounds => "out of bounds memory access"@,
            HostError::MissingTerminator => "text is not nul-terminated"@,
            HostError::InvalidText => "text is not valid UTF-8"@,
            HostError::AllocationFailed => "the guest allocator failed"@,
            HostError::GuestTrap => "the guest trapped"@,
        }
    }

    /// The family a failure belongs to.
    pub fn kind(&self) -> (kind: ErrorKind)
        ensures
            kind == self.spec_kind(),
    {
        match self {
            HostError::InstantiationFailed => ErrorKind::Resolution,
            HostError::MissingEntryPoint => ErrorKind::Resolution,
            HostError::MissingMemory => ErrorKind::Resolution,
            HostError::MissingAllocator => ErrorKind::Resolution,
            HostError::OutOfBounds => ErrorKind::Bounds,
            HostError::MissingTerminator => ErrorKind::Encoding,
            HostError::InvalidText => ErrorKind::Encoding,
            HostError::AllocationFailed => ErrorKind::Allocation,
            HostError::GuestTrap => ErrorKind::Trap,
        }
    }

    /// The cause in words, for whoever reports the failure.
    pub fn message(&self) -> (text: String)
        ensures
            text@ == self.spec_message(),
    {
        match self {
            HostError::InstantiationFailed => String::from_str(
                "unable to instantiate the module with the host capabilities",
            ),
            HostError::MissingEntryPoint => String::from_str(
                "the module does not export the entry point `main`",
            ),
            HostError::MissingMemory => String::from_str("unable to get wasm memory"),
            HostError::MissingAllocator => String::from_str(
                "the module does not export the allocator `alloc`",
            ),
            HostError::OutOfBounds => String::from_str("out of bounds memory access"),
            HostError::MissingTerminator => String::from_str("text is not nul-terminated"),
            HostError::InvalidText => String::from_str("text is not valid UTF-8"),
            HostError::AllocationFailed => String::from_str("the guest allocator failed"),
            HostError::GuestTrap => String::from_str("the guest trapped"),
        }
    }
}

} // verus!

//! Host side of a sandboxed extension runtime.
//!
//! An extension is a WebAssembly module that runs in its own linear memory.
//! The host offers it four capabilities and exchanges text and fixed-layout
//! values with it as raw bytes at guest memory offsets. The byte layout, the
//! bounds-checked memory accessors and the capability logic are verified;
//! the calls into the sandboxing engine and into the standard library's
//! UTF-8 decoder are the only trusted parts.

pub mod bridge;
pub mod context;
pub mod error;
pub mod guest;
pub mod host;
pub mod layout;
pub mod lifecycle;
pub mod surface;

pub use bridge::{read_bytes, read_text, write_bytes, GuestMemoryHandle};
pub use context::{
    host_transform, transform_request, ClientExtensionState, GuestAllocation, Report,
};
pub use error::{ErrorKind, Failure, HostError};
pub use guest::{allocate, GuestArena};
pub use host::{
    create_extension, print_name, print_transform, wasm_get_transfrom, wasm_print,
    ClientWasmExtension,
};
pub use layout::{
    Quat, Transform, Vec3, QUAT_SIZE, TRANSFORM_POS_OFFSET, TRANSFORM_ROTATION_OFFSET,
    TRANSFORM_SIZE, VEC3_SIZE, WORD_SIZE,
};
pub use lifecycle::{check_exports, closing_event, run_outcome, Event, Phase};
pub use surface::{
    allocator_export, entry_point_export, memory_export, Capability, IMPORT_COUNT,
};

//! Handle and capability types shared by the two backends.

use vstd::prelude::*;

verus! {

/// Construction token for runtime-internal entry points.
///
/// Generated accessor code passes it to mark call sites that are produced by
/// the code generator rather than written by hand; it carries no data.
#[derive(Clone, Copy)]
pub struct Private;

/// Opaque handle to one message instance.
///
/// The layer itself never looks inside a message; it only threads this handle
/// from the accessor layer down to the backend that owns the message.
#[derive(Clone, Copy, PartialEq, Eq, Structural, Debug)]
pub struct RawMessage {
    pub id: usize,
}

/// Opaque handle to an engine-level arena object.
///
/// The verified model keeps each arena's storage inside the [`crate::upb::Arena`]
/// value itself, so no value of this type is ever produced; the type remains
/// so that the engine-owned backend can keep an arena-shaped signature.
pub struct RawArena {
    #[allow(dead_code)]
    handle: usize,
}

} // verus!

//! Memory-ownership and field-access layer shared by generated message types.
//!
//! The crate models the two backend memory disciplines that generated
//! accessor code runs over:
//!
//! * the arena-first backend ([`upb`]), where every piece of message memory
//!   is carved out of an [`upb::Arena`] and freed only when the whole arena
//!   goes away, and
//! * the engine-owned backend ([`cpp`]), where the serialization engine owns
//!   and frees message memory itself and the arena type is only a placeholder
//!   kept for API symmetry.
//!
//! Both backends expose the same handle surface: repeated-field handles,
//! scalar map handles, serialized-output buffers and the mutator capability
//! token that field mutators are built from.  Exclusive mutable access to a
//! field is represented by Rust's own `&mut`, so two live mutators over the
//! same field cannot be constructed.

pub mod assoc;
pub mod cpp;
pub mod internal;
pub mod upb;

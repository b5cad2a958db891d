//! Bounds-checked, typed access to a guest's linear memory.
//!
//! A host runtime that executes untrusted sandboxed code shares a flat byte
//! buffer with the guest. The guest hands raw integer offsets and lengths
//! across the call boundary; this crate turns those untrusted numbers into
//! validated views of the buffer. Every address computation uses checked
//! arithmetic, every range is validated against the live buffer length, and
//! each failure is reported as a structured [`GuestError`] which the boundary
//! converts into an opaque trap object via [`to_trap`].

pub mod borrow;
pub mod endian;
pub mod error;
pub mod region;
pub mod valid;

pub use borrow::BorrowChecker;
pub use endian::Endian;
pub use error::{to_trap, GuestError};
pub use region::Region;
pub use valid::{AllBytesValid, Scalar};

use vstd::prelude::*;

use crate::region::Region;

verus! {

/// A structured description of a failed guest-memory access.
///
/// `PtrOverflow` means the requested range cannot exist in any buffer: the
/// address arithmetic itself left the 32-bit guest address space.
/// `PtrOutOfBounds` means the range is numerically valid but does not fit in
/// the buffer it was checked against; it carries the offending `Region`.
/// `InvalidUtf8` arises only at the string-decoding layer, for bytes that are
/// in bounds but are not well-formed UTF-8.
#[derive(Debug, Copy, Clone, PartialEq, Eq, Structural)]
pub enum GuestError {
    PtrOverflow,
    PtrOutOfBounds(Region),
    InvalidUtf8,
}

impl GuestError {
    /// The diagnostic message carried into the trap object for this error.
    pub open spec fn message_spec(self) -> Seq<char> {
        match self {
            GuestError::PtrOverflow => "guest pointer arithmetic overflow"@,
            GuestError::PtrOutOfBounds(_) => "guest pointer out of bounds"@,
            GuestError::InvalidUtf8 => "invalid utf-8 in guest memory"@,
        }
    }

    /// Renders the error as a human-readable message.
    pub fn describe(&self) -> (r: String)
        ensures
            r@ == self.message_spec(),
    {
        match self {
            GuestError::PtrOverflow => "guest pointer arithmetic overflow".to_owned(),
            GuestError::PtrOutOfBounds(_) => "guest pointer out of bounds".to_owned(),
            GuestError::InvalidUtf8 => "invalid utf-8 in guest memory".to_owned(),
        }
    }
}

#[verifier::external_type_specification]
#[verifier::external_body]
pub struct ExAnyhowError(anyhow::Error);

/// Relies on `anyhow::Error::msg`: it wraps an arbitrary message value into
/// the opaque error object that the surrounding runtime propagates as a trap.
/// Nothing is claimed of the resulting object.
#[verifier::external_body]
fn trap_from_message(msg: String) -> anyhow::Error {
    anyhow::Error::msg(msg)
}

/// Converts a structured guest-memory error into the opaque trap object that
/// aborts the current guest invocation at the host/guest call boundary.
pub fn to_trap(err: GuestError) -> anyhow::Error {
    trap_from_message(err.describe())
}

} // verus!

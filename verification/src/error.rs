use vstd::prelude::*;

verus! {

/// Failure taxonomy of the window-management surface.
///
/// Lookups that merely find nothing report it through an absent
/// `Option`, never through this type.
#[derive(Clone, Copy, Debug, PartialEq, Eq, Structural)]
pub enum WmError {
    /// The handle is the platform's null sentinel or could not be
    /// read from the boundary value.
    InvalidHandle,
    /// A non-handle input value was malformed.
    InvalidArgument,
    /// The OS refused the operation (permissions, focus-lock policy).
    PlatformDenied,
    /// The operation has no implementation on the current platform.
    Unsupported,
    /// The OS call itself failed for an unexpected reason.
    PlatformFailure,
}

} // verus!

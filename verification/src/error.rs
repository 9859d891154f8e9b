//! Error taxonomy for calls into a native web engine, and the translation of
//! raw native status codes into it.
//!
//! Every boundary-crossing call into a native engine reports an integer
//! status.  No raw status code crosses into abstraction-level code
//! untranslated: callers see a [`WebviewError`] kind, and an unrecognized
//! code is preserved verbatim in [`WebviewError::Unspecified`].

use vstd::prelude::*;

verus! {

/// Status code a native engine reports for a call that succeeded.
pub const NATIVE_STATUS_OK: i32 = 0;
/// Status code for a name that is already bound.
pub const NATIVE_STATUS_DUPLICATE: i32 = 1;
/// Status code for a name or request id that does not exist.
pub const NATIVE_STATUS_NOT_FOUND: i32 = 2;
/// Status code for a failure the engine does not classify further.
pub const NATIVE_STATUS_UNSPECIFIED: i32 = -1;
/// Status code for an argument the engine cannot accept.
pub const NATIVE_STATUS_INVALID_ARGUMENT: i32 = -2;
/// Status code for an operation that is invalid in the engine's current state.
pub const NATIVE_STATUS_INVALID_STATE: i32 = -3;
/// Status code for an operation the engine or its environment aborted.
pub const NATIVE_STATUS_CANCELED: i32 = -4;
/// Status code for a missing native runtime component.
pub const NATIVE_STATUS_MISSING_DEPENDENCY: i32 = -5;

/// The error kind every native-engine operation reports, uniform across all
/// backends.
#[derive(Clone, Copy, PartialEq, Eq, Structural, Debug)]
pub enum WebviewError {
    /// A required native engine or runtime component is unavailable.
    MissingDependency,
    /// The operation was aborted by the native engine or its environment.
    Canceled,
    /// The operation is not valid in the current lifecycle state, such as
    /// answering a request that was never dispatched or was already answered.
    InvalidState,
    /// A caller-supplied string or value cannot be encoded or is otherwise
    /// malformed.
    InvalidArgument,
    /// A native status code with no recognized mapping; the raw code is
    /// preserved for diagnostics.
    Unspecified(i32),
    /// The name is already bound or the resource is already registered.
    Duplicate,
    /// The referenced name or request id does not exist.
    NotFound,
}

/// The outcome that translating a native status code yields: success for the
/// success code, and otherwise the matching error kind, with unrecognized
/// codes preserved in `Unspecified`.
pub open spec fn spec_from_native(native: i32) -> Result<(), WebviewError> {
    if native == NATIVE_STATUS_OK {
        Ok(())
    } else if native == NATIVE_STATUS_DUPLICATE {
        Err(WebviewError::Duplicate)
    } else if native == NATIVE_STATUS_NOT_FOUND {
        Err(WebviewError::NotFound)
    } else if native == NATIVE_STATUS_INVALID_ARGUMENT {
        Err(WebviewError::InvalidArgument)
    } else if native == NATIVE_STATUS_INVALID_STATE {
        Err(WebviewError::InvalidState)
    } else if native == NATIVE_STATUS_CANCELED {
        Err(WebviewError::Canceled)
    } else if native == NATIVE_STATUS_MISSING_DEPENDENCY {
        Err(WebviewError::MissingDependency)
    } else {
        Err(WebviewError::Unspecified(native))
    }
}

impl WebviewError {
    /// Translates a raw native status code at the boundary, so that no
    /// untranslated code reaches abstraction-level code.
    pub fn from_native(native: i32) -> (r: Result<(), WebviewError>)
        ensures
            r == spec_from_native(native),
    {
        if native == NATIVE_STATUS_OK {
            Ok(())
        } else if native == NATIVE_STATUS_DUPLICATE {
            Err(WebviewError::Duplicate)
        } else if native == NATIVE_STATUS_NOT_FOUND {
            Err(WebviewError::NotFound)
        } else if native == NATIVE_STATUS_INVALID_ARGUMENT {
            Err(WebviewError::InvalidArgument)
        } else if native == NATIVE_STATUS_INVALID_STATE {
            Err(WebviewError::InvalidState)
        } else if native == NATIVE_STATUS_CANCELED {
            Err(WebviewError::Canceled)
        } else if native == NATIVE_STATUS_MISSING_DEPENDENCY {
            Err(WebviewError::MissingDependency)
        } else {
            Err(WebviewError::Unspecified(native))
        }
    }
}

} // verus!

//! Status codes, cursors and view-hint values.

use vstd::prelude::*;

verus! {

/// The closed set of outcome codes returned by every operation.
#[derive(Copy, Clone, Debug, PartialEq, Eq, Structural)]
pub enum Status {
    /// Success.
    Success,
    /// Non-fatal failure.
    Failure,
    /// Unknown system error.
    UnknownError,
    /// Invalid or missing backend.
    BadBackend,
    /// Invalid view configuration.
    BadConfiguration,
    /// Invalid parameter.
    BadParameter,
    /// Backend initialisation failed.
    BackendFailed,
    /// Class registration failed.
    RegistrationFailed,
    /// System view realization failed.
    RealizeFailed,
    /// Failed to set pixel format.
    SetFormatFailed,
    /// Failed to create drawing context.
    CreateContextFailed,
    /// Unsupported data type.
    UnsupportedType,
}

/// The available mouse cursors.
#[derive(Copy, Clone, Debug, PartialEq, Eq, Structural)]
pub enum Cursor {
    Arrow,
    Caret,
    CrossHair,
    Hand,
    No,
    LeftRight,
    UpDown,
}

impl Default for Cursor {
    /// The arrow cursor.
    fn default() -> (r: Cursor)
        ensures
            r == Cursor::Arrow,
    {
        Cursor::Arrow
    }
}

/// A boolean view hint: set, unset, or left to the system.
#[derive(Copy, Clone, Debug, PartialEq, Eq, Structural)]
pub enum ViewHintBool {
    True,
    False,
    DontCare,
}

/// An integer view hint: a value, or unknown/unsupported.
///
/// Negative native values mean unknown or unsupported, never a number.
#[derive(Copy, Clone, Debug, PartialEq, Eq, Structural)]
pub enum ViewHintInt {
    Value(u32),
    DontCare,
}

} // verus!

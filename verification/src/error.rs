//! Typed translation of the native library's integer status codes.
//!
//! Every native call returns a signed integer: zero means success, any
//! other value is an error. No raw code escapes the crate unwrapped;
//! the open functions surface each failure as one of the variants
//! below, tagged with the call that produced it.

use vstd::prelude::*;

verus! {

/// Status code the native layer returns when a blocking call was cut
/// short because the installed interrupt predicate asked for an abort.
pub const INTERRUPT_CODE: i32 = -0x5449_5845;

/// An error surfaced by an open or allocation sequence.
#[derive(Clone, Copy, Debug, PartialEq, Eq, Structural)]
pub enum Error {
    /// A native open or allocation call returned a non-zero status.
    OpenFailed { code: i32 },
    /// Stream-information discovery failed after the input was opened
    /// successfully; the just-opened context has to be released.
    ProbeFailed { code: i32 },
    /// The path holds an interior NUL byte and cannot be handed to the
    /// native layer as a C string.
    InvalidPath,
    /// The requested format name holds an interior NUL byte and cannot
    /// be handed to the native layer as a C string.
    InvalidFormatName,
}

impl Error {
    /// The native status code carried by this error, if it came from a
    /// native call at all.
    pub open spec fn spec_native_code(self) -> Option<i32> {
        match self {
            Error::OpenFailed { code } => Some(code),
            Error::ProbeFailed { code } => Some(code),
            Error::InvalidPath => None,
            Error::InvalidFormatName => None,
        }
    }

    /// True when the carried native code reports a caller-requested
    /// interruption rather than an ordinary failure.
    pub open spec fn spec_is_interrupt(self) -> bool {
        self.spec_native_code() == Some(INTERRUPT_CODE)
    }

    /// The native status code behind this error, if any.
    pub fn native_code(&self) -> (r: Option<i32>)
        ensures
            r == self.spec_native_code(),
    {
        match self {
            Error::OpenFailed { code } => Some(*code),
            Error::ProbeFailed { code } => Some(*code),
            Error::InvalidPath => None,
            Error::InvalidFormatName => None,
        }
    }

    /// Whether this error reports a caller-requested interruption.
    pub fn interrupted(&self) -> (r: bool)
        ensures
            r == self.spec_is_interrupt(),
    {
        match self.native_code() {
            Some(code) => code == INTERRUPT_CODE,
            None => false,
        }
    }
}

} // verus!

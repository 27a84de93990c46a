use vstd::prelude::*;

verus! {

/// The ways in which a call into the runtime can fail.
#[derive(Clone, Copy, Debug, PartialEq, Eq, Structural)]
pub enum XrError {
    /// The caller's input is malformed.
    ValidationFailure,
    /// The transport or the encoding of a message failed, or a reply did not come in time.
    RuntimeFailure,
    /// The loader and the runtime could not agree on an interface.
    InitializationFailed,
    /// A table of the runtime cannot hold another entry.
    LimitReached,
    /// The caller's buffer is too small for the result.
    SizeInsufficient,
    /// A handle is zero or names no live object.
    HandleInvalid,
    /// The requested class of device is not supported.
    FormFactorUnsupported,
    /// A session was asked for without a graphics binding, and headless operation was not
    /// enabled.
    GraphicsRequirementsCallMissing,
    /// No connection to the server could be made.
    RuntimeUnavailable,
}

/// The result code that reports success.
pub const SUCCESS: i32 = 0;

impl XrError {
    /// The result code that stands for this error at the interface.
    pub open spec fn spec_code(self) -> i32 {
        match self {
            XrError::ValidationFailure => -1i32,
            XrError::RuntimeFailure => -2i32,
            XrError::InitializationFailed => -6i32,
            XrError::LimitReached => -10i32,
            XrError::SizeInsufficient => -11i32,
            XrError::HandleInvalid => -12i32,
            XrError::FormFactorUnsupported => -34i32,
            XrError::GraphicsRequirementsCallMissing => -50i32,
            XrError::RuntimeUnavailable => -51i32,
        }
    }

    /// The result code that stands for this error at the interface.
    pub fn code(self) -> (code: i32)
        ensures
            code == self.spec_code(),
            code < 0,
    {
        match self {
            XrError::ValidationFailure => -1,
            XrError::RuntimeFailure => -2,
            XrError::InitializationFailed => -6,
            XrError::LimitReached => -10,
            XrError::SizeInsufficient => -11,
            XrError::HandleInvalid => -12,
            XrError::FormFactorUnsupported => -34,
            XrError::GraphicsRequirementsCallMissing => -50,
            XrError::RuntimeUnavailable => -51,
        }
    }
}

/// The single result code of an outcome: zero for success, the error's code otherwise.
pub open spec fn outcome_code(outcome: Result<(), XrError>) -> i32 {
    match outcome {
        Ok(_) => SUCCESS,
        Err(e) => e.spec_code(),
    }
}

/// Turns an outcome into the one result code that crosses the interface.
pub fn wrap_oxr(outcome: Result<(), XrError>) -> (code: i32)
    ensures
        code == outcome_code(outcome),
        code == SUCCESS <==> outcome is Ok,
{
    match outcome {
        Ok(_) => SUCCESS,
        Err(e) => e.code(),
    }
}

} // verus!

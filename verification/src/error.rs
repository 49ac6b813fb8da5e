//! The structured error channel: the closed status taxonomy the native
//! engine reports through, and the error value that pairs a status with the
//! human-readable diagnostic recovered from the engine's last-error slot.

use vstd::prelude::*;

verus! {

/// Status code returned by every fallible native call.
///
/// The taxonomy is closed: any integer code outside the documented set is
/// read as `SPVC_ERROR_UNKNOWN`.
#[allow(non_camel_case_types)]
#[derive(Clone, Copy, Debug, PartialEq, Eq, Structural)]
pub enum spvc_result {
    SPVC_SUCCESS,
    SPVC_ERROR_INVALID_SPIRV,
    SPVC_ERROR_UNSUPPORTED_SPIRV,
    SPVC_ERROR_OUT_OF_MEMORY,
    SPVC_ERROR_INVALID_ARGUMENT,
    SPVC_ERROR_UNKNOWN,
}

/// The status that a native integer code denotes: zero is success, the four
/// documented negative codes name their failures, and everything else is
/// unknown.
pub open spec fn spec_result_of_code(code: int) -> spvc_result {
    if code == 0 {
        spvc_result::SPVC_SUCCESS
    } else if code == -1 {
        spvc_result::SPVC_ERROR_INVALID_SPIRV
    } else if code == -2 {
        spvc_result::SPVC_ERROR_UNSUPPORTED_SPIRV
    } else if code == -3 {
        spvc_result::SPVC_ERROR_OUT_OF_MEMORY
    } else if code == -4 {
        spvc_result::SPVC_ERROR_INVALID_ARGUMENT
    } else {
        spvc_result::SPVC_ERROR_UNKNOWN
    }
}

impl spvc_result {
    /// Reads a raw integer status code from the native calling convention
    /// into the closed taxonomy.
    pub fn from_code(code: i32) -> (r: spvc_result)
        ensures
            r == spec_result_of_code(code as int),
    {
        match code {
            0 => spvc_result::SPVC_SUCCESS,
            -1 => spvc_result::SPVC_ERROR_INVALID_SPIRV,
            -2 => spvc_result::SPVC_ERROR_UNSUPPORTED_SPIRV,
            -3 => spvc_result::SPVC_ERROR_OUT_OF_MEMORY,
            -4 => spvc_result::SPVC_ERROR_INVALID_ARGUMENT,
            _ => spvc_result::SPVC_ERROR_UNKNOWN,
        }
    }

    /// The human-readable description of each status.
    pub open spec fn description_spec(self) -> Seq<char> {
        match self {
            spvc_result::SPVC_SUCCESS => "Success"@,
            spvc_result::SPVC_ERROR_INVALID_SPIRV => "Invalid SPIR-V"@,
            spvc_result::SPVC_ERROR_UNSUPPORTED_SPIRV => "Unsupported SPIR-V"@,
            spvc_result::SPVC_ERROR_OUT_OF_MEMORY => "Out of Memory"@,
            spvc_result::SPVC_ERROR_INVALID_ARGUMENT => "Invalid argument"@,
            spvc_result::SPVC_ERROR_UNKNOWN => "Unknown"@,
        }
    }

    /// Renders the status as its description.
    pub fn description(&self) -> (r: &'static str)
        ensures
            r@ == self.description_spec(),
    {
        match self {
            spvc_result::SPVC_SUCCESS => "Success",
            spvc_result::SPVC_ERROR_INVALID_SPIRV => "Invalid SPIR-V",
            spvc_result::SPVC_ERROR_UNSUPPORTED_SPIRV => "Unsupported SPIR-V",
            spvc_result::SPVC_ERROR_OUT_OF_MEMORY => "Out of Memory",
            spvc_result::SPVC_ERROR_INVALID_ARGUMENT => "Invalid argument",
            spvc_result::SPVC_ERROR_UNKNOWN => "Unknown",
        }
    }

    /// Whether the status reports success.
    pub fn is_success(&self) -> (r: bool)
        ensures
            r == (*self is SPVC_SUCCESS),
    {
        match self {
            spvc_result::SPVC_SUCCESS => true,
            _ => false,
        }
    }
}

/// A failure reported by the native engine: a status code from the closed
/// taxonomy, optionally carrying the diagnostic string recovered from the
/// engine when the failure was observed.
///
/// Success is never represented as an `Error` value: every function of this
/// crate that can fail returns `Result<_, Error>`, and builds an `Error` only
/// from a non-success status.
#[derive(Debug, Clone)]
pub struct Error {
    pub code: spvc_result,
    pub err_msg: Option<String>,
}

impl Error {
    /// The rendering of the error: `"{status-description}: {message}"` when a
    /// message exists, else just the status description.
    pub open spec fn display_spec(&self) -> Seq<char> {
        match self.err_msg {
            Some(m) => self.code.description_spec() + ": "@ + m@,
            None => self.code.description_spec(),
        }
    }

    /// Renders the error for display.
    pub fn display_string(&self) -> (r: String)
        ensures
            r@ == self.display_spec(),
    {
        let mut s = String::from_str(self.code.description());
        match &self.err_msg {
            Some(m) => {
                s.append(": ");
                s.append(m.as_str());
            },
            None => {},
        }
        s
    }
}

impl From<spvc_result> for Error {
    /// Wraps a bare status code with no recovered message.
    fn from(code: spvc_result) -> (r: Error) {
        Error { code, err_msg: None }
    }
}

impl vstd::std_specs::convert::FromSpecImpl<spvc_result> for Error {
    open spec fn obeys_from_spec() -> bool {
        true
    }

    open spec fn from_spec(code: spvc_result) -> Error {
        Error { code, err_msg: None }
    }
}

impl From<Error> for spvc_result {
    /// The status code the error was built from.
    fn from(value: Error) -> (r: spvc_result) {
        value.code
    }
}

impl vstd::std_specs::convert::FromSpecImpl<Error> for spvc_result {
    open spec fn obeys_from_spec() -> bool {
        true
    }

    open spec fn from_spec(value: Error) -> spvc_result {
        value.code
    }
}

} // verus!

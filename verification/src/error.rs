//! The error that every fallible operation returns, and the kernel replies
//! that it is read from.

use crate::text::{push_signed, signed};
use vstd::prelude::*;
use vstd::string::StringExecFns;
use vstd::std_specs::convert::{FromSpec, FromSpecImpl};

verus! {

/// An error code of the operating system, as the process held it right
/// after a failed call.
#[derive(Clone, Copy, Debug, PartialEq, Eq, Structural)]
pub struct SysError(pub i32);

impl SysError {
    /// The error as text: its code in decimal digits, and a place for the
    /// reason, which is left open.
    pub fn to_string(&self) -> (r: String)
        ensures
            r@ == "Code="@ + signed(self.0 as int) + ", Reason=\"{}\")"@,
    {
        let mut r = String::from_str("Code=");
        push_signed(&mut r, self.0);
        r.append(", Reason=\"{}\")");
        r
    }
}

impl Default for SysError {
    /// The code zero.
    fn default() -> (r: SysError)
        ensures
            r == SysError(0),
    {
        SysError(0)
    }
}

impl From<i32> for SysError {
    /// Wraps a code.
    fn from(code: i32) -> (r: SysError)
        ensures
            r == SysError(code),
    {
        SysError(code)
    }
}

impl FromSpecImpl<i32> for SysError {
    open spec fn obeys_from_spec() -> bool {
        true
    }

    open spec fn from_spec(code: i32) -> SysError {
        SysError(code)
    }
}

impl From<SysError> for i32 {
    /// The code that the error wraps.
    fn from(error: SysError) -> (code: i32)
        ensures
            code == error.0,
    {
        error.0
    }
}

impl FromSpecImpl<SysError> for i32 {
    open spec fn obeys_from_spec() -> bool {
        true
    }

    open spec fn from_spec(error: SysError) -> i32 {
        error.0
    }
}

/// Wrapping a code and unwrapping it again gives the code back, and the
/// other way round.
pub proof fn law_code_round_trip(code: i32, error: SysError)
    ensures
        ({
            let wrapped = <SysError as FromSpec<i32>>::from_spec(code);
            let unwrapped = <i32 as FromSpec<SysError>>::from_spec(error);
            &&& <i32 as FromSpec<SysError>>::from_spec(wrapped) == code
            &&& <SysError as FromSpec<i32>>::from_spec(unwrapped) == error
        }),
{
}

/// What a kernel call left behind: the value that it returned, and the
/// error code that the process held right after it.
#[derive(Clone, Copy, Debug, PartialEq, Eq, Structural)]
pub struct Reply {
    pub value: i32,
    pub errno: i32,
}

impl Reply {
    /// What the reply amounts to: the returned value, or, where that is
    /// negative, the error code.
    pub open spec fn outcome(self) -> Result<i32, SysError> {
        if self.value < 0 {
            Err(SysError(self.errno))
        } else {
            Ok(self.value)
        }
    }

    /// The returned value of a call that succeeded, the error of one that
    /// failed.
    pub fn check(self) -> (r: Result<i32, SysError>)
        ensures
            r == self.outcome(),
    {
        if self.value < 0 {
            Err(SysError(self.errno))
        } else {
            Ok(self.value)
        }
    }
}

/// What an operation returns that has no value to give: success, or the
/// error of a call that failed.
pub open spec fn status(reply: Reply) -> Result<(), SysError> {
    match reply.outcome() {
        Ok(_) => Ok(()),
        Err(error) => Err(error),
    }
}

} // verus!

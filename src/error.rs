use vstd::prelude::*;

verus! {

/// The system error number for "no such file or directory", which this
/// library reports for a descriptor that is not watched.
pub const NOT_FOUND: i32 = 2;

/// A system error: the numeric failure code the kernel reported, or the
/// library's own "not found".
#[derive(Clone, Copy, Debug, PartialEq, Eq, Structural)]
pub struct SysError {
    code: i32,
}

impl SysError {
    /// The error number this error carries.
    pub closed spec fn errno(self) -> i32 {
        self.code
    }

    /// The error carrying error number `code`.
    pub fn from_code(code: i32) -> (r: SysError)
        ensures
            r == SysError::from_errno(code),
            r.errno() == code,
    {
        SysError { code }
    }

    /// The "not found" error.
    pub fn not_found() -> (r: SysError)
        ensures
            r == SysError::from_errno(NOT_FOUND),
            r.errno() == NOT_FOUND,
    {
        SysError { code: NOT_FOUND }
    }

    pub fn code(&self) -> (r: i32)
        ensures
            r == self.errno(),
    {
        self.code
    }

    pub fn is_not_found(&self) -> (r: bool)
        ensures
            r == (self.errno() == NOT_FOUND),
    {
        self.code == NOT_FOUND
    }

    /// Reads the outcome of a system call by the kernel's convention: a
    /// negative return value is a failure, whose cause is `errno`; any other
    /// value is the call's result.
    pub fn check(ret: i32, errno: i32) -> (r: Result<i32, SysError>)
        ensures
            outcome(ret, errno) == r,
    {
        if ret < 0 {
            Err(SysError::from_code(errno))
        } else {
            Ok(ret)
        }
    }

    /// The human-readable meaning of the error number.
    pub fn message(&self) -> String {
        os_error_text(self.code)
    }
}

/// The outcome of a system call that returned `ret`, with `errno` the error
/// number it left.
pub open spec fn outcome(ret: i32, errno: i32) -> Result<i32, SysError> {
    if ret < 0 {
        Err(SysError::from_errno(errno))
    } else {
        Ok(ret)
    }
}

impl SysError {
    /// The error carrying error number `code`, in specifications.
    pub closed spec fn from_errno(code: i32) -> SysError {
        SysError { code }
    }

    /// The error made from a number carries that number.
    pub broadcast proof fn lemma_from_errno(code: i32)
        ensures
            #[trigger] SysError::from_errno(code).errno() == code,
    {
    }
}

impl From<i32> for SysError {
    /// The error carrying error number `code`.
    fn from(code: i32) -> (r: SysError) {
        SysError::from_code(code)
    }
}

impl vstd::std_specs::convert::FromSpecImpl<i32> for SysError {
    open spec fn obeys_from_spec() -> bool {
        true
    }

    open spec fn from_spec(code: i32) -> SysError {
        SysError::from_errno(code)
    }
}

/// Relies on std::io::Error::from_raw_os_error and its `Display`: the
/// operating system's description of an error number. Nothing is stated of
/// the text, which depends on the platform.
#[verifier::external_body]
fn os_error_text(code: i32) -> String {
    format!("{}", std::io::Error::from_raw_os_error(code))
}

} // verus!

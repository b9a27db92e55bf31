//! Errors raised while serving a native call, and how enclave status codes
//! become them.

use vstd::prelude::*;

verus! {

/// Class of the exception thrown for enclave failures.
pub const SGX_EXCEPTION_CLASS: &'static str = "org/whispersystems/contactdiscovery/enclave/SgxException";

/// Constructor signature of `SgxException(String name, long code)`.
pub const SGX_EXCEPTION_CSTOR: &'static str = "(Ljava/lang/String;J)V";

/// Class of the generic runtime exception.
pub const RUNTIME_EXCEPTION_CLASS: &'static str = "java/lang/RuntimeException";

/// Class of the exception thrown for null arguments.
pub const NULL_POINTER_EXCEPTION_CLASS: &'static str = "java/lang/NullPointerException";

/// A failure of a native call, as it will be reported to Java.
#[derive(Debug)]
pub enum PossibleError {
    /// Throw a new exception of `class` with message `msg`.
    Generic { class: String, msg: String },
    /// Throw an `SgxException` naming the failed enclave call and its code.
    SgxError { name: &'static str, code: i64 },
    /// A JNI call failed; the JVM already holds the exception to report.
    AlreadyThrown,
}

/// Builds a `Generic` error from a class name and a message.
pub fn generic_exception(class: &str, msg: &str) -> (res: PossibleError)
    ensures
        res matches PossibleError::Generic { class: c, msg: m } && c@ == class@ && m@ == msg@,
{
    PossibleError::Generic { class: String::from_str(class), msg: String::from_str(msg) }
}

/// A JNI call that returned an error. What went wrong is left to the JVM,
/// which holds the pending exception when there is one.
#[derive(Debug)]
pub struct JniFailed;

/// How a native call failed: with an error to report, or by a panic of the
/// native code (which the entry point catches).
#[derive(Debug)]
pub enum Fault {
    Raised(PossibleError),
    Panicked,
}

/// Status of an SGX SDK call: success, one of the SDK's known error codes,
/// or a code the SDK does not know.
#[derive(Debug)]
pub enum SgxStatus {
    Success,
    Error(u32),
    Unknown(u32),
}

/// A failed call into the enclave: the name of the call and its status.
#[derive(Debug)]
pub struct SgxsdError {
    pub name: &'static str,
    pub status: SgxStatus,
}

/// The numeric code of a status.
pub open spec fn status_code(status: SgxStatus) -> i64 {
    match status {
        SgxStatus::Success => 0,
        SgxStatus::Error(code) => code as i64,
        SgxStatus::Unknown(code) => code as i64,
    }
}

/// The message of the error made from a successful status reported as a
/// failure of the call `name`.
pub open spec fn success_as_error_msg(name: Seq<char>) -> Seq<char> {
    "SgxStatus was a Success but returned as an error in"@ + name
}

/// Turns the status of the SDK call `name` into an error: a failing status
/// becomes an `SgxError` with its code; a successful one, which should not
/// have been reported as a failure, becomes a `RuntimeException`.
pub fn sgxstatus_to_possibleerror(name: &'static str, status: SgxStatus) -> (res: PossibleError)
    ensures
        match status {
            SgxStatus::Success => res matches PossibleError::Generic { class, msg } && class@
                == RUNTIME_EXCEPTION_CLASS@ && msg@ == success_as_error_msg(name@),
            _ => res == (PossibleError::SgxError { name, code: status_code(status) }),
        },
{
    match status {
        SgxStatus::Success => PossibleError::Generic {
            class: String::from_str(RUNTIME_EXCEPTION_CLASS),
            msg: String::from_str("SgxStatus was a Success but returned as an error in").concat(
                name,
            ),
        },
        SgxStatus::Error(err) => PossibleError::SgxError { name: name, code: err as i64 },
        SgxStatus::Unknown(code) => PossibleError::SgxError { name: name, code: code as i64 },
    }
}

impl PossibleError {
    /// The error reported for a failed enclave call. A failure carrying a
    /// successful status is a broken invariant of the enclave interface and
    /// is not accepted.
    pub fn from_sgxsd_error(e: SgxsdError) -> (res: PossibleError)
        requires
            !(e.status is Success),
        ensures
            res == (PossibleError::SgxError { name: e.name, code: status_code(e.status) }),
    {
        let name = e.name;
        let code: i64 = match e.status {
            SgxStatus::Error(err) => err as i64,
            SgxStatus::Unknown(code) => code as i64,
            SgxStatus::Success => 0,
        };
        PossibleError::SgxError { name: name, code: code }
    }
}

/// The fault of a failed enclave call as the native code experiences it:
/// an `SgxError`, or a panic when the failure carries a successful status.
pub open spec fn spec_sgxsd_fault(e: SgxsdError) -> Fault {
    if e.status is Success {
        Fault::Panicked
    } else {
        Fault::Raised(PossibleError::SgxError { name: e.name, code: status_code(e.status) })
    }
}

/// Converts a failed enclave call into its fault.
pub fn sgxsd_fault(e: SgxsdError) -> (res: Fault)
    ensures
        res == spec_sgxsd_fault(e),
{
    match e.status {
        SgxStatus::Success => Fault::Panicked,
        _ => Fault::Raised(PossibleError::from_sgxsd_error(e)),
    }
}

/// `f` raises a new exception of the class `class` with message `msg`.
pub open spec fn is_generic_fault(f: Fault, class: Seq<char>, msg: Seq<char>) -> bool {
    f matches Fault::Raised(PossibleError::Generic { class: c, msg: m }) && c@ == class && m@ == msg
}

/// The fault of a failed JNI call.
pub open spec fn jni_fault() -> Fault {
    Fault::Raised(PossibleError::AlreadyThrown)
}

/// `f` raises an `SgxException` with the given name and code.
pub open spec fn is_sgx_fault(f: Fault, name: Seq<char>, code: i64) -> bool {
    f matches Fault::Raised(PossibleError::SgxError { name: n, code: c }) && n@ == name && c == code
}

/// The result of an enclave call as the native code sees it.
pub open spec fn spec_enclave_outcome<T>(r: Result<T, SgxsdError>) -> Result<T, Fault> {
    match r {
        Ok(v) => Ok(v),
        Err(e) => Err(spec_sgxsd_fault(e)),
    }
}

/// Maps the error of an enclave call to its fault.
pub fn enclave_outcome<T>(r: Result<T, SgxsdError>) -> (res: Result<T, Fault>)
    ensures
        res == spec_enclave_outcome(r),
{
    match r {
        Ok(v) => Ok(v),
        Err(e) => Err(sgxsd_fault(e)),
    }
}

} // verus!

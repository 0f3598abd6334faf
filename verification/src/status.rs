//! Status codes of libfswatch and the library's error type.
use vstd::prelude::*;

verus! {

/// The C API's status code for success.
pub const FSW_OK: i32 = 0;
/// An error the C API does not describe further.
pub const FSW_ERR_UNKNOWN_ERROR: i32 = 1;
/// The session is unknown.
pub const FSW_ERR_SESSION_UNKNOWN: i32 = 2;
/// A monitor already exists for the session.
pub const FSW_ERR_MONITOR_ALREADY_EXISTS: i32 = 4;
/// A memory error.
pub const FSW_ERR_MEMORY: i32 = 8;
/// The monitor type is unknown.
pub const FSW_ERR_UNKNOWN_MONITOR_TYPE: i32 = 16;
/// No callback was set.
pub const FSW_ERR_CALLBACK_NOT_SET: i32 = 32;
/// No path was set.
pub const FSW_ERR_PATHS_NOT_SET: i32 = 64;
/// The context is missing.
pub const FSW_ERR_MISSING_CONTEXT: i32 = 128;
/// A path is invalid.
pub const FSW_ERR_INVALID_PATH: i32 = 256;
/// The callback is invalid.
pub const FSW_ERR_INVALID_CALLBACK: i32 = 512;
/// The latency is invalid.
pub const FSW_ERR_INVALID_LATENCY: i32 = 1024;
/// A regular expression is invalid.
pub const FSW_ERR_INVALID_REGEX: i32 = 2048;
/// The monitor is already running.
pub const FSW_ERR_MONITOR_ALREADY_RUNNING: i32 = 4096;
/// A value is unknown.
pub const FSW_ERR_UNKNOWN_VALUE: i32 = 8192;
/// A property is invalid.
pub const FSW_ERR_INVALID_PROPERTY: i32 = 16384;

/// Status codes from fswatch.
///
/// Most operations return a status code, either `Ok` or an error. A successful operation that
/// returns `Ok` is represented by returning `Ok(T)`, where `T` is data returned, if any. If no data
/// is returned, `()` is `T`.
///
/// Errors are represented by `Err(FswStatus)`, with the status returned by the operation being
/// directly available inside the `Err`.
#[derive(Debug, PartialEq, Eq, Structural, Clone, Copy)]
pub enum FswStatus {
    /// No error.
    NoError,
    /// Occasionally used by the library to denote errors without status codes in fswatch.
    UnknownError,
    SessionUnknown,
    MonitorAlreadyExists,
    Memory,
    UnknownMonitorType,
    CallbackNotSet,
    PathsNotSet,
    MissingContext,
    InvalidPath,
    InvalidCallback,
    InvalidLatency,
    InvalidRegex,
    MonitorAlreadyRunning,
    UnknownValue,
    InvalidProprety,
}

/// The code that the C API uses for each status.
pub open spec fn status_code(s: FswStatus) -> i32 {
    match s {
        FswStatus::NoError => FSW_OK,
        FswStatus::UnknownError => FSW_ERR_UNKNOWN_ERROR,
        FswStatus::SessionUnknown => FSW_ERR_SESSION_UNKNOWN,
        FswStatus::MonitorAlreadyExists => FSW_ERR_MONITOR_ALREADY_EXISTS,
        FswStatus::Memory => FSW_ERR_MEMORY,
        FswStatus::UnknownMonitorType => FSW_ERR_UNKNOWN_MONITOR_TYPE,
        FswStatus::CallbackNotSet => FSW_ERR_CALLBACK_NOT_SET,
        FswStatus::PathsNotSet => FSW_ERR_PATHS_NOT_SET,
        FswStatus::MissingContext => FSW_ERR_MISSING_CONTEXT,
        FswStatus::InvalidPath => FSW_ERR_INVALID_PATH,
        FswStatus::InvalidCallback => FSW_ERR_INVALID_CALLBACK,
        FswStatus::InvalidLatency => FSW_ERR_INVALID_LATENCY,
        FswStatus::InvalidRegex => FSW_ERR_INVALID_REGEX,
        FswStatus::MonitorAlreadyRunning => FSW_ERR_MONITOR_ALREADY_RUNNING,
        FswStatus::UnknownValue => FSW_ERR_UNKNOWN_VALUE,
        FswStatus::InvalidProprety => FSW_ERR_INVALID_PROPERTY,
    }
}

/// Whether some status has the given code.
pub open spec fn is_known_code(code: i32) -> bool {
    exists|s: FswStatus| #[trigger] status_code(s) == code
}

/// The status a code stands for: the status whose code it is, and `UnknownError` for a code that
/// no status has.
pub open spec fn status_from_code(code: i32) -> FswStatus {
    if is_known_code(code) {
        choose|s: FswStatus| #[trigger] status_code(s) == code
    } else {
        FswStatus::UnknownError
    }
}

/// No two statuses share a code.
pub proof fn lemma_status_code_injective(a: FswStatus, b: FswStatus)
    ensures
        status_code(a) == status_code(b) ==> a == b,
{
}

/// A status's code stands for that status again.
pub proof fn lemma_status_code_round_trip(s: FswStatus)
    ensures
        status_from_code(status_code(s)) == s,
{
    let c = choose|t: FswStatus| #[trigger] status_code(t) == status_code(s);
    lemma_status_code_injective(c, s);
}

/// The code of the status that a code stands for is that code, unless no status has the code, in
/// which case the status is `UnknownError`.
pub proof fn lemma_status_from_code_exact(code: i32)
    ensures
        status_code(status_from_code(code)) == code || (status_from_code(code)
            == FswStatus::UnknownError && !is_known_code(code)),
{
}

impl FswStatus {
    proof fn lemma_from_known(s: FswStatus, code: i32)
        requires
            status_code(s) == code,
        ensures
            status_from_code(code) == s,
    {
        lemma_status_code_round_trip(s);
    }
}

impl From<i32> for FswStatus {
    /// Converts from the C API's status code into `FswStatus`.
    ///
    /// This should never need to be used if utilizing the wrappers. If given an unknown code,
    /// this will default to `UnknownError`.
    fn from(status: i32) -> (r: FswStatus) {
        let r = if status == FSW_OK {
            FswStatus::NoError
        } else if status == FSW_ERR_SESSION_UNKNOWN {
            FswStatus::SessionUnknown
        } else if status == FSW_ERR_MONITOR_ALREADY_EXISTS {
            FswStatus::MonitorAlreadyExists
        } else if status == FSW_ERR_MEMORY {
            FswStatus::Memory
        } else if status == FSW_ERR_UNKNOWN_MONITOR_TYPE {
            FswStatus::UnknownMonitorType
        } else if status == FSW_ERR_CALLBACK_NOT_SET {
            FswStatus::CallbackNotSet
        } else if status == FSW_ERR_PATHS_NOT_SET {
            FswStatus::PathsNotSet
        } else if status == FSW_ERR_MISSING_CONTEXT {
            FswStatus::MissingContext
        } else if status == FSW_ERR_INVALID_PATH {
            FswStatus::InvalidPath
        } else if status == FSW_ERR_INVALID_CALLBACK {
            FswStatus::InvalidCallback
        } else if status == FSW_ERR_INVALID_LATENCY {
            FswStatus::InvalidLatency
        } else if status == FSW_ERR_INVALID_REGEX {
            FswStatus::InvalidRegex
        } else if status == FSW_ERR_MONITOR_ALREADY_RUNNING {
            FswStatus::MonitorAlreadyRunning
        } else if status == FSW_ERR_UNKNOWN_VALUE {
            FswStatus::UnknownValue
        } else if status == FSW_ERR_INVALID_PROPERTY {
            FswStatus::InvalidProprety
        } else {
            FswStatus::UnknownError
        };
        proof {
            if status_code(r) == status {
                FswStatus::lemma_from_known(r, status);
            } else {
                assert(!is_known_code(status)) by {
                    if is_known_code(status) {
                        let s = choose|s: FswStatus| #[trigger] status_code(s) == status;
                        assert(status_code(s) == status);
                    }
                }
            }
        }
        r
    }
}

impl vstd::std_specs::convert::FromSpecImpl<i32> for FswStatus {
    open spec fn obeys_from_spec() -> bool {
        true
    }

    open spec fn from_spec(v: i32) -> FswStatus {
        status_from_code(v)
    }
}

/// The error of building a C string from text that holds a nul byte: where the first nul byte
/// stands, and the bytes that held it.
#[derive(Debug, PartialEq, Eq)]
pub struct NulError {
    /// The index of the first nul byte.
    pub position: usize,
    /// The bytes that were to become the C string.
    pub bytes: Vec<u8>,
}

/// An error in the library.
#[derive(Debug, PartialEq, Eq)]
pub enum FswError {
    /// An error from fswatch.
    FromFsw(FswStatus),
    /// An error encountered when working with C strings.
    NulError(NulError),
    /// An error indicating that required parameters were missing.
    MissingRequiredParameters,
}

/// The result of the library's operations.
pub type FswResult<T> = Result<T, FswError>;

/// What an operation that returned `code` gives back: `ret` on success, else the status as an
/// error.
pub open spec fn result_of_code<T>(ret: T, code: i32) -> FswResult<T> {
    if code == FSW_OK {
        Ok(ret)
    } else {
        Err(FswError::FromFsw(status_from_code(code)))
    }
}

/// Maps a status code of the C API to a result: `Ok(ret)` for success, else the status.
pub fn map_result<T>(ret: T, result: i32) -> (r: FswResult<T>)
    ensures
        r == result_of_code(ret, result),
{
    let status = FswStatus::from(result);
    match status {
        FswStatus::NoError => {
            proof {
                lemma_status_from_code_exact(result);
            }
            Ok(ret)
        },
        _ => {
            proof {
                lemma_status_code_round_trip(FswStatus::NoError);
            }
            Err(FswError::FromFsw(status))
        },
    }
}

/// A code stands for success exactly when it is the success code.
pub proof fn lemma_ok_only_for_success_code(code: i32)
    ensures
        (status_from_code(code) == FswStatus::NoError) <==> (code == FSW_OK),
        result_of_code((), code) is Ok <==> code == FSW_OK,
{
    lemma_status_from_code_exact(code);
    lemma_status_code_round_trip(FswStatus::NoError);
}

/// An error result carries the status its code stands for: a status's own code, other than the
/// success code, comes back as that very status, and any code but success comes back as an error
/// whose status has that code, or `UnknownError` for a code no status has.
pub proof fn lemma_error_carries_status<T>(ret: T, code: i32, s: FswStatus)
    ensures
        status_code(s) != FSW_OK ==> result_of_code(ret, status_code(s)) == Err::<T, FswError>(
            FswError::FromFsw(s),
        ),
        code == FSW_OK ==> result_of_code(ret, code) == Ok::<T, FswError>(ret),
        code != FSW_OK ==> (result_of_code(ret, code) matches Err(FswError::FromFsw(t)) && (
        status_code(t) == code || (t == FswStatus::UnknownError && !is_known_code(code)))),
{
    lemma_status_code_round_trip(s);
    lemma_status_from_code_exact(code);
}

} // verus!

use vstd::prelude::*;

use crate::error::IoError;
use crate::error::MpdError;
use crate::error::MpdErrorKind;
use crate::error::spec_server_error;
use crate::error::server_error_from_code;

verus! {

/// The closed set of codes that the native library's last-error query
/// reports, with the numbering of its C enumeration.
pub const MPD_ERROR_SUCCESS: u32 = 0;

pub const MPD_ERROR_OOM: u32 = 1;

pub const MPD_ERROR_ARGUMENT: u32 = 2;

pub const MPD_ERROR_STATE: u32 = 3;

pub const MPD_ERROR_TIMEOUT: u32 = 4;

pub const MPD_ERROR_SYSTEM: u32 = 5;

pub const MPD_ERROR_RESOLVER: u32 = 6;

// The native numbering reserves 7 for a malformed-response code that lies
// outside the closed set this layer supports; like every unsupported code it
// classifies as a contract violation, never as a recoverable error.
pub const MPD_ERROR_CLOSED: u32 = 8;

pub const MPD_ERROR_SERVER: u32 = 9;

/// What the owner of the native connection resource must do after a native
/// call, as decided from the resource's error report.
pub enum ErrorAction {
    /// The resource reports the no-error code: the call succeeded.
    Proceed,
    /// The resource reports that it ran out of memory. The native library
    /// guarantees nothing from this point on, so by policy the process must
    /// be terminated, not handed an error value.
    OutOfMemory,
    /// A code outside the supported closed set: the raw symbol surface and
    /// this layer have drifted apart. A fatal, unreachable-by-contract
    /// condition, never a recoverable error.
    UnknownCode,
    /// A recoverable failure, already translated into the typed error model.
    Fail(MpdError),
}

/// Whether a native error code translates into a recoverable error.
pub open spec fn spec_recoverable(code: u32) -> bool {
    ||| code == MPD_ERROR_ARGUMENT
    ||| code == MPD_ERROR_STATE
    ||| code == MPD_ERROR_TIMEOUT
    ||| code == MPD_ERROR_SYSTEM
    ||| code == MPD_ERROR_RESOLVER
    ||| code == MPD_ERROR_CLOSED
    ||| code == MPD_ERROR_SERVER
}

/// The error kind that a recoverable native error code translates to.
/// `system_errno` is read only for the system code, `server_code` only for
/// the server code.
pub open spec fn spec_translated_kind(code: u32, system_errno: i32, server_code: i32) -> MpdErrorKind
    recommends
        spec_recoverable(code),
{
    if code == MPD_ERROR_ARGUMENT || code == MPD_ERROR_STATE {
        MpdErrorKind::Arguments
    } else if code == MPD_ERROR_TIMEOUT {
        MpdErrorKind::Io(IoError::TimedOut)
    } else if code == MPD_ERROR_SYSTEM {
        MpdErrorKind::Io(IoError::Os(system_errno))
    } else if code == MPD_ERROR_RESOLVER {
        MpdErrorKind::UnknownHost
    } else if code == MPD_ERROR_CLOSED {
        MpdErrorKind::Io(IoError::ConnectionAborted)
    } else {
        MpdErrorKind::Server(spec_server_error(server_code))
    }
}

/// Translates one error report of the native resource into the action its
/// owner must take.
///
/// `code` is the resource's last-error code, `errmsg` the message retrieved
/// with it, `system_errno` the operating-system error number (meaningful only
/// with the system code) and `server_code` the daemon's numeric sub-code
/// (meaningful only with the server code).
///
/// Success is reported exactly on the no-error code; every recoverable code
/// yields an error of the kind `spec_translated_kind` gives, carrying the
/// native message unchanged; the out-of-memory code and any code outside the
/// closed set yield the two fatal actions. The argument and internal-state
/// codes report misuse of the native interface; both surface through the
/// invalid-arguments kind rather than being absorbed, so no recoverable
/// error is silently swallowed.
pub fn translate_error(code: u32, errmsg: String, system_errno: i32, server_code: i32) -> (r:
    ErrorAction)
    ensures
        r is Proceed <==> code == MPD_ERROR_SUCCESS,
        r is OutOfMemory <==> code == MPD_ERROR_OOM,
        r is Fail <==> spec_recoverable(code),
        r is UnknownCode <==> !(code == MPD_ERROR_SUCCESS || code == MPD_ERROR_OOM
            || spec_recoverable(code)),
        r matches ErrorAction::Fail(e) ==> e.kind == spec_translated_kind(
            code,
            system_errno,
            server_code,
        ) && e.errmsg@ == errmsg@,
{
    if code == MPD_ERROR_SUCCESS {
        ErrorAction::Proceed
    } else if code == MPD_ERROR_OOM {
        ErrorAction::OutOfMemory
    } else if code == MPD_ERROR_ARGUMENT || code == MPD_ERROR_STATE {
        ErrorAction::Fail(MpdError { kind: MpdErrorKind::Arguments, errmsg })
    } else if code == MPD_ERROR_TIMEOUT {
        ErrorAction::Fail(MpdError { kind: MpdErrorKind::Io(IoError::TimedOut), errmsg })
    } else if code == MPD_ERROR_SYSTEM {
        ErrorAction::Fail(
            MpdError { kind: MpdErrorKind::Io(IoError::Os(system_errno)), errmsg },
        )
    } else if code == MPD_ERROR_RESOLVER {
        ErrorAction::Fail(MpdError { kind: MpdErrorKind::UnknownHost, errmsg })
    } else if code == MPD_ERROR_CLOSED {
        ErrorAction::Fail(
            MpdError { kind: MpdErrorKind::Io(IoError::ConnectionAborted), errmsg },
        )
    } else if code == MPD_ERROR_SERVER {
        ErrorAction::Fail(
            MpdError {
                kind: MpdErrorKind::Server(server_error_from_code(server_code)),
                errmsg,
            },
        )
    } else {
        ErrorAction::UnknownCode
    }
}

/// Whenever the native resource reports the timeout code, the translated
/// error's kind is the I/O kind with the timed-out subtype, whatever the
/// errno and sub-code inputs are; `translate_error` carries the native
/// message over unchanged, so the error's message is non-empty whenever the
/// retrieved message is.
pub proof fn lemma_timeout_translates_to_io_timed_out(system_errno: i32, server_code: i32)
    ensures
        spec_translated_kind(MPD_ERROR_TIMEOUT, system_errno, server_code) == MpdErrorKind::Io(
            IoError::TimedOut,
        ),
{
}

/// Whenever the native resource reports the system code together with an
/// operating-system error number, the translated error wraps exactly that
/// number.
pub proof fn lemma_system_error_wraps_errno(system_errno: i32, server_code: i32)
    ensures
        spec_translated_kind(MPD_ERROR_SYSTEM, system_errno, server_code) == MpdErrorKind::Io(
            IoError::Os(system_errno),
        ),
{
}

/// Whether a host string holds an embedded null character. The native
/// constructor takes the host as a null-terminated string, so such a host
/// cannot be represented and handing it over is a caller error that must be
/// rejected before any native call.
pub fn host_has_interior_nul(host: &str) -> (r: bool)
    ensures
        r == exists|i: int| 0 <= i < host@.len() && host@[i] == '\0',
{
    let n: usize = host.unicode_len();
    let mut i: usize = 0;
    while i < n
        invariant
            i <= n,
            n == host@.len(),
            forall|j: int| 0 <= j < i ==> host@[j] != '\0',
        decreases n - i,
    {
        if host.get_char(i) == '\0' {
            assert(host@[i as int] == '\0');
            return true;
        }
        i = i + 1;
    }
    false
}

} // verus!

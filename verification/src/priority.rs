//! The thread-priority controller: reading and setting the calling thread's
//! scheduling niceness, for cooperative down-prioritising of background
//! work. Raising priority commonly needs a capability unprivileged
//! processes lack, so a permission failure is distinguishable and callers
//! are expected to carry on at their previous priority.

use vstd::prelude::*;

verus! {

/// The most favourable priority a caller may request.
pub const HIGH_PRI: i32 = -1;

/// The errno for an operation forbidden to the caller.
pub const EPERM_CODE: i32 = 1;

/// The errno for insufficient privilege.
pub const EACCES_CODE: i32 = 13;

/// An operating-system failure: either a recognisable lack of privilege, or
/// any other failure with its raw errno.
#[derive(Copy, Clone, Debug, PartialEq, Eq, Structural)]
pub enum OsError {
    PermissionDenied,
    Other(i32),
}

/// How a raw errno is classified: the two privilege errnos become
/// [`OsError::PermissionDenied`], everything else stays raw.
pub open spec fn spec_classify_errno(e: i32) -> OsError {
    if e == EPERM_CODE || e == EACCES_CODE {
        OsError::PermissionDenied
    } else {
        OsError::Other(e)
    }
}

/// Classifies a raw errno from a priority call.
pub fn classify_errno(e: i32) -> (r: OsError)
    ensures
        r == spec_classify_errno(e),
{
    if e == EPERM_CODE || e == EACCES_CODE {
        OsError::PermissionDenied
    } else {
        OsError::Other(e)
    }
}

/// Relies on `rustix::process::setpriority_process` with no process id: sets
/// the calling thread's scheduling niceness; a failure carries the raw OS
/// errno.
#[verifier::external_body]
fn set_thread_niceness(pri: i32) -> (r: Result<(), i32>) {
    rustix::process::setpriority_process(None, pri).map_err(|e| e.raw_os_error())
}

/// Relies on `rustix::process::getpriority_process` with no process id: the
/// calling thread's scheduling niceness, which the underlying call reports
/// within -20 to 19; a failure carries the raw OS errno.
#[verifier::external_body]
fn get_thread_niceness() -> (r: Result<i32, i32>)
    ensures
        r is Ok ==> -20 <= r->Ok_0 <= 19,
{
    rustix::process::getpriority_process(None).map_err(|e| e.raw_os_error())
}

/// Sets the calling thread's scheduling niceness. Whether the operating
/// system consents depends on the caller's privilege; a refusal for want of
/// privilege is reported as [`OsError::PermissionDenied`], any other
/// failure keeps its raw errno.
pub fn set_priority(pri: i32) -> (r: Result<(), OsError>)
    ensures
        r is Err ==> exists|e: i32| r->Err_0 == #[trigger] spec_classify_errno(e),
{
    match set_thread_niceness(pri) {
        Ok(()) => Ok(()),
        Err(e) => Err(classify_errno(e)),
    }
}

/// The calling thread's current scheduling niceness, within -20 to 19 on
/// success.
pub fn get_priority() -> (r: Result<i32, OsError>)
    ensures
        r is Ok ==> -20 <= r->Ok_0 <= 19,
        r is Err ==> exists|e: i32| r->Err_0 == #[trigger] spec_classify_errno(e),
{
    match get_thread_niceness() {
        Ok(pri) => Ok(pri),
        Err(e) => Err(classify_errno(e)),
    }
}

} // verus!

//! The thread's error indicator, through which an adapter tells the engine
//! why it has no byte count to report.

use vstd::prelude::*;

verus! {

/// Trusted. Calls `errno::set_errno`, which stores `code` in the calling
/// thread's error indicator and returns nothing. No claim is made.
#[verifier::external_body]
pub(crate) fn set_errno(code: i32) {
    errno::set_errno(errno::Errno(code));
}

/// Trusted. Reads `libc::EWOULDBLOCK`, the code by which this platform says
/// that an operation would have to wait. Its value differs between
/// platforms, so no claim is made of it.
#[verifier::external_body]
pub(crate) fn would_block_code() -> (code: i32) {
    libc::EWOULDBLOCK
}

/// Trusted. Reads `libc::EIO`, the code by which this platform says that
/// input or output failed. Its value differs between platforms, so no claim
/// is made of it.
#[verifier::external_body]
pub(crate) fn io_error_code() -> (code: i32) {
    libc::EIO
}

} // verus!

//! Small value types shared by every module.

use vstd::prelude::*;

verus! {

/// Which end of the negotiation a session plays.
#[derive(Clone, Copy, Debug, PartialEq, Eq, Structural)]
pub enum Mode {
    Client,
    Server,
}

/// The signature scheme of a signing request.
#[allow(non_camel_case_types)]
#[derive(Clone, Copy, Debug, PartialEq, Eq, Structural)]
pub enum SignatureAlgorithm {
    RSA_PKCS1,
    RSA_PSS_RSAE,
    RSA_PSS_PSS,
    ECDSA,
}

/// The digest that produced the input of a signing request.
#[allow(non_camel_case_types)]
#[derive(Clone, Copy, Debug, PartialEq, Eq, Structural)]
pub enum HashAlgorithm {
    MD5,
    SHA1,
    SHA224,
    SHA256,
    SHA384,
    SHA512,
    MD5_SHA1,
}

/// What an adapter reports to the engine when it has no byte count to give.
#[derive(Clone, Copy, Debug, PartialEq, Eq, Structural)]
pub enum CallbackResult {
    Success,
    Failure,
}

impl CallbackResult {
    /// The status word the engine expects: zero for success, minus one for
    /// failure.
    pub open spec fn status(self) -> int {
        match self {
            CallbackResult::Success => 0,
            CallbackResult::Failure => -1,
        }
    }

    pub fn into_status(self) -> (code: i32)
        ensures
            code == self.status(),
    {
        match self {
            CallbackResult::Success => 0,
            CallbackResult::Failure => -1,
        }
    }
}

/// The outcome of one attempt at an operation that may have to wait.
#[derive(Debug, PartialEq, Eq)]
pub enum Poll<T> {
    /// The operation finished with this value.
    Ready(T),
    /// The operation cannot progress yet; the installed wake handle will
    /// cause another attempt.
    Pending,
}

impl<T> Poll<T> {
    pub open spec fn spec_is_ready(&self) -> bool {
        self is Ready
    }

    #[verifier::when_used_as_spec(spec_is_ready)]
    pub fn is_ready(&self) -> (b: bool)
        ensures
            b == self.spec_is_ready(),
    {
        match self {
            Poll::Ready(_) => true,
            Poll::Pending => false,
        }
    }

    pub open spec fn spec_is_pending(&self) -> bool {
        self is Pending
    }

    #[verifier::when_used_as_spec(spec_is_pending)]
    pub fn is_pending(&self) -> (b: bool)
        ensures
            b == self.spec_is_pending(),
    {
        match self {
            Poll::Ready(_) => false,
            Poll::Pending => true,
        }
    }
}

/// The token by which a scheduler is told to drive a task again.
#[derive(Clone, Copy, Debug, PartialEq, Eq, Structural)]
pub struct WakeHandle {
    pub task: u64,
}

} // verus!

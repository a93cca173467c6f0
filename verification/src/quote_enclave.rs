//! Quoting-enclave configuration requests.
//!
//! The native library keeps two process-wide settings: the search path used
//! to find the quote-verification enclave or the quote-provider library, and
//! the policy for keeping a loaded quoting enclave between calls.  Both are
//! changed through foreign setters whose effect is global to the process and
//! lasts until the next override.
//!
//! This module performs every decision those setters do not: it validates a
//! candidate path (at most [`MAX_PATH_BYTES`] bytes, no embedded null byte)
//! before any foreign call is made, rejecting bad input with
//! [`Quote3Error::InvalidParameter`], and it fixes the exact native argument
//! codes of each call.  The unverified shell that owns the foreign interface
//! performs a returned call verbatim and interprets the resulting status with
//! [`crate::error::status_to_result`].

use vstd::prelude::*;

use crate::error::Quote3Error;

verus! {

/// The longest path, in bytes, the native library accepts.
pub const MAX_PATH_BYTES: usize = 259;

/// Which native search path a request overrides.
#[derive(Debug, Clone, Copy, Hash, PartialEq, Eq, Structural)]
pub enum PathKind {
    /// The path of the quote verification enclave (QVE).
    QuoteVerificationEnclave,
    /// The path of the quote provider library (QPL).
    QuoteProviderLibrary,
}

impl PathKind {
    /// The native argument code of this path kind, in the native
    /// enumeration's declared order.
    pub open spec fn spec_code(self) -> u32 {
        match self {
            PathKind::QuoteVerificationEnclave => 0,
            PathKind::QuoteProviderLibrary => 1,
        }
    }

    /// The native argument code of this path kind.
    pub fn code(&self) -> (r: u32)
        ensures
            r == self.spec_code(),
    {
        match self {
            PathKind::QuoteVerificationEnclave => 0,
            PathKind::QuoteProviderLibrary => 1,
        }
    }
}

/// The policy for loading quoting enclaves: whether the native library keeps
/// a loaded enclave between calls or reloads it each time.
#[derive(Debug, Clone, Copy, Hash, PartialEq, Eq, Structural)]
pub enum RequestPolicy {
    /// The quoting enclave is initialized on first use and reused until the
    /// process ends.
    Persistent,
    /// The quoting enclave is initialized and terminated on every quote.
    Ephemeral,
}

impl RequestPolicy {
    /// The native argument code of this policy, in the native enumeration's
    /// declared order.
    pub open spec fn spec_code(self) -> u32 {
        match self {
            RequestPolicy::Persistent => 0,
            RequestPolicy::Ephemeral => 1,
        }
    }

    /// The native argument code of this policy.
    pub fn code(&self) -> (r: u32)
        ensures
            r == self.spec_code(),
    {
        match self {
            RequestPolicy::Persistent => 0,
            RequestPolicy::Ephemeral => 1,
        }
    }
}

impl Default for RequestPolicy {
    /// The native library's default policy.
    fn default() -> (r: Self)
        ensures
            r == RequestPolicy::Persistent,
    {
        RequestPolicy::Persistent
    }
}

/// A decided request to the native path setter: the native path-kind code
/// and the validated path bytes to hand over.
#[derive(Debug)]
pub struct SetPathCall {
    /// The native code of the search path being overridden.
    pub path_type_code: u32,
    /// The path bytes, at most [`MAX_PATH_BYTES`] long and free of null
    /// bytes.
    pub path: Vec<u8>,
}

/// A decided request to the native load-policy setter.
#[derive(Debug, Clone, Copy, Hash, PartialEq, Eq, Structural)]
pub struct LoadPolicyCall {
    /// The native code of the requested policy.
    pub policy_code: u32,
}

/// Whether a path may be handed to the native setter: at most
/// [`MAX_PATH_BYTES`] bytes and no embedded null byte.
pub open spec fn path_acceptable(path: Seq<u8>) -> bool {
    &&& path.len() <= MAX_PATH_BYTES
    &&& forall|i: int| 0 <= i < path.len() ==> path[i] != 0
}

/// Decide a request to override the search path for the quote verification
/// enclave or the quote provider library.
///
/// The path is validated before any foreign call: a path longer than
/// [`MAX_PATH_BYTES`] bytes or containing a null byte yields
/// [`Quote3Error::InvalidParameter`] and no call is decided.  An acceptable
/// path yields the exact call to perform; performing it changes process-wide
/// native state until the next override.
pub fn set_path(path_type: PathKind, path: Vec<u8>) -> (r: Result<SetPathCall, Quote3Error>)
    ensures
        path_acceptable(path@) ==> (r matches Ok(call) && call.path_type_code
            == path_type.spec_code() && call.path@ == path@),
        !path_acceptable(path@) ==> r == Err::<SetPathCall, Quote3Error>(
            Quote3Error::InvalidParameter,
        ),
{
    if path.len() > MAX_PATH_BYTES {
        return Err(Quote3Error::InvalidParameter);
    }
    let mut i: usize = 0;
    while i < path.len()
        invariant
            i <= path@.len(),
            path@.len() <= MAX_PATH_BYTES,
            forall|j: int| 0 <= j < i ==> path@[j] != 0,
        decreases path@.len() - i,
    {
        if path[i] == 0 {
            return Err(Quote3Error::InvalidParameter);
        }
        i = i + 1;
    }
    Ok(SetPathCall { path_type_code: path_type.code(), path })
}

/// Decide a request to set the enclave load policy.
///
/// No validation applies: every policy value yields a call.  Performing the
/// call changes process-wide native state until the next override.
pub fn load_policy(policy: RequestPolicy) -> (r: LoadPolicyCall)
    ensures
        r.policy_code == policy.spec_code(),
{
    LoadPolicyCall { policy_code: policy.code() }
}

} // verus!

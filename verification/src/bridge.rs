//! Error bridge: the closed taxonomy of failure kinds and its mapping to host
//! exception identity and message, with a re-entrancy guard so that a pending
//! exception is never overwritten.

use vstd::prelude::*;
use vstd::string::StringExecFns;

verus! {

/// Exception identity for an opaque internal error of the runtime layer.
pub const GENERIC_EXCEPTION: &'static str = "java/lang/exception";

/// Exception identity for a null-handle condition.
pub const NULL_POINTER_EXCEPTION: &'static str = "java/lang/NullPointerException";

/// Exception identity for an iterator-exhaustion condition.
pub const NO_SUCH_ELEMENT_EXCEPTION: &'static str = "java/util/NoSuchElementException";

/// Exception identity for a domain error of the database engine.
pub const SURREALDB_EXCEPTION: &'static str = "com/surrealdb/SurrealDBException";

/// The closed set of failure kinds this core can produce. A failure is made
/// wherever an operation fails and is consumed exactly once by [`deliver`].
#[derive(Debug, PartialEq, Eq)]
pub enum Failure {
    /// An internal error of the execution/runtime layer, carried as its
    /// display text.
    Internal(String),
    /// A required handle was the reserved sentinel `0`; carries the name of
    /// the resource that was expected.
    NullHandle(&'static str),
    /// An iterator had no more elements.
    Exhausted,
    /// An error of the database engine proper, carried as its display text.
    Domain(String),
}

/// An exception request as the host sees it: a fixed identity per failure
/// kind, plus a human-readable message.
#[derive(Debug, PartialEq, Eq)]
pub struct HostException {
    /// The stable identifier of the exception kind.
    pub identity: &'static str,
    /// The message that accompanies the exception.
    pub message: String,
}

/// The exception identity that a failure maps to.
pub open spec fn identity_of(f: Failure) -> Seq<char> {
    match f {
        Failure::Internal(_) => GENERIC_EXCEPTION@,
        Failure::NullHandle(_) => NULL_POINTER_EXCEPTION@,
        Failure::Exhausted => NO_SUCH_ELEMENT_EXCEPTION@,
        Failure::Domain(_) => SURREALDB_EXCEPTION@,
    }
}

/// The exception message that a failure maps to.
pub open spec fn message_of(f: Failure) -> Seq<char> {
    match f {
        Failure::Internal(s) => s@,
        Failure::NullHandle(name) => name@ + " instance not found"@,
        Failure::Exhausted => "No more elements"@,
        Failure::Domain(s) => s@,
    }
}

/// Maps a failure to its host exception: a deterministic, total, pure mapping
/// from each failure kind to exactly one identity and message.
pub fn classify(f: &Failure) -> (r: HostException)
    ensures
        r.identity@ == identity_of(*f),
        r.message@ == message_of(*f),
{
    match f {
        Failure::Internal(s) => HostException {
            identity: GENERIC_EXCEPTION,
            message: s.clone(),
        },
        Failure::NullHandle(name) => {
            let mut message = String::from_str(name);
            message.append(" instance not found");
            HostException { identity: NULL_POINTER_EXCEPTION, message }
        },
        Failure::Exhausted => HostException {
            identity: NO_SUCH_ELEMENT_EXCEPTION,
            message: String::from_str("No more elements"),
        },
        Failure::Domain(s) => HostException {
            identity: SURREALDB_EXCEPTION,
            message: s.clone(),
        },
    }
}

/// Classification is deterministic: equal failures map to the same exception
/// identity and the same message.
pub proof fn lemma_classify_deterministic(a: Failure, b: Failure)
    requires
        a == b,
    ensures
        identity_of(a) == identity_of(b),
        message_of(a) == message_of(b),
{
}

/// The calling environment's pending-exception slot. The host raises the
/// exception only when control returns to host code, so between the request
/// and the return the slot records what is pending.
pub struct HostEnv {
    /// The exception requested to be raised on return to host code, if any.
    pub pending: Option<HostException>,
}

impl HostEnv {
    /// An environment with no exception pending.
    pub fn new() -> (r: HostEnv)
        ensures
            r.pending is None,
    {
        HostEnv { pending: None }
    }
}

/// Delivers a failure to the host: if no exception is pending on the
/// environment, the classified exception becomes pending; if one is already
/// pending it is left intact (first failure wins). Either way the fallback
/// value is returned through the normal return channel, since the host's
/// calling convention needs a well-formed return value even on failure.
pub fn deliver<R>(f: Failure, env: &mut HostEnv, fallback: R) -> (r: R)
    ensures
        r == fallback,
        old(env).pending is Some ==> final(env).pending == old(env).pending,
        old(env).pending is None ==> (final(env).pending matches Some(e)
            && e.identity@ == identity_of(f)
            && e.message@ == message_of(f)),
{
    if env.pending.is_none() {
        let e = classify(&f);
        env.pending = Some(e);
    }
    fallback
}

} // verus!

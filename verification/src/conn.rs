//! The connection-establishment policy: multi-address fallback with
//! last-error reporting, and the zero-timeout rejection.

use vstd::prelude::*;

verus! {

/// Why establishing a connection failed.
#[derive(Debug, PartialEq, Eq)]
pub enum ConnectError<E> {
    /// A zero timeout was passed: ambiguous with "no timeout", so it is
    /// rejected before any endpoint is attempted.
    ZeroTimeout,
    /// Address resolution yielded no endpoints at all.
    NoAddresses,
    /// Every endpoint attempt failed; this carries the error of the last
    /// (most recent) attempt.
    Transport(E),
}

/// What the fallback policy yields once the outcomes of the attempts are
/// fixed: the connection of the first success; otherwise the most recent
/// error; otherwise — nothing was ever attempted — the empty-list
/// rejection. `last` is the most recent error seen before `rest` runs.
pub open spec fn fallback_outcome<C, E>(last: Option<E>, rest: Seq<Result<C, E>>) -> Result<
    C,
    ConnectError<E>,
>
    decreases rest.len(),
{
    if rest.len() == 0 {
        match last {
            Some(e) => Err(ConnectError::Transport(e)),
            None => Err(ConnectError::NoAddresses),
        }
    } else {
        match rest[0] {
            Ok(c) => Ok(c),
            Err(e) => fallback_outcome(Some(e), rest.drop_first()),
        }
    }
}

/// Whether a connect timeout is acceptable: only a non-zero duration is,
/// since a zero timeout would be ambiguous with "no timeout".
pub fn timeout_is_valid(timeout_nanos: u128) -> (ok: bool)
    ensures
        ok <==> timeout_nanos != 0,
{
    timeout_nanos != 0
}

/// What one attempt decides: stop with its connection, or go on with a new
/// most-recent error.
pub enum ConnectStep<C, E> {
    /// The attempt succeeded; the search ends with this connection.
    Established(C),
    /// The attempt failed; the search goes on, remembering this error.
    Pending(Option<E>),
}

/// One step of the fallback loop: the first success wins, a failure
/// replaces the most recent error.
pub fn connect_step<C, E>(last: Option<E>, attempt: Result<C, E>) -> (r: ConnectStep<C, E>)
    ensures
        match attempt {
            Ok(c) => r == ConnectStep::<C, E>::Established(c),
            Err(e) => r == ConnectStep::<C, E>::Pending(Some(e)),
        },
{
    match attempt {
        Ok(c) => ConnectStep::Established(c),
        Err(e) => ConnectStep::Pending(Some(e)),
    }
}

/// The verdict once every attempt has failed (or none ran): the most
/// recent error if there was one, else the empty-address-list rejection.
pub fn exhausted_verdict<C, E>(last: Option<E>) -> (r: Result<C, ConnectError<E>>)
    ensures
        r == fallback_outcome::<C, E>(last, Seq::<Result<C, E>>::empty()),
{
    match last {
        Some(e) => Err(ConnectError::Transport(e)),
        None => Err(ConnectError::NoAddresses),
    }
}

/// The whole fallback policy over the recorded outcomes of the attempts,
/// in order: the connection of the first success; else the last error;
/// else the empty-list rejection.
#[verifier::loop_isolation(false)]
pub fn fallback_connect<C, E>(attempts: Vec<Result<C, E>>) -> (r: Result<C, ConnectError<E>>)
    ensures
        r == fallback_outcome::<C, E>(None, attempts@),
{
    let ghost all = attempts@;
    let mut rest = attempts;
    let mut last: Option<E> = None;
    loop
        invariant
            fallback_outcome::<C, E>(None, all) == fallback_outcome::<C, E>(last, rest@),
        decreases rest.len(),
    {
        if rest.len() == 0 {
            return exhausted_verdict(last);
        }
        let ghost before = rest@;
        let attempt = rest.remove(0);
        proof {
            assert(rest@ =~= before.drop_first());
        }
        match connect_step(last, attempt) {
            ConnectStep::Established(c) => {
                return Ok(c);
            },
            ConnectStep::Pending(p) => {
                last = p;
            },
        }
    }
}

/// The fallback policy guarded by the timeout rule: a zero timeout is
/// rejected outright, before any endpoint would be attempted; a non-zero
/// one leaves the policy unchanged (each attempt is bounded by it, which
/// the outcomes already reflect).
pub fn fallback_connect_with_timeout<C, E>(
    timeout_nanos: u128,
    attempts: Vec<Result<C, E>>,
) -> (r: Result<C, ConnectError<E>>)
    ensures
        timeout_nanos == 0 ==> r == Result::<C, ConnectError<E>>::Err(ConnectError::ZeroTimeout),
        timeout_nanos != 0 ==> r == fallback_outcome::<C, E>(None, attempts@),
{
    if timeout_is_valid(timeout_nanos) {
        fallback_connect(attempts)
    } else {
        Err(ConnectError::ZeroTimeout)
    }
}

} // verus!

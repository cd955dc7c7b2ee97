//! The listener side: what an accept attempt leads to.
use vstd::prelude::*;

verus! {

/// The socket to spawn a connection for, after one accept attempt.
///
/// A new connection is spawned; no pending connection and a failed accept
/// are both absorbed, so that the listener lives on.
pub fn accepted_socket<S, E>(res: Result<Option<S>, E>) -> (r: Option<S>)
    ensures
        res matches Ok(Some(sock)) ==> r == Some(sock),
        !(res is Ok && res->Ok_0 is Some) ==> r is None,
{
    match res {
        Ok(Some(sock)) => Some(sock),
        Ok(None) => None,
        Err(_) => None,
    }
}

} // verus!

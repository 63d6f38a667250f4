//! The listener's share of the service: the decisions of the accept loop.
//!
//! The transport binds the address and performs each accept; this module
//! decides what follows. A successful bind yields a fresh [`Listener`];
//! every successful accept is handed to a new, independent handler and the
//! loop goes on at once; any accept failure is fatal and surfaces as
//! [`ServiceError::Accept`], ending the whole service. Nothing a handler
//! does ever reaches back to the listener.

use vstd::prelude::*;

verus! {

/// The service's closed error set: the two ways the service as a whole can
/// fail. Per-connection read and write failures are not here — they end
/// one session and are reported there, never propagated.
#[derive(Clone, Copy, Debug, PartialEq, Eq, Structural)]
pub enum ServiceError {
    /// Binding the listening address failed; the service never starts.
    Bind,
    /// An accept failed; the accept loop ends and the service stops.
    Accept,
}

/// The bound listening endpoint's state: only a count of connections
/// handed out so far. Handlers share nothing with it and never write back
/// to it.
#[derive(Clone, Copy, Debug, PartialEq, Eq, Structural)]
pub struct Listener {
    /// How many connections have been accepted and handed to handlers.
    pub served: u64,
}

/// What one accept attempt does to the listener: on success the connection
/// is handed out and the count grows (saturating at the type's limit); on
/// failure the count is untouched and the error is fatal.
pub open spec fn accept_step(served: u64, ok: bool) -> (Result<(), ServiceError>, u64) {
    if ok {
        (Ok(()), if served < u64::MAX { (served + 1) as u64 } else { served })
    } else {
        (Err(ServiceError::Accept), served)
    }
}

impl Listener {
    /// A freshly bound listener: no connection served yet.
    pub fn new() -> (l: Listener)
        ensures
            l.served == 0,
    {
        Listener { served: 0 }
    }

    /// The outcome of trying to bind the listening address: a fresh
    /// listener exactly when the bind succeeded, [`ServiceError::Bind`]
    /// exactly when it did not.
    pub fn after_bind(ok: bool) -> (r: Result<Listener, ServiceError>)
        ensures
            ok ==> r == Ok::<Listener, ServiceError>(Listener { served: 0 }),
            !ok ==> r == Err::<Listener, ServiceError>(ServiceError::Bind),
    {
        if ok {
            Ok(Listener { served: 0 })
        } else {
            Err(ServiceError::Bind)
        }
    }

    /// Decide on one accept attempt. A success means: spawn a handler for
    /// the new connection and keep accepting — whatever came before. A
    /// failure means: stop the loop and surface the error to the process.
    pub fn on_accept(&mut self, ok: bool) -> (r: Result<(), ServiceError>)
        ensures
            r == accept_step(old(self).served, ok).0,
            final(self).served == accept_step(old(self).served, ok).1,
            r is Ok <==> ok,
    {
        if ok {
            if self.served < u64::MAX {
                self.served = self.served + 1;
            }
            Ok(())
        } else {
            Err(ServiceError::Accept)
        }
    }
}

/// Whether every accept attempt in a script succeeded.
pub open spec fn all_accepts_ok(s: Seq<bool>) -> bool {
    forall|i: int| 0 <= i < s.len() ==> s[i]
}

/// Run the accept loop over a scripted sequence of accept outcomes. The
/// loop hands out one handler per successful accept and never waits on
/// any of them; it ends only when the script runs out — the real loop has
/// no such end — or at the first failed accept, which is fatal: the
/// service-level failure surfaces as [`ServiceError::Accept`] rather than
/// being retried or swallowed.
pub fn run_accepts(outcomes: &Vec<bool>) -> (r: Result<usize, ServiceError>)
    ensures
        all_accepts_ok(outcomes@) <==> r is Ok,
        all_accepts_ok(outcomes@) ==> r == Ok::<usize, ServiceError>(outcomes.len()),
        !all_accepts_ok(outcomes@) ==> r == Err::<usize, ServiceError>(ServiceError::Accept),
{
    let mut l = Listener::new();
    let mut i: usize = 0;
    while i < outcomes.len()
        invariant
            i <= outcomes@.len(),
            l.served == i as u64,
            forall|j: int| 0 <= j < i ==> outcomes@[j],
        decreases outcomes@.len() - i,
    {
        let step = l.on_accept(outcomes[i]);
        if step.is_err() {
            assert(!outcomes@[i as int]);
            return Err(ServiceError::Accept);
        }
        i = i + 1;
    }
    Ok(outcomes.len())
}

/// Independence from history: the accept decision never depends on how
/// many connections have already been served and closed. After any number
/// of connections, under any two histories, one more successful accept is
/// answered the same way — it is handed out.
pub proof fn lemma_accept_ignores_history(n1: u64, n2: u64)
    ensures
        accept_step(n1, true).0 == accept_step(n2, true).0,
        accept_step(n1, true).0 == Ok::<(), ServiceError>(()),
{
}

/// Fatal accept failure: whatever the history, a failed accept surfaces
/// the service-level error instead of being retried, and leaves the count
/// of served connections untouched.
pub proof fn lemma_accept_failure_fatal(n: u64)
    ensures
        accept_step(n, false).0 == Err::<(), ServiceError>(ServiceError::Accept),
        accept_step(n, false).1 == n,
{
}

} // verus!

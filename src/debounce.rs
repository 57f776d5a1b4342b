//! Debounced refreshes: each notification schedules a refresh under a fresh
//! token and supersedes the one pending, so that only the refresh of the
//! latest notification runs.
use vstd::prelude::*;

verus! {

/// At most one refresh pending, named by its token.
pub struct Debouncer {
    pub next_token: u64,
    pub pending: Option<u64>,
}

/// The token after `t`, starting again from zero after the largest.
pub open spec fn token_after(t: u64) -> u64 {
    if t == u64::MAX { 0 } else { (t + 1) as u64 }
}

/// What scheduling does: the pending refresh becomes the one of the returned
/// token, and the next token moves on.
pub open spec fn scheduled(d: Debouncer) -> (Debouncer, u64) {
    (Debouncer { next_token: token_after(d.next_token), pending: Some(d.next_token) }, d.next_token)
}

/// What a timer that was started with `token` does when it fires: it runs
/// the refresh, and clears it, only if `token` names the pending refresh.
pub open spec fn fired(d: Debouncer, token: u64) -> (bool, Debouncer) {
    if d.pending == Some(token) {
        (true, Debouncer { next_token: d.next_token, pending: None })
    } else {
        (false, d)
    }
}

impl Debouncer {
    /// The next token differs from the pending one.
    pub open spec fn wf(&self) -> bool {
        self.pending != Some(self.next_token)
    }

    pub fn new() -> (r: Debouncer)
        ensures
            r.wf(),
            r == (Debouncer { next_token: 0, pending: None }),
    {
        Debouncer { next_token: 0, pending: None }
    }

    /// Schedules a refresh, superseding the pending one; returns its token.
    pub fn schedule(&mut self) -> (token: u64)
        requires
            old(self).wf(),
        ensures
            final(self).wf(),
            (*final(self), token) == scheduled(*old(self)),
            old(self).pending != Some(token),
    {
        let token = self.next_token;
        self.next_token = if token == u64::MAX { 0 } else { token + 1 };
        self.pending = Some(token);
        token
    }

    /// A timer started with `token` fired: whether its refresh is to run.
    pub fn fire(&mut self, token: u64) -> (run: bool)
        requires
            old(self).wf(),
        ensures
            final(self).wf(),
            (run, *final(self)) == fired(*old(self), token),
    {
        if self.pending == Some(token) {
            self.pending = None;
            true
        } else {
            false
        }
    }

    /// Whether `token` names the pending refresh.
    pub fn is_current(&self, token: u64) -> (r: bool)
        ensures
            r == (self.pending == Some(token)),
    {
        self.pending == Some(token)
    }

    pub fn is_pending(&self) -> (r: bool)
        ensures
            r == self.pending is Some,
    {
        self.pending.is_some()
    }
}

/// Of two notifications that arrive before the first delay has elapsed,
/// only the refresh of the second runs: the first timer finds itself
/// superseded, whether it fires before or after the second, and the second
/// runs once.
pub proof fn superseded_refresh_never_runs(d: Debouncer)
    requires
        d.wf(),
    ensures
        ({
            let (d1, t1) = scheduled(d);
            let (d2, t2) = scheduled(d1);
            &&& !fired(d2, t1).0
            &&& fired(d2, t1).1 == d2
            &&& fired(d2, t2).0
            &&& !fired(fired(d2, t2).1, t1).0
            &&& !fired(fired(d2, t2).1, t2).0
        }),
{
    let (d1, t1) = scheduled(d);
    let (d2, t2) = scheduled(d1);
    assert(t2 == token_after(t1));
}

} // verus!

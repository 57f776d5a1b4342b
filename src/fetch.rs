//! The coordinator of the external check: one check per source file, run
//! together; the batch is running until every one of them has finished, and
//! a new batch or a stop discards whatever was tracked before.
use vstd::prelude::*;
use crate::debounce::token_after;
use crate::model::ProjectPath;

verus! {

/// A batch of checks under way: its token and, per source, whether that
/// source's check is still outstanding.
pub struct RunningFetch {
    pub token: u64,
    pub outstanding: Vec<bool>,
}

/// The state of the external check of a panel.
pub struct CargoDiagnosticsFetchState {
    pub diagnostic_sources: Vec<ProjectPath>,
    pub fetch_task: Option<RunningFetch>,
    pub cancel_task: Option<u64>,
    pub next_token: u64,
}

/// The fetch state as values: the sources, the running batch with what is
/// outstanding of it, the pending cancellation, and the next token.
pub struct FetchView {
    pub sources: Seq<ProjectPath>,
    pub running: Option<(u64, Seq<bool>)>,
    pub cancelling: Option<u64>,
    pub next_token: u64,
}

impl FetchView {
    /// A running batch has one flag per source and something outstanding,
    /// and no tracked token equals the next one.
    pub open spec fn wf(self) -> bool {
        &&& self.running matches Some((t, out)) ==> {
            &&& out.len() == self.sources.len()
            &&& out.contains(true)
            &&& t != self.next_token
        }
        &&& self.cancelling matches Some(t) ==> t != self.next_token
    }
}

impl View for CargoDiagnosticsFetchState {
    type V = FetchView;

    open spec fn view(&self) -> FetchView {
        FetchView {
            sources: self.diagnostic_sources@,
            running: match self.fetch_task {
                Some(f) => Some((f.token, f.outstanding@)),
                None => None,
            },
            cancelling: self.cancel_task,
            next_token: self.next_token,
        }
    }
}

/// Starting a batch for `sources`: the previous batch and cancellation are
/// forgotten and the sources recorded; a batch is started, with every source
/// outstanding, only if there is a source.
pub open spec fn started(v: FetchView, sources: Seq<ProjectPath>) -> (FetchView, Option<u64>) {
    if sources.len() == 0 {
        (FetchView { sources, running: None, cancelling: None, next_token: v.next_token }, None)
    } else {
        (FetchView {
            sources,
            running: Some((v.next_token, Seq::new(sources.len(), |i: int| true))),
            cancelling: None,
            next_token: token_after(v.next_token),
        }, Some(v.next_token))
    }
}

/// The check of source `index` of batch `token` finished: it is no longer
/// outstanding, and the batch ends when nothing is. A stale token or an
/// index out of range changes nothing.
pub open spec fn source_done(v: FetchView, token: u64, index: int) -> FetchView {
    match v.running {
        Some((t, out)) => if t == token && 0 <= index < out.len() {
            let rest = out.update(index, false);
            FetchView {
                running: if rest.contains(true) { Some((t, rest)) } else { None },
                ..v
            }
        } else {
            v
        },
        None => v,
    }
}

/// Stopping: the batch is forgotten, the sources are handed out for
/// cancellation and cleared, and a cancellation is pending.
pub open spec fn stopped(v: FetchView) -> (FetchView, Seq<ProjectPath>, u64) {
    (FetchView {
        sources: Seq::empty(),
        running: None,
        cancelling: Some(v.next_token),
        next_token: token_after(v.next_token),
    }, v.sources, v.next_token)
}

/// The cancellation of token `token` finished.
pub open spec fn cancel_done(v: FetchView, token: u64) -> FetchView {
    if v.cancelling == Some(token) {
        FetchView { cancelling: None, ..v }
    } else {
        v
    }
}

/// The state after the checks at `done`, in that order, have finished.
pub open spec fn after_done(v: FetchView, token: u64, done: Seq<int>) -> FetchView
    decreases done.len(),
{
    if done.len() == 0 {
        v
    } else {
        source_done(after_done(v, token, done.drop_last()), token, done.last())
    }
}

/// A list of `n` flags, all set.
fn all_outstanding(n: usize) -> (r: Vec<bool>)
    ensures
        r@ == Seq::new(n as nat, |i: int| true),
{
    let mut r: Vec<bool> = Vec::new();
    let mut i: usize = 0;
    while i < n
        invariant
            i <= n,
            r@ == Seq::new(i as nat, |k: int| true),
        decreases n - i,
    {
        r.push(true);
        i = i + 1;
        assert(r@ =~= Seq::new(i as nat, |k: int| true));
    }
    r
}

/// Whether some flag is set.
fn any_set(v: &Vec<bool>) -> (r: bool)
    ensures
        r == v@.contains(true),
{
    let mut i: usize = 0;
    while i < v.len()
        invariant
            i <= v@.len(),
            forall|k: int| 0 <= k < i ==> !v@[k],
        decreases v@.len() - i,
    {
        if v[i] {
            assert(v@[i as int] == true);
            return true;
        }
        i = i + 1;
    }
    false
}

impl CargoDiagnosticsFetchState {
    pub fn new() -> (r: CargoDiagnosticsFetchState)
        ensures
            r@.wf(),
            r@.sources.len() == 0,
            r@.running is None,
            r@.cancelling is None,
            r@.next_token == 0,
    {
        CargoDiagnosticsFetchState {
            diagnostic_sources: Vec::new(),
            fetch_task: None,
            cancel_task: None,
            next_token: 0,
        }
    }

    /// Starts the checks of `sources`; returns the batch's token, or `None`
    /// when there is nothing to check. The caller runs one check per source,
    /// in the order of `diagnostic_sources`, and reports each one's end.
    pub fn fetch(&mut self, sources: Vec<ProjectPath>) -> (token: Option<u64>)
        requires
            old(self)@.wf(),
        ensures
            final(self)@.wf(),
            (final(self)@, token) == started(old(self)@, sources@),
    {
        self.cancel_task = None;
        self.fetch_task = None;
        let n = sources.len();
        self.diagnostic_sources = sources;
        if n == 0 {
            return None;
        }
        let token = self.next_token;
        self.next_token = if token == u64::MAX { 0 } else { token + 1 };
        let outstanding = all_outstanding(n);
        assert(outstanding@[0] == true);
        self.fetch_task = Some(RunningFetch { token, outstanding });
        Some(token)
    }

    /// The check of source `index` of batch `token` has finished.
    pub fn source_fetched(&mut self, token: u64, index: usize)
        requires
            old(self)@.wf(),
        ensures
            final(self)@.wf(),
            final(self)@ == source_done(old(self)@, token, index as int),
    {
        let task = self.fetch_task.take();
        match task {
            Some(mut f) => {
                if f.token == token && index < f.outstanding.len() {
                    f.outstanding.set(index, false);
                    if any_set(&f.outstanding) {
                        self.fetch_task = Some(f);
                    }
                } else {
                    self.fetch_task = Some(f);
                }
            },
            None => {},
        }
    }

    /// Stops tracking the running batch: returns the sources whose checks
    /// are to be cancelled and the token of that cancellation.
    pub fn stop(&mut self) -> (r: (Vec<ProjectPath>, u64))
        requires
            old(self)@.wf(),
        ensures
            final(self)@.wf(),
            (final(self)@, r.0@, r.1) == stopped(old(self)@),
    {
        self.fetch_task = None;
        let sources = self.diagnostic_sources.split_off(0);
        let token = self.next_token;
        self.next_token = if token == u64::MAX { 0 } else { token + 1 };
        self.cancel_task = Some(token);
        assert(sources@ =~= old(self)@.sources);
        assert(self.diagnostic_sources@ =~= Seq::<ProjectPath>::empty());
        (sources, token)
    }

    /// The cancellation of token `token` has finished.
    pub fn cancel_finished(&mut self, token: u64)
        requires
            old(self)@.wf(),
        ensures
            final(self)@.wf(),
            final(self)@ == cancel_done(old(self)@, token),
    {
        if self.cancel_task == Some(token) {
            self.cancel_task = None;
        }
    }

    /// Whether a batch of checks is running.
    pub fn is_fetching(&self) -> (r: bool)
        ensures
            r == self@.running is Some,
    {
        self.fetch_task.is_some()
    }
}

/// Fetching with no source starts no check and leaves no batch running.
pub proof fn empty_fetch_starts_nothing(v: FetchView)
    ensures
        started(v, Seq::empty()).1 is None,
        started(v, Seq::empty()).0.running is None,
{
}

proof fn lemma_contains_last(done: Seq<int>, i: int)
    requires
        done.len() > 0,
    ensures
        done.contains(i) <==> (done.drop_last().contains(i) || done.last() == i),
{
    if done.contains(i) {
        let k = choose|k: int| 0 <= k < done.len() && done[k] == i;
        if k < done.len() - 1 {
            assert(done.drop_last()[k] == i);
        }
    }
    if done.drop_last().contains(i) {
        let k = choose|k: int| 0 <= k < done.drop_last().len() && done.drop_last()[k] == i;
        assert(done[k] == i);
    }
    if done.last() == i {
        assert(done[done.len() - 1] == i);
    }
}

proof fn lemma_after_done(v: FetchView, t: u64, n: nat, done: Seq<int>)
    requires
        n > 0,
        v.running == Some((t, Seq::new(n, |i: int| true))),
    ensures
        after_done(v, t, done).running == if (forall|i: int| 0 <= i < n ==> #[trigger] done.contains(i)) {
            None
        } else {
            Some((t, Seq::new(n, |i: int| !done.contains(i))))
        },
    decreases done.len(),
{
    if done.len() == 0 {
        assert(!done.contains(0));
        assert(Seq::new(n, |i: int| !done.contains(i)) =~= Seq::new(n, |i: int| true));
    } else {
        let d = done.drop_last();
        let x = done.last();
        lemma_after_done(v, t, n, d);
        assert forall|i: int| #[trigger] done.contains(i) <==> (d.contains(i) || x == i) by {
            lemma_contains_last(done, i);
        }
        let prev = after_done(v, t, d);
        match prev.running {
            Some((t2, out)) => {
                assert(!(forall|i: int| 0 <= i < n ==> #[trigger] d.contains(i)));
                let j = choose|j: int| 0 <= j < n && !#[trigger] d.contains(j);
                if 0 <= x < n {
                    let rest = out.update(x, false);
                    assert(rest =~= Seq::new(n, |i: int| !done.contains(i)));
                    if rest.contains(true) {
                        let k = choose|k: int| 0 <= k < rest.len() && rest[k] == true;
                        assert(!done.contains(k));
                    } else {
                        assert forall|i: int| 0 <= i < n implies #[trigger] done.contains(i) by {
                            if !done.contains(i) {
                                assert(rest[i] == true);
                            }
                        }
                    }
                } else {
                    assert(!done.contains(j));
                    assert(out =~= Seq::new(n, |i: int| !done.contains(i)));
                }
            },
            None => {
                assert forall|i: int| 0 <= i < n implies #[trigger] done.contains(i) by {
                    assert(d.contains(i));
                }
            },
        }
    }
}

/// Once a batch is started for a non-empty set of sources, it stays running
/// until the check of every source has finished, in whatever order they
/// finish, and it ends then; until then exactly the unfinished sources are
/// outstanding.
pub proof fn batch_ends_when_every_source_is_done(v: FetchView, sources: Seq<ProjectPath>, done: Seq<int>)
    requires
        sources.len() > 0,
    ensures
        ({
            let (v1, token) = started(v, sources);
            let v2 = after_done(v1, v.next_token, done);
            &&& token == Some(v.next_token)
            &&& v2.running is None <==> forall|i: int| 0 <= i < sources.len() ==> #[trigger] done.contains(i)
            &&& v2.running is Some ==> v2.running == Some((v.next_token, Seq::new(sources.len(), |i: int| !done.contains(i))))
        }),
{
    let (v1, token) = started(v, sources);
    lemma_after_done(v1, v.next_token, sources.len(), done);
}

} // verus!

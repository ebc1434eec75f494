//! Bounded, fixed-interval waiting for a reported service state.
use vstd::prelude::*;
use crate::state::ServiceState;

verus! {

/// How a wait for a target state ended.
#[derive(Debug, Clone, Copy, PartialEq, Eq, Structural)]
pub enum PollStatus {
    /// The target state was observed.
    NoTimeout,
    /// The time ran out; holds the state observed last.
    Timeout(ServiceState),
}

/// What the host does next for a poller.
#[derive(Debug, Clone, Copy, PartialEq, Eq, Structural)]
pub enum PollStep {
    /// Sleep this many milliseconds, then wake the poller.
    Sleep(u64),
    /// Query the state again and hand it to the poller.
    Query,
    /// The wait is over.
    Finished(PollStatus),
}

/// The number of queries a wait may make: `ceil(timeout / wait_hint)`, and at
/// least one.
#[verifier::opaque]
pub open spec fn query_limit(timeout: nat, wait_hint: nat) -> nat
    recommends
        wait_hint > 0,
{
    if timeout == 0 {
        1
    } else {
        ((timeout + wait_hint - 1) / wait_hint as int) as nat
    }
}

/// The time waited after `queries` sleeps of `wait_hint`, counted up to
/// `timeout` and no further.
#[verifier::opaque]
pub open spec fn capped_wait(queries: nat, wait_hint: nat, timeout: nat) -> nat {
    if queries * wait_hint >= timeout {
        timeout
    } else {
        queries * wait_hint
    }
}

/// Waits for a service to reach `target`: after each query that sees another
/// state it sleeps `wait_hint` milliseconds, and gives up once `timeout`
/// milliseconds of sleep have accumulated.
#[derive(Debug, Clone, Copy)]
pub struct Poller {
    pub target: ServiceState,
    pub timeout: u64,
    pub wait_hint: u64,
    /// Sleep accumulated so far, counted up to `timeout`.
    pub waited: u64,
    /// Queries answered so far.
    pub queries: u64,
    /// The state that the latest query observed.
    pub last: ServiceState,
    /// A sleep was asked for and the poller has not been woken since.
    pub sleeping: bool,
    pub finished: bool,
}

/// One observed state given to a poller: its next value and what it asks for.
/// The target ends the wait at once, without sleeping; any other state asks
/// for one sleep of `wait_hint`, which is added to the time waited.
pub open spec fn poll_step(p: Poller, observed: ServiceState) -> (Poller, PollStep) {
    let q = Poller { queries: (p.queries + 1) as u64, last: observed, ..p };
    if observed == p.target {
        (Poller { finished: true, ..q }, PollStep::Finished(PollStatus::NoTimeout))
    } else {
        let waited = if p.waited + p.wait_hint >= p.timeout {
            p.timeout
        } else {
            (p.waited + p.wait_hint) as u64
        };
        (Poller { waited, sleeping: true, ..q }, PollStep::Sleep(p.wait_hint))
    }
}

/// A poller woken after its sleep: once the time waited reaches `timeout`
/// the wait ends with the state observed last, without another query.
pub open spec fn poll_wake(p: Poller) -> (Poller, PollStep) {
    if p.waited >= p.timeout {
        (
            Poller { sleeping: false, finished: true, ..p },
            PollStep::Finished(PollStatus::Timeout(p.last)),
        )
    } else {
        (Poller { sleeping: false, ..p }, PollStep::Query)
    }
}

/// A poller handed the states in `observed` one by one, and woken after each
/// sleep, until it finishes: the sleeps it asked for, and how the wait ended
/// (`None` where the states ran out first).
pub open spec fn poll_run(p: Poller, observed: Seq<ServiceState>) -> (Seq<u64>, Option<PollStatus>)
    decreases observed.len(),
{
    if observed.len() == 0 || p.finished || p.sleeping {
        (seq![], None)
    } else {
        let (p1, s1) = poll_step(p, observed[0]);
        match s1 {
            PollStep::Sleep(d) => {
                let (p2, s2) = poll_wake(p1);
                match s2 {
                    PollStep::Finished(status) => (seq![d], Some(status)),
                    _ => {
                        let (sleeps, end) = poll_run(p2, observed.drop_first());
                        (seq![d].add(sleeps), end)
                    },
                }
            },
            PollStep::Finished(status) => (seq![], Some(status)),
            PollStep::Query => (seq![], None),
        }
    }
}

/// A fresh poller, handed the states that a service reports to successive
/// queries, ends with `NoTimeout` when the target is among the first
/// `ceil(timeout / wait_hint)` of them, after one sleep for each state before
/// it; otherwise it ends with `Timeout` of the last of those, after exactly
/// one sleep of `wait_hint` per query. The total sleep thus never exceeds
/// `timeout` by more than one `wait_hint`.
pub proof fn lemma_poll_outcome(
    target: ServiceState,
    timeout: u64,
    wait_hint: u64,
    observed: Seq<ServiceState>,
)
    requires
        wait_hint > 0,
        observed.len() >= query_limit(timeout as nat, wait_hint as nat),
    ensures
        ({
            let k = query_limit(timeout as nat, wait_hint as nat);
            let p = Poller {
                target,
                timeout,
                wait_hint,
                waited: 0,
                queries: 0,
                last: target,
                sleeping: false,
                finished: false,
            };
            let (sleeps, end) = poll_run(p, observed);
            &&& (exists|i: int| 0 <= i < k && observed[i] == target) ==> end == Some(
                PollStatus::NoTimeout,
            )
            &&& forall|i: int|
                0 <= i < k && observed[i] == target && (forall|j: int| 0 <= j < i ==> observed[j]
                    != target) ==> sleeps.len() == i
            &&& (forall|i: int| 0 <= i < k ==> observed[i] != target) ==> (end == Some(
                PollStatus::Timeout(observed[k - 1]),
            ) && sleeps.len() == k)
            &&& forall|j: int| 0 <= j < sleeps.len() ==> sleeps[j] == wait_hint
            &&& sleeps.len() * wait_hint <= timeout + wait_hint
        }),
{
    let k = query_limit(timeout as nat, wait_hint as nat);
    let p = Poller {
        target,
        timeout,
        wait_hint,
        waited: 0,
        queries: 0,
        last: target,
        sleeping: false,
        finished: false,
    };
    lemma_limit(timeout as nat, wait_hint as nat, 0);
    assert(p.wf()) by {
        reveal(capped_wait);
        assert(0 * wait_hint == 0) by (nonlinear_arith);
    }
    lemma_poll_run(p, observed);
    assert(k - 0 == k);
    let n = poll_run(p, observed).0.len();
    lemma_limit(timeout as nat, wait_hint as nat, (k - 1) as nat);
    assert(n <= k);
    assert(n * wait_hint <= k * wait_hint) by (nonlinear_arith)
        requires n <= k, wait_hint > 0;
    assert(k * wait_hint == (k - 1) * wait_hint + wait_hint) by (nonlinear_arith)
        requires k >= 1;
    if k > 1 {
        assert((k - 1) * wait_hint < timeout);
    } else {
        assert(k * wait_hint == wait_hint) by (nonlinear_arith)
            requires k == 1;
    }
}

/// A run over `observed` that may make `m` more queries ends with
/// `NoTimeout` where the target is among them.
pub open spec fn shows_found(observed: Seq<ServiceState>, target: ServiceState, m: int, end: Option<PollStatus>) -> bool {
    (exists|i: int| 0 <= i < m && observed[i] == target) ==> end == Some(PollStatus::NoTimeout)
}

/// The run sleeps once for each state before the first target.
pub open spec fn shows_first(observed: Seq<ServiceState>, target: ServiceState, m: int, sleeps: Seq<u64>) -> bool {
    forall|i: int|
        0 <= i < m && #[trigger] observed[i] == target && no_target_before(observed, target, i)
            ==> sleeps.len() == i
}

/// None of the first `i` states is the target.
pub open spec fn no_target_before(observed: Seq<ServiceState>, target: ServiceState, i: int) -> bool {
    forall|j: int| 0 <= j < i ==> observed[j] != target
}

/// Without the target the run ends with `Timeout` of its last state, after
/// one sleep per query.
pub open spec fn shows_timeout(
    observed: Seq<ServiceState>,
    target: ServiceState,
    m: int,
    sleeps: Seq<u64>,
    end: Option<PollStatus>,
) -> bool {
    no_target_before(observed, target, m) ==> (end == Some(PollStatus::Timeout(observed[m - 1]))
        && sleeps.len() == m)
}

/// What a run of a poller that may still make `m` queries, handed
/// `observed`, must show: the sleeps it asked for and how it ended.
pub open spec fn run_shows(
    observed: Seq<ServiceState>,
    target: ServiceState,
    m: int,
    wait_hint: u64,
    sleeps: Seq<u64>,
    end: Option<PollStatus>,
) -> bool {
    &&& shows_found(observed, target, m, end)
    &&& shows_first(observed, target, m, sleeps)
    &&& shows_timeout(observed, target, m, sleeps, end)
    &&& forall|j: int| 0 <= j < sleeps.len() ==> sleeps[j] == wait_hint
    &&& sleeps.len() <= m
}

proof fn lemma_poll_run(p: Poller, observed: Seq<ServiceState>)
    requires
        p.wf(),
        !p.finished,
        !p.sleeping,
        p.queries < query_limit(p.timeout as nat, p.wait_hint as nat),
        observed.len() + p.queries >= query_limit(p.timeout as nat, p.wait_hint as nat),
    ensures
        run_shows(
            observed,
            p.target,
            query_limit(p.timeout as nat, p.wait_hint as nat) - p.queries,
            p.wait_hint,
            poll_run(p, observed).0,
            poll_run(p, observed).1,
        ),
    decreases observed.len(),
{
    let k = query_limit(p.timeout as nat, p.wait_hint as nat);
    let m = k - p.queries;
    assert(observed.len() > 0);
    if observed[0] == p.target {
        assert(poll_run(p, observed) == (Seq::<u64>::empty(), Some(PollStatus::NoTimeout)));
        assert forall|i: int|
            0 <= i < m && #[trigger] observed[i] == p.target && no_target_before(observed, p.target, i)
                implies i == 0 by {
            if i > 0 {
                assert(observed[0] != p.target);
            }
        }
        assert(!no_target_before(observed, p.target, m));
    } else {
        lemma_cycle(p, observed[0]);
        let (p1, s1) = poll_step(p, observed[0]);
        let (p2, s2) = poll_wake(p1);
        if s2 is Finished {
            assert(m == 1);
            assert(poll_run(p, observed) == (seq![p.wait_hint], Some(PollStatus::Timeout(observed[0]))));
            assert forall|i: int|
                0 <= i < m && #[trigger] observed[i] == p.target implies false by {}
        } else {
            let rest = observed.drop_first();
            lemma_poll_run(p2, rest);
            let (sleeps, end) = poll_run(p2, rest);
            assert(poll_run(p, observed) == (seq![p.wait_hint].add(sleeps), end));
            lemma_shift(observed, p.target, m, p.wait_hint, sleeps, end);
        }
    }
}

/// A run that begins with a query missing the target and one sleep shows
/// what the rest of the run shows, shifted by that query.
proof fn lemma_shift(
    observed: Seq<ServiceState>,
    target: ServiceState,
    m: int,
    wait_hint: u64,
    sleeps: Seq<u64>,
    end: Option<PollStatus>,
)
    requires
        m >= 2,
        observed.len() >= m,
        observed[0] != target,
        run_shows(observed.drop_first(), target, m - 1, wait_hint, sleeps, end),
    ensures
        run_shows(observed, target, m, wait_hint, seq![wait_hint].add(sleeps), end),
{
    let rest = observed.drop_first();
    let all = seq![wait_hint].add(sleeps);
    assert(shows_found(observed, target, m, end)) by {
        if exists|i: int| 0 <= i < m && observed[i] == target {
            let i = choose|i: int| 0 <= i < m && observed[i] == target;
            assert(i > 0);
            assert(rest[i - 1] == target);
        }
    }
    assert(shows_first(observed, target, m, all)) by {
        assert forall|i: int|
            0 <= i < m && #[trigger] observed[i] == target && no_target_before(observed, target, i)
                implies all.len() == i by {
            assert(i > 0);
            assert(rest[i - 1] == target);
            assert(no_target_before(rest, target, i - 1)) by {
                assert forall|j: int| 0 <= j < i - 1 implies rest[j] != target by {
                    assert(observed[j + 1] != target);
                }
            }
        }
    }
    assert(shows_timeout(observed, target, m, all, end)) by {
        if no_target_before(observed, target, m) {
            assert(no_target_before(rest, target, m - 1)) by {
                assert forall|j: int| 0 <= j < m - 1 implies rest[j] != target by {
                    assert(observed[j + 1] != target);
                }
            }
            assert(rest[m - 2] == observed[m - 1]);
        }
    }
    assert forall|j: int| 0 <= j < all.len() implies all[j] == wait_hint by {
        if j > 0 {
            assert(all[j] == sleeps[j - 1]);
        }
    }
}

/// One query that misses the target, then the sleep: the wait ends with that
/// state exactly when the query was the last one allowed, and otherwise the
/// poller may query once more.
proof fn lemma_cycle(p: Poller, observed: ServiceState)
    requires
        p.wf(),
        !p.finished,
        !p.sleeping,
        p.queries < query_limit(p.timeout as nat, p.wait_hint as nat),
        observed != p.target,
    ensures
        ({
            let k = query_limit(p.timeout as nat, p.wait_hint as nat);
            let (p1, s1) = poll_step(p, observed);
            let (p2, s2) = poll_wake(p1);
            &&& s1 == PollStep::Sleep(p.wait_hint)
            &&& (s2 is Finished <==> p.queries + 1 == k)
            &&& s2 is Finished ==> s2 == PollStep::Finished(PollStatus::Timeout(observed))
            &&& !(s2 is Finished) ==> (s2 is Query && p2.wf() && !p2.finished && !p2.sleeping
                && p2.queries == p.queries + 1 && p2.target == p.target && p2.timeout == p.timeout
                && p2.wait_hint == p.wait_hint)
        }),
{
    let t = p.timeout as nat;
    let h = p.wait_hint as nat;
    let q = p.queries as nat;
    lemma_limit(t, h, q);
    lemma_limit(t, h, q + 1);
    lemma_advance(q, h, t);
    reveal(capped_wait);
}

impl Poller {
    /// Within its bounds: the time waited is one `wait_hint` per query,
    /// counted up to `timeout`; another query is made only while less than
    /// `timeout` was waited; a sleeping poller has made a query.
    pub open spec fn wf(&self) -> bool {
        &&& self.wait_hint > 0
        &&& !self.finished ==> self.waited == capped_wait(
            self.queries as nat,
            self.wait_hint as nat,
            self.timeout as nat,
        )
        &&& (!self.finished && !self.sleeping) ==> (self.queries == 0 || self.waited < self.timeout)
        &&& self.sleeping ==> (!self.finished && self.queries >= 1)
    }

    /// A poller that has made no query yet. A zero interval is refused.
    pub fn new(target: ServiceState, timeout: u64, wait_hint: u64) -> (r: Poller)
        requires
            wait_hint > 0,
        ensures
            r.wf(),
            r == (Poller {
                target,
                timeout,
                wait_hint,
                waited: 0,
                queries: 0,
                last: target,
                sleeping: false,
                finished: false,
            }),
    {
        proof {
            reveal(capped_wait);
        }
        assert(0 * wait_hint == 0) by (nonlinear_arith);
        Poller {
            target,
            timeout,
            wait_hint,
            waited: 0,
            queries: 0,
            last: target,
            sleeping: false,
            finished: false,
        }
    }

    /// Takes the state that the latest query observed. The target ends the
    /// wait at once, without sleeping; any other state asks for one sleep of
    /// `wait_hint`, added to the time waited.
    pub fn observe(&mut self, observed: ServiceState) -> (r: PollStep)
        requires
            old(self).wf(),
            !old(self).finished,
            !old(self).sleeping,
        ensures
            final(self).wf(),
            (*final(self), r) == poll_step(*old(self), observed),
            observed == old(self).target ==> r == PollStep::Finished(PollStatus::NoTimeout),
            observed != old(self).target ==> r == PollStep::Sleep(old(self).wait_hint),
            final(self).queries == old(self).queries + 1,
    {
        proof {
            lemma_advance(self.queries as nat, self.wait_hint as nat, self.timeout as nat);
        }
        self.queries = self.queries + 1;
        self.last = observed;
        if observed == self.target {
            self.finished = true;
            PollStep::Finished(PollStatus::NoTimeout)
        } else {
            if self.timeout - self.waited <= self.wait_hint {
                self.waited = self.timeout;
            } else {
                self.waited = self.waited + self.wait_hint;
            }
            self.sleeping = true;
            PollStep::Sleep(self.wait_hint)
        }
    }

    /// Wakes the poller after its sleep. Once the time waited reaches
    /// `timeout` (after `ceil(timeout / wait_hint)` queries, and at least one)
    /// the wait ends with the state observed last; otherwise it asks for
    /// another query.
    pub fn wake(&mut self) -> (r: PollStep)
        requires
            old(self).wf(),
            old(self).sleeping,
        ensures
            final(self).wf(),
            (*final(self), r) == poll_wake(*old(self)),
            r == PollStep::Finished(PollStatus::Timeout(old(self).last)) || r == PollStep::Query,
            r is Finished <==> old(self).queries >= query_limit(
                old(self).timeout as nat,
                old(self).wait_hint as nat,
            ),
    {
        proof {
            let (t, h, q) = (self.timeout as nat, self.wait_hint as nat, self.queries as nat);
            lemma_limit(t, h, q);
            reveal(capped_wait);
        }
        self.sleeping = false;
        if self.waited >= self.timeout {
            self.finished = true;
            PollStep::Finished(PollStatus::Timeout(self.last))
        } else {
            PollStep::Query
        }
    }
}

/// One more query from a poller that may still query: the time waited is
/// exactly one `wait_hint` per query so far, and the next sleep adds one more,
/// counted up to `timeout`.
proof fn lemma_advance(q: nat, h: nat, t: nat)
    requires
        h > 0,
        q == 0 || capped_wait(q, h, t) < t,
    ensures
        capped_wait(q, h, t) == q * h,
        q <= q * h,
        capped_wait(q + 1, h, t) == (if q * h + h >= t {
            t
        } else {
            q * h + h
        }),
{
    reveal(capped_wait);
    assert(q <= q * h) by (nonlinear_arith)
        requires h > 0;
    assert((q + 1) * h == q * h + h) by (nonlinear_arith);
    if q == 0 {
        assert(q * h == 0) by (nonlinear_arith)
            requires q == 0;
    }
}

/// Query number `q + 1` is within the limit exactly when nothing or less than
/// `timeout` was waited before it.
proof fn lemma_limit(t: nat, h: nat, q: nat)
    requires
        h > 0,
    ensures
        q < query_limit(t, h) <==> (q == 0 || q * h < t),
{
    reveal(query_limit);
    if t > 0 {
        let l = query_limit(t, h);
        assert(l == (t + h - 1) / h as int);
        vstd::arithmetic::div_mod::lemma_fundamental_div_mod((t + h - 1) as int, h as int);
        let r = ((t + h - 1) as int) % (h as int);
        assert(0 <= r < h) by {
            vstd::arithmetic::div_mod::lemma_mod_bound((t + h - 1) as int, h as int);
        }
        assert((t + h - 1) == h * l + r);
        if q < l {
            assert(q + 1 <= l);
            assert(q * h + h <= l * h) by (nonlinear_arith)
                requires q + 1 <= l, h > 0;
            assert(l * h == h * l) by (nonlinear_arith);
        } else {
            assert(l <= q);
            assert(l * h <= q * h) by (nonlinear_arith)
                requires l <= q, h > 0;
            assert(l * h == h * l) by (nonlinear_arith);
        }
    }
}

} // verus!

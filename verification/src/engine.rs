use vstd::prelude::*;

use crate::error::ScanError;
use crate::limiter::Limiter;
use crate::probe::{classify, spec_classify, ProbeOutcome, ProbeResult};

verus! {

/// One scan invocation as the caller hands it over: the target host, the
/// candidate ports (duplicates permitted, each probed independently), the
/// per-probe deadline in milliseconds, and the concurrency ceiling.
pub struct ScanRequest {
    pub host: String,
    pub ports: Vec<u16>,
    pub timeout_ms: u64,
    pub concurrency: usize,
}

/// Counts the result slots that already hold a verdict.
pub open spec fn count_done(s: Seq<Option<bool>>) -> nat
    decreases s.len(),
{
    if s.len() == 0 {
        0
    } else {
        count_done(s.drop_last()) + (if s.last() is Some { 1nat } else { 0nat })
    }
}

proof fn lemma_count_done_le_len(s: Seq<Option<bool>>)
    ensures
        count_done(s) <= s.len(),
    decreases s.len(),
{
    if s.len() > 0 {
        lemma_count_done_le_len(s.drop_last());
    }
}

proof fn lemma_count_done_none(s: Seq<Option<bool>>)
    requires
        forall|i: int| 0 <= i < s.len() ==> s[i] is None,
    ensures
        count_done(s) == 0,
    decreases s.len(),
{
    if s.len() > 0 {
        lemma_count_done_none(s.drop_last());
    }
}

proof fn lemma_count_done_lt(s: Seq<Option<bool>>, index: int)
    requires
        0 <= index < s.len(),
        s[index] is None,
    ensures
        count_done(s) < s.len(),
    decreases s.len(),
{
    if index == s.len() - 1 {
        lemma_count_done_le_len(s.drop_last());
    } else {
        lemma_count_done_lt(s.drop_last(), index);
    }
}

proof fn lemma_count_done_lt_prefix(s: Seq<Option<bool>>, n: int, index: int)
    requires
        0 <= index < n <= s.len(),
        s[index] is None,
        forall|i: int| n <= i < s.len() ==> s[i] is None,
    ensures
        count_done(s) < n,
    decreases s.len(),
{
    if n == s.len() {
        lemma_count_done_lt(s, index);
    } else {
        lemma_count_done_lt_prefix(s.drop_last(), n, index);
    }
}

proof fn lemma_count_done_update(s: Seq<Option<bool>>, index: int, verdict: bool)
    requires
        0 <= index < s.len(),
        s[index] is None,
    ensures
        count_done(s.update(index, Some(verdict))) == count_done(s) + 1,
    decreases s.len(),
{
    let t = s.update(index, Some(verdict));
    if index == s.len() - 1 {
        assert(t.drop_last() =~= s.drop_last());
    } else {
        lemma_count_done_update(s.drop_last(), index, verdict);
        assert(t.drop_last() =~= s.drop_last().update(index, Some(verdict)));
    }
}

proof fn lemma_count_done_full(s: Seq<Option<bool>>)
    requires
        count_done(s) == s.len(),
    ensures
        forall|i: int| 0 <= i < s.len() ==> s[i] is Some,
    decreases s.len(),
{
    if s.len() > 0 {
        if s.last() is None {
            lemma_count_done_le_len(s.drop_last());
        }
        lemma_count_done_full(s.drop_last());
        assert(forall|i: int| 0 <= i < s.len() - 1 ==> s[i] == s.drop_last()[i]);
    }
}

/// The bounded-concurrency scan engine for one invocation.
///
/// The engine makes every decision of a scan — which port to probe next,
/// whether a limiter slot is free, when the scan is complete — while the
/// caller performs the actual connection attempts and feeds each outcome
/// back in. One result slot exists per requested port; a slot is filled
/// exactly once, when that port's probe resolves.
pub struct ScanEngine {
    host: String,
    ports: Vec<u16>,
    timeout_ms: u64,
    limiter: Limiter,
    launched: usize,
    results: Vec<Option<bool>>,
}

impl ScanEngine {
    /// The target host.
    pub closed spec fn spec_host(self) -> Seq<char> {
        self.host@
    }

    /// The requested ports, in submission order.
    pub closed spec fn spec_ports(self) -> Seq<u16> {
        self.ports@
    }

    /// The per-probe deadline in milliseconds.
    pub closed spec fn spec_timeout_ms(self) -> u64 {
        self.timeout_ms
    }

    /// The concurrency ceiling the engine was configured with.
    pub closed spec fn spec_concurrency(self) -> int {
        self.limiter.spec_capacity()
    }

    /// How many probes have been launched so far. Ports are launched in
    /// submission order, so exactly the ports at indices below this count
    /// have been handed out.
    pub closed spec fn spec_launched(self) -> int {
        self.launched as int
    }

    /// One slot per requested port: `None` while that port's probe has not
    /// resolved, `Some(verdict)` once it has.
    pub closed spec fn spec_results(self) -> Seq<Option<bool>> {
        self.results@
    }

    /// The number of probes whose connection attempt is outstanding:
    /// launched but without a recorded verdict yet.
    pub open spec fn in_flight(self) -> int {
        self.spec_launched() - count_done(self.spec_results())
    }

    /// The scan is complete when every port has been launched and every
    /// launched probe has resolved.
    pub open spec fn done(self) -> bool {
        &&& self.spec_launched() == self.spec_ports().len()
        &&& self.in_flight() == 0
    }

    /// Well-formedness, established by the constructor and preserved by
    /// every step: one result slot per port, launches never exceed the
    /// port count, unlaunched slots are empty, and the limiter's taken
    /// slots are exactly the in-flight probes.
    pub closed spec fn wf(self) -> bool {
        &&& self.results@.len() == self.ports@.len()
        &&& self.launched <= self.ports@.len()
        &&& forall|i: int| self.launched <= i < self.results@.len() ==> self.results@[i] is None
        &&& self.limiter.wf()
        &&& self.limiter.spec_in_flight() == self.launched - count_done(self.results@)
    }

    /// Validates the request and sets up the engine.
    ///
    /// A concurrency ceiling of zero is invalid configuration and is
    /// rejected immediately — the scan neither hangs nor runs unbounded.
    pub fn new(request: ScanRequest) -> (r: Result<ScanEngine, ScanError>)
        ensures
            r is Err <==> request.concurrency == 0,
            r matches Err(e) ==> e == ScanError::ConfigurationError,
            r matches Ok(engine) ==> ({
                &&& engine.wf()
                &&& engine.spec_host() == request.host@
                &&& engine.spec_ports() == request.ports@
                &&& engine.spec_timeout_ms() == request.timeout_ms
                &&& engine.spec_concurrency() == request.concurrency
                &&& engine.spec_launched() == 0
                &&& engine.in_flight() == 0
                &&& forall|i: int| 0 <= i < engine.spec_results().len()
                    ==> engine.spec_results()[i] is None
            }),
    {
        if request.concurrency == 0 {
            return Err(ScanError::ConfigurationError);
        }
        let ScanRequest { host, ports, timeout_ms, concurrency } = request;
        let limiter = Limiter::new(concurrency);
        let n = ports.len();
        let mut results: Vec<Option<bool>> = Vec::new();
        let mut i: usize = 0;
        while i < n
            invariant
                i <= n,
                results@.len() == i,
                forall|j: int| 0 <= j < i ==> results@[j] is None,
            decreases n - i,
        {
            results.push(None);
            i = i + 1;
        }
        let engine = ScanEngine { host, ports, timeout_ms, limiter, launched: 0, results };
        proof {
            lemma_count_done_none(engine.results@);
        }
        Ok(engine)
    }

    /// Whether the next probe may start right now: a port remains
    /// unlaunched and a limiter slot is free. When this is false but the
    /// scan is not done, the caller waits for an in-flight probe to
    /// resolve instead.
    pub fn can_launch(&self) -> (r: bool)
        requires
            self.wf(),
        ensures
            r == (self.spec_launched() < self.spec_ports().len()
                && self.in_flight() < self.spec_concurrency()),
    {
        self.launched < self.ports.len() && self.limiter.available()
    }

    /// Hands out the next probe: takes a limiter slot and returns the
    /// index and port the caller must now attempt to connect to.
    pub fn launch(&mut self) -> (r: (usize, u16))
        requires
            old(self).wf(),
            old(self).spec_launched() < old(self).spec_ports().len(),
            old(self).in_flight() < old(self).spec_concurrency(),
        ensures
            final(self).wf(),
            r.0 == old(self).spec_launched(),
            r.1 == old(self).spec_ports()[r.0 as int],
            final(self).spec_launched() == old(self).spec_launched() + 1,
            final(self).in_flight() == old(self).in_flight() + 1,
            final(self).spec_results() == old(self).spec_results(),
            final(self).spec_ports() == old(self).spec_ports(),
            final(self).spec_host() == old(self).spec_host(),
            final(self).spec_timeout_ms() == old(self).spec_timeout_ms(),
            final(self).spec_concurrency() == old(self).spec_concurrency(),
    {
        let index = self.launched;
        let port = self.ports[index];
        self.limiter.acquire();
        proof {
            assert(index < self.ports.len());
        }
        self.launched = index + 1;
        (index, port)
    }

    /// Whether the probe handed out under `index` is still unresolved, so
    /// that its outcome may be recorded.
    pub fn is_pending(&self, index: usize) -> (r: bool)
        requires
            self.wf(),
        ensures
            r == (index < self.spec_launched() && self.spec_results()[index as int] is None),
    {
        index < self.launched && self.results[index].is_none()
    }

    /// Records the outcome of the probe handed out under `index`, filling
    /// that port's result slot with the reachability verdict and returning
    /// the limiter slot the moment the attempt has resolved.
    pub fn complete(&mut self, index: usize, outcome: ProbeOutcome)
        requires
            old(self).wf(),
            index < old(self).spec_launched(),
            old(self).spec_results()[index as int] is None,
        ensures
            final(self).wf(),
            final(self).spec_results()
                == old(self).spec_results().update(index as int, Some(spec_classify(outcome))),
            final(self).in_flight() == old(self).in_flight() - 1,
            final(self).spec_launched() == old(self).spec_launched(),
            final(self).spec_ports() == old(self).spec_ports(),
            final(self).spec_host() == old(self).spec_host(),
            final(self).spec_timeout_ms() == old(self).spec_timeout_ms(),
            final(self).spec_concurrency() == old(self).spec_concurrency(),
    {
        proof {
            lemma_count_done_lt_prefix(self.results@, self.launched as int, index as int);
            lemma_count_done_update(self.results@, index as int, spec_classify(outcome));
        }
        let reachable = classify(outcome);
        self.results.set(index, Some(reachable));
        self.limiter.release();
    }

    /// Whether every requested port has a verdict.
    pub fn is_done(&self) -> (r: bool)
        requires
            self.wf(),
        ensures
            r == self.done(),
    {
        self.launched == self.ports.len() && self.limiter.idle()
    }

    /// Returns the complete reachability map: exactly one entry per
    /// requested port (duplicate ports yield duplicate entries), each
    /// carrying the verdict that was recorded for it. Result order carries
    /// no meaning.
    pub fn finish(&self) -> (r: Vec<ProbeResult>)
        requires
            self.wf(),
            self.done(),
        ensures
            r@.len() == self.spec_ports().len(),
            forall|i: int| 0 <= i < r@.len()
                ==> r@[i].port == self.spec_ports()[i]
                    && self.spec_results()[i] == Some(r@[i].reachable),
    {
        proof {
            lemma_count_done_full(self.results@);
        }
        let n = self.ports.len();
        let mut out: Vec<ProbeResult> = Vec::new();
        let mut i: usize = 0;
        while i < n
            invariant
                i <= n,
                n == self.spec_ports().len(),
                self.wf(),
                out@.len() == i,
                forall|j: int| 0 <= j < self.spec_results().len()
                    ==> self.spec_results()[j] is Some,
                forall|j: int| 0 <= j < i
                    ==> out@[j].port == self.spec_ports()[j]
                        && self.spec_results()[j] == Some(out@[j].reachable),
            decreases n - i,
        {
            proof {
                assert(self.spec_results()[i as int] is Some);
            }
            let verdict = self.results[i].unwrap();
            out.push(ProbeResult { port: self.ports[i], reachable: verdict });
            i = i + 1;
        }
        out
    }

    /// The target host, for the caller to connect to.
    pub fn host(&self) -> (r: &String)
        ensures
            r@ == self.spec_host(),
    {
        &self.host
    }

    /// The per-probe deadline in milliseconds, for the caller to enforce.
    pub fn timeout_ms(&self) -> (r: u64)
        ensures
            r == self.spec_timeout_ms(),
    {
        self.timeout_ms
    }

    /// The concurrency ceiling the engine was configured with.
    pub fn concurrency(&self) -> (r: usize)
        ensures
            r as int == self.spec_concurrency(),
    {
        self.limiter.capacity()
    }
}

/// The concurrency cap: in every well-formed engine state, the number of
/// probes with an outstanding connection attempt never exceeds the
/// requested concurrency ceiling.
pub proof fn lemma_concurrency_cap(engine: ScanEngine)
    requires
        engine.wf(),
    ensures
        0 <= engine.in_flight() <= engine.spec_concurrency(),
{
}

/// A ceiling of one fully serializes the scan: at most one connection
/// attempt is ever outstanding, so the probes run strictly one after
/// another.
pub proof fn lemma_serialized(engine: ScanEngine)
    requires
        engine.wf(),
        engine.spec_concurrency() == 1,
    ensures
        engine.in_flight() <= 1,
{
    lemma_concurrency_cap(engine);
}

/// A ceiling at least as large as the number of requested ports never
/// delays a launch: whenever a port remains unlaunched, a limiter slot is
/// free, so every probe starts without waiting on any other probe — the
/// whole scan runs as one fully parallel wave.
pub proof fn lemma_full_parallelism(engine: ScanEngine)
    requires
        engine.wf(),
        engine.spec_concurrency() >= engine.spec_ports().len(),
        engine.spec_launched() < engine.spec_ports().len(),
    ensures
        engine.in_flight() < engine.spec_concurrency(),
{
}

} // verus!

//! The supervisor: owns the mapping from source identity to worker,
//! dispatches addressed commands, and restarts workers that terminated.
//!
//! Per-source resources are fully isolated: every operation addressed at one
//! source leaves every other source's worker — in particular its graph —
//! untouched, which bounds the blast radius of a single source's failure.

use vstd::prelude::*;

use crate::engine::{BuildOutcome, GraphEvent};
use crate::errors::{AddressError, BuildError};
use crate::worker::{
    CmdOutcome, ControlCommand, EngineAnswers, EventOutcome, RunEntry, SourceWorker, WorkerPhase,
    event_post, handle_post, run_entry_post, same_identity, start_post,
};

verus! {

/// Position of the first worker registered under `source`, scanning from `k`.
pub open spec fn registered_from(workers: Seq<SourceWorker>, source: Seq<char>, k: int) -> Option<
    int,
>
    decreases workers.len() - k,
{
    if k < 0 || k >= workers.len() {
        None
    } else if workers[k].source@ == source {
        Some(k)
    } else {
        registered_from(workers, source, k + 1)
    }
}

/// Position of the worker registered under `source`, if any.
pub open spec fn registered(workers: Seq<SourceWorker>, source: Seq<char>) -> Option<int> {
    registered_from(workers, source, 0)
}

proof fn lemma_registered_found(workers: Seq<SourceWorker>, source: Seq<char>, k: int, i: int)
    requires
        0 <= k <= i < workers.len(),
        workers[i].source@ == source,
        forall|j: int| k <= j < i ==> (#[trigger] workers[j]).source@ != source,
    ensures
        registered_from(workers, source, k) == Some(i),
    decreases i - k,
{
    if k < i {
        lemma_registered_found(workers, source, k + 1, i);
    }
}

proof fn lemma_registered_none(workers: Seq<SourceWorker>, source: Seq<char>, k: int)
    requires
        0 <= k,
        forall|j: int| k <= j < workers.len() ==> (#[trigger] workers[j]).source@ != source,
    ensures
        registered_from(workers, source, k) is None,
    decreases workers.len() - k,
{
    if k < workers.len() {
        lemma_registered_none(workers, source, k + 1);
    }
}

proof fn lemma_registered_none_props(workers: Seq<SourceWorker>, source: Seq<char>, k: int)
    requires
        0 <= k,
        registered_from(workers, source, k) is None,
    ensures
        forall|j: int| k <= j < workers.len() ==> (#[trigger] workers[j]).source@ != source,
    decreases workers.len() - k,
{
    if k < workers.len() {
        lemma_registered_none_props(workers, source, k + 1);
    }
}

proof fn lemma_registered_props(workers: Seq<SourceWorker>, source: Seq<char>, k: int, i: int)
    requires
        0 <= k,
        registered_from(workers, source, k) == Some(i),
    ensures
        k <= i < workers.len(),
        workers[i].source@ == source,
    decreases workers.len() - k,
{
    if k < workers.len() && workers[k].source@ != source {
        lemma_registered_props(workers, source, k + 1, i);
    }
}

/// The supervisor, owning one worker per registered source.
pub struct Supervisor {
    pub workers: Vec<SourceWorker>,
}

impl Supervisor {
    /// No two workers serve the same source, and every worker is
    /// well-formed.
    pub open spec fn wf(self) -> bool {
        &&& forall|i: int, j: int|
            0 <= i < j < self.workers@.len() ==> (#[trigger] self.workers@[i]).source@ != (
            #[trigger] self.workers@[j]).source@
        &&& forall|i: int| 0 <= i < self.workers@.len() ==> (#[trigger] self.workers@[i]).wf()
    }

    /// An empty supervisor: no sources registered.
    pub fn new() -> (s: Supervisor)
        ensures
            s.wf(),
            s.workers@.len() == 0,
    {
        Supervisor { workers: Vec::new() }
    }

    /// Position of the worker registered under `source`, if any.
    fn find(&self, source: &String) -> (r: Option<usize>)
        ensures
            match r {
                Some(i) => i < self.workers@.len() && registered(self.workers@, source@) == Some(
                    i as int,
                ),
                None => registered(self.workers@, source@) is None,
            },
    {
        let mut k: usize = 0;
        while k < self.workers.len()
            invariant
                k <= self.workers@.len(),
                forall|j: int| 0 <= j < k ==> (#[trigger] self.workers@[j]).source@ != source@,
            decreases self.workers@.len() - k,
        {
            if self.workers[k].source == *source {
                proof {
                    lemma_registered_found(self.workers@, source@, 0, k as int);
                }
                return Some(k);
            }
            k += 1;
        }
        proof {
            lemma_registered_none(self.workers@, source@, 0);
        }
        None
    }

    /// Creates and starts one worker for `source` and registers it for
    /// addressed delivery. A source already registered is refused as
    /// `DuplicateSource`; a build failure of the initial start is returned
    /// in the inner result — the worker is registered anyway and stays
    /// eligible for a later start.
    pub fn spawn(&mut self, source: String, default_rate: u8, engine: &BuildOutcome) -> (r: Result<
        Result<(), BuildError>,
        AddressError,
    >)
        requires
            old(self).wf(),
        ensures
            final(self).wf(),
            (registered(old(self).workers@, source@) is Some ==> r == Err::<
                Result<(), BuildError>,
                AddressError,
            >(AddressError::DuplicateSource) && *final(self) == *old(self)),
            (registered(old(self).workers@, source@) is None ==> (r matches Ok(inner)
                && final(self).workers@.len() == old(self).workers@.len() + 1 && final(self).workers@.subrange(0, old(self).workers@.len() as int) == old(self).workers@ && {
                let w1 = final(self).workers@.last();
                &&& w1.source@ == source@
                &&& w1.default_rate == default_rate
                &&& start_post(
                    SourceWorker {
                        source: w1.source,
                        phase: WorkerPhase::Idle,
                        descriptor: None,
                        graph: None,
                        next_generation: 0,
                        default_rate,
                    },
                    w1,
                    *engine,
                    inner,
                )
            })),
    {
        match self.find(&source) {
            Some(_) => Err(AddressError::DuplicateSource),
            None => {
                let ghost source_view = source@;
                proof {
                    lemma_registered_none_props(self.workers@, source_view, 0);
                }
                let mut w = SourceWorker::new(source, default_rate);
                let inner = w.start(engine);
                self.workers.push(w);
                proof {
                    assert(final(self).workers@.subrange(0, old(self).workers@.len() as int)
                        =~= old(self).workers@);
                    let n = old(self).workers@.len() as int;
                    assert forall|i: int, j: int|
                        0 <= i < j < self.workers@.len() implies (#[trigger] self.workers@[i]).source@
                        != (#[trigger] self.workers@[j]).source@ by {
                        if j == n {
                            assert(self.workers@[i] == old(self).workers@[i]);
                            assert(self.workers@[j].source@ == source_view);
                        } else {
                            assert(self.workers@[i] == old(self).workers@[i]);
                            assert(self.workers@[j] == old(self).workers@[j]);
                        }
                    }
                    assert forall|i: int| 0 <= i < self.workers@.len() implies (
                    #[trigger] self.workers@[i]).wf() by {
                        if i < n {
                            assert(self.workers@[i] == old(self).workers@[i]);
                        }
                    }
                }
                Ok(inner)
            },
        }
    }

    /// Delivers one command to the worker registered under `source`, in
    /// inbox order; fire-and-forget for the caller, whose only failure is
    /// `UnknownSource`. Every other worker is untouched.
    pub fn dispatch(&mut self, source: &String, cmd: ControlCommand, engine: &EngineAnswers) -> (r:
        Result<CmdOutcome, AddressError>)
        requires
            old(self).wf(),
            forall|j: int|
                0 <= j < old(self).workers@.len() ==> (#[trigger] old(self).workers@[j]).next_generation < u64::MAX && (old(self).workers@[j].graph
                    matches Some(g) ==> g.next_id as int + 2 <= u64::MAX as int),
        ensures
            final(self).wf(),
            (registered(old(self).workers@, source@) is None ==> r == Err::<
                CmdOutcome,
                AddressError,
            >(AddressError::UnknownSource) && *final(self) == *old(self)),
            (registered(old(self).workers@, source@) matches Some(k) ==> (r matches Ok(out)
                && handle_post(old(self).workers@[k], final(self).workers@[k], cmd, *engine, out)
                && final(self).workers@ == old(self).workers@.update(k, final(self).workers@[k]))),
    {
        match self.find(source) {
            None => Err(AddressError::UnknownSource),
            Some(k) => {
                proof {
                    lemma_registered_props(self.workers@, source@, 0, k as int);
                }
                let out = self.workers[k].handle(cmd, engine);
                proof {
                    assert(final(self).workers@ =~= old(self).workers@.update(
                        k as int,
                        final(self).workers@[k as int],
                    ));
                }
                Ok(out)
            },
        }
    }

    /// The spawned run loop's entry, addressed by source and bound to the
    /// graph generation it was spawned for. Every other worker is untouched.
    pub fn enter_run(&mut self, source: &String, generation: u64, accepted: bool) -> (r: Result<
        RunEntry,
        AddressError,
    >)
        requires
            old(self).wf(),
        ensures
            final(self).wf(),
            (registered(old(self).workers@, source@) is None ==> r == Err::<RunEntry, AddressError>(
                AddressError::UnknownSource,
            ) && *final(self) == *old(self)),
            (registered(old(self).workers@, source@) matches Some(k) ==> (r matches Ok(out)
                && run_entry_post(
                old(self).workers@[k],
                final(self).workers@[k],
                generation,
                accepted,
                out,
            ) && final(self).workers@ == old(self).workers@.update(k, final(self).workers@[k]))),
    {
        match self.find(source) {
            None => Err(AddressError::UnknownSource),
            Some(k) => {
                let out = self.workers[k].run_enter(generation, accepted);
                proof {
                    assert(final(self).workers@ =~= old(self).workers@.update(
                        k as int,
                        final(self).workers@[k as int],
                    ));
                }
                Ok(out)
            },
        }
    }

    /// Delivers one bus event of the graph bound to `generation` to the
    /// worker registered under `source`. Every other worker is untouched.
    pub fn deliver_event(&mut self, source: &String, generation: u64, event: &GraphEvent) -> (r:
        Result<EventOutcome, AddressError>)
        requires
            old(self).wf(),
        ensures
            final(self).wf(),
            (registered(old(self).workers@, source@) is None ==> r == Err::<
                EventOutcome,
                AddressError,
            >(AddressError::UnknownSource) && *final(self) == *old(self)),
            (registered(old(self).workers@, source@) matches Some(k) ==> (r matches Ok(out)
                && event_post(
                old(self).workers@[k],
                final(self).workers@[k],
                generation,
                *event,
                out,
            ) && final(self).workers@ == old(self).workers@.update(k, final(self).workers@[k]))),
    {
        match self.find(source) {
            None => Err(AddressError::UnknownSource),
            Some(k) => {
                let out = self.workers[k].process_event(generation, event);
                proof {
                    assert(final(self).workers@ =~= old(self).workers@.update(
                        k as int,
                        final(self).workers@[k as int],
                    ));
                }
                Ok(out)
            },
        }
    }

    /// Observability hook for a worker that terminated: the policy here is
    /// "respawn immediately" — the worker is torn down cleanly and started
    /// again, with a fresh graph under a fresh generation. Every other
    /// worker is untouched.
    pub fn on_worker_exit(&mut self, source: &String, engine: &BuildOutcome) -> (r: Result<
        Result<(), BuildError>,
        AddressError,
    >)
        requires
            old(self).wf(),
            forall|j: int|
                0 <= j < old(self).workers@.len() ==> (#[trigger] old(self).workers@[j]).next_generation < u64::MAX,
        ensures
            final(self).wf(),
            (registered(old(self).workers@, source@) is None ==> r == Err::<
                Result<(), BuildError>,
                AddressError,
            >(AddressError::UnknownSource) && *final(self) == *old(self)),
            (registered(old(self).workers@, source@) matches Some(k) ==> (r matches Ok(inner)
                && start_post(
                SourceWorker {
                    phase: WorkerPhase::Idle,
                    graph: None,
                    ..old(self).workers@[k]
                },
                final(self).workers@[k],
                *engine,
                inner,
            ) && final(self).workers@ == old(self).workers@.update(k, final(self).workers@[k]))),
    {
        match self.find(source) {
            None => Err(AddressError::UnknownSource),
            Some(k) => {
                proof {
                    lemma_registered_props(self.workers@, source@, 0, k as int);
                }
                self.workers[k].shutdown();
                let inner = self.workers[k].start(engine);
                proof {
                    assert(final(self).workers@ =~= old(self).workers@.update(
                        k as int,
                        final(self).workers@[k as int],
                    ));
                }
                Ok(inner)
            },
        }
    }

    /// Tears every worker down: each owned graph reaches `Null` before it is
    /// released. Part of explicit process shutdown, not ambient global
    /// state.
    pub fn shutdown_all(&mut self)
        requires
            old(self).wf(),
        ensures
            final(self).wf(),
            final(self).workers@.len() == old(self).workers@.len(),
            forall|j: int|
                0 <= j < old(self).workers@.len() ==> #[trigger] final(self).workers@[j]
                    == (SourceWorker {
                    phase: WorkerPhase::Idle,
                    graph: None,
                    ..old(self).workers@[j]
                }),
    {
        let mut k: usize = 0;
        while k < self.workers.len()
            invariant
                k <= self.workers@.len(),
                self.workers@.len() == old(self).workers@.len(),
                forall|j: int|
                    k <= j < self.workers@.len() ==> #[trigger] self.workers@[j] == old(self).workers@[j],
                forall|j: int|
                    0 <= j < k ==> #[trigger] self.workers@[j] == (SourceWorker {
                        phase: WorkerPhase::Idle,
                        graph: None,
                        ..old(self).workers@[j]
                    }),
                old(self).wf(),
            decreases self.workers@.len() - k,
        {
            self.workers[k].shutdown();
            k += 1;
        }
    }
}

/// Law (isolation): an event delivered to source `a` — in particular an
/// engine runtime error tearing `a`'s graph down — never changes the state
/// of any other source's worker or graph: whatever `deliver_event` did to
/// the addressed worker, every differently named worker is exactly what it
/// was, still registered under its name.
pub proof fn lemma_runtime_error_isolated(
    s0: Supervisor,
    s1: Supervisor,
    a: Seq<char>,
    b: Seq<char>,
    k: int,
    j: int,
)
    requires
        s0.wf(),
        a != b,
        registered(s0.workers@, a) == Some(k),
        registered(s0.workers@, b) == Some(j),
        // what `deliver_event` (and `dispatch`) ensure about the step on `a`
        s1.workers@ == s0.workers@.update(k, s1.workers@[k]),
        same_identity(s0.workers@[k], s1.workers@[k]),
    ensures
        j != k,
        s1.workers@[j] == s0.workers@[j],
        registered(s1.workers@, b) == Some(j),
{
    lemma_registered_props(s0.workers@, a, 0, k);
    lemma_registered_props(s0.workers@, b, 0, j);
    assert(j != k);
    assert(s1.workers@[j] == s0.workers@[j]);
    assert forall|m: int| 0 <= m < j implies (#[trigger] s1.workers@[m]).source@ != b by {
        lemma_registered_first(s0.workers@, b, j);
        if m == k {
            assert(s1.workers@[k].source@ == s0.workers@[k].source@);
        }
    }
    lemma_registered_found(s1.workers@, b, 0, j);
}

/// The first registered position is preceded only by other names.
proof fn lemma_registered_first(workers: Seq<SourceWorker>, source: Seq<char>, i: int)
    requires
        registered(workers, source) == Some(i),
    ensures
        forall|m: int| 0 <= m < i ==> (#[trigger] workers[m]).source@ != source,
{
    lemma_registered_first_from(workers, source, 0, i);
}

proof fn lemma_registered_first_from(workers: Seq<SourceWorker>, source: Seq<char>, k: int, i: int)
    requires
        0 <= k,
        registered_from(workers, source, k) == Some(i),
    ensures
        forall|m: int| k <= m < i ==> (#[trigger] workers[m]).source@ != source,
    decreases workers.len() - k,
{
    if k < workers.len() && workers[k].source@ != source {
        lemma_registered_first_from(workers, source, k + 1, i);
    }
}

} // verus!

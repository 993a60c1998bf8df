//! The per-source supervision core.
//!
//! One `SourceWorker` owns one source's graph lifecycle and serializes every
//! mutation to it. Commands arrive through a single-consumer inbox in order;
//! the run loop executes on an independently scheduled task holding only the
//! generation of the graph it was spawned for, so a loop outliving its graph
//! observes "gone" instead of touching a torn-down resource.

use vstd::prelude::*;

use crate::GraphState;
use crate::descriptor::{
    GraphDescriptor, NodeKind, default_descriptor, default_shape, fullscreen_filter,
    fullscreen_filter_name, lemma_default_shape_addresses, spec_addresses_filter, spec_name,
    thumbnail_filter, thumbnail_filter_name,
};
use crate::engine::{BuildOutcome, GraphEvent, SwapOutcome};
use crate::errors::{BuildError, ReconfigureError};
use crate::graph::{
    GraphHandle, built_from, first_named, lemma_built_addresses, lemma_failed_preserves_addressing,
    lemma_first_named_props, lemma_swap_keeps_first_named, lemma_swap_preserves_addressing,
    name_addresses_filter, named, one_filter_at, swap_applied, swap_failed_at,
};

verus! {

/// The worker's own lifecycle, independent of the graph's state.
#[derive(Clone, Copy, Debug, PartialEq, Eq, Structural)]
pub enum WorkerPhase {
    Idle,
    Building,
    Awaiting,
    Running,
    /// The last graph instance ended in an error; terminal for that instance,
    /// not for the worker, which may accept a new start.
    Faulted,
}

/// A control command delivered through the worker's inbox.
#[derive(Clone, Copy, Debug, PartialEq, Eq, Structural)]
pub enum ControlCommand {
    Start,
    SetRate(u8),
}

/// The engine's answers to whatever calls one command may issue: a build
/// outcome for a possible rebuild, one swap outcome per rate-controlled
/// branch, and whether the engine mandates a pause around a splice.
#[derive(Clone, Copy, Debug, PartialEq, Eq)]
pub struct EngineAnswers {
    pub build: BuildOutcome,
    pub swap_fullscreen: SwapOutcome,
    pub swap_thumbnail: SwapOutcome,
    pub pause_required: bool,
}

/// What one command did; every failure is carried here, none is swallowed.
#[derive(Clone, Copy, Debug, PartialEq, Eq)]
pub enum CmdOutcome {
    /// A start arrived while the graph is already playing or a run loop is
    /// already alive: nothing to do.
    AlreadyRunning,
    /// A run loop was spawned, bound to this graph generation.
    RunLoopSpawned(u64),
    /// The rebuild a start requested failed; worker-fatal for this attempt,
    /// the worker stays alive for a future start.
    BuildFailed(BuildError),
    /// A live rate change ran; one result per branch, fullscreen first.
    RateChanged(Result<(), ReconfigureError>, Result<(), ReconfigureError>),
    /// A rate change arrived before a live stream existed: dropped, not
    /// queued.
    RateDropped,
}

/// What one bus event did to the worker.
#[derive(Clone, Copy, Debug, PartialEq, Eq, Structural)]
pub enum EventOutcome {
    /// The event belongs to a torn-down or replaced graph; nothing was
    /// touched.
    Gone,
    /// The run loop keeps pumping.
    Continuing,
    /// Clean end of stream: the graph was torn down; eligible for restart.
    Ended,
    /// A runtime error: the graph was torn down; eligible for restart.
    Failed,
}

/// How entering the run loop went.
#[derive(Clone, Copy, Debug, PartialEq, Eq, Structural)]
pub enum RunEntry {
    /// The graph is playing and the loop owns the pump.
    Started,
    /// The weak reference no longer addresses a live graph; the loop exits
    /// without touching anything.
    Gone,
    /// The engine refused the transition to playing; the graph was torn
    /// down cleanly.
    Refused,
}

/// One source's supervision worker.
pub struct SourceWorker {
    /// The source identity this worker serves; stable for the worker's life.
    pub source: String,
    pub phase: WorkerPhase,
    /// Built once per worker start and retained: each later start
    /// instantiates a fresh graph from it.
    pub descriptor: Option<GraphDescriptor>,
    /// The owned live graph, if one exists.
    pub graph: Option<GraphHandle>,
    /// The generation the next graph instance will carry.
    pub next_generation: u64,
    /// The rate both branch filters start at.
    pub default_rate: u8,
}

/// The worker holds a graph whose state is paused or playing: the only
/// situation in which a rate change has something to reconfigure.
pub open spec fn live(w: SourceWorker) -> bool {
    w.graph matches Some(g) && (g.state == GraphState::Paused || g.state == GraphState::Playing)
}

/// The worker holds a playing graph.
pub open spec fn playing(w: SourceWorker) -> bool {
    w.graph matches Some(g) && g.state == GraphState::Playing
}

/// `generation` still addresses the worker's live graph: the liveness check
/// behind every weak reference a spawned task holds.
pub open spec fn current_graph(w: SourceWorker, generation: u64) -> bool {
    w.graph matches Some(g) && g.generation == generation
}

/// The fields that never change for a worker's whole life.
pub open spec fn same_identity(w0: SourceWorker, w1: SourceWorker) -> bool {
    w1.source == w0.source && w1.default_rate == w0.default_rate
}

impl SourceWorker {
    /// The stored descriptor, if any, is well-formed and its stable filter
    /// names address rate filters.
    pub open spec fn descriptor_ok(self) -> bool {
        self.descriptor matches Some(d) ==> d.wf() && spec_addresses_filter(
            d.nodes@,
            fullscreen_filter_name(),
        ) && spec_addresses_filter(d.nodes@, thumbnail_filter_name())
    }

    /// The owned graph, if any, is well-formed, carries a generation below
    /// the next one to be handed out, and its stable filter names address
    /// rate filters.
    pub open spec fn graph_ok(self) -> bool {
        self.graph matches Some(g) ==> g.wf() && g.generation < self.next_generation
            && name_addresses_filter(g.nodes@, fullscreen_filter_name()) && name_addresses_filter(
            g.nodes@,
            thumbnail_filter_name(),
        )
    }

    pub open spec fn wf(self) -> bool {
        self.descriptor_ok() && self.graph_ok()
    }
}

/// What a start command leaves behind when a run loop may already be alive:
/// nothing happens at all. This is the idempotence clause of `handle`.
pub open spec fn start_noop_clause(w0: SourceWorker, w1: SourceWorker, r: CmdOutcome) -> bool {
    (playing(w0) || w0.phase == WorkerPhase::Running) ==> (w1 == w0 && r
        == CmdOutcome::AlreadyRunning)
}

/// What a start command leaves behind when no graph exists: a rebuild from
/// the retained descriptor (or a fresh default descriptor on the first
/// start), then a spawned run loop bound to the fresh generation; a build
/// failure leaves the worker as it was, graphless and restartable.
pub open spec fn start_rebuild_post(
    w0: SourceWorker,
    w1: SourceWorker,
    eng: BuildOutcome,
    r: CmdOutcome,
) -> bool {
    &&& same_identity(w0, w1)
    &&& (w0.descriptor is Some ==> w1.descriptor == w0.descriptor)
    &&& (w0.descriptor is None ==> (w1.descriptor matches Some(d) && default_shape(
        d,
        w0.source@,
        w0.default_rate,
    )))
    &&& match eng {
        BuildOutcome::Built => {
            &&& (w1.graph matches Some(g) && (w1.descriptor matches Some(d) && built_from(
                d,
                g,
                w0.next_generation,
            )))
            &&& w1.next_generation as int == w0.next_generation as int + 1
            &&& w1.phase == WorkerPhase::Running
            &&& r == CmdOutcome::RunLoopSpawned(w0.next_generation)
        },
        BuildOutcome::NodeFailed(i) => {
            &&& w1.graph is None
            &&& w1.next_generation == w0.next_generation
            &&& w1.phase == w0.phase
            &&& r == CmdOutcome::BuildFailed(BuildError::Instantiate(i))
        },
        BuildOutcome::LinkFailed(i) => {
            &&& w1.graph is None
            &&& w1.next_generation == w0.next_generation
            &&& w1.phase == w0.phase
            &&& r == CmdOutcome::BuildFailed(BuildError::Link(i))
        },
    }
}

/// One reconfiguration of one branch, exactly as `GraphHandle::
/// set_rate` states it: an absent stable name is `NodeNotFound` and changes
/// nothing; otherwise the engine's swap outcome decides between the applied
/// swap and the branch left bare.
pub open spec fn rate_step(
    g0: GraphHandle,
    g1: GraphHandle,
    nm: Seq<char>,
    rate: u8,
    eng: SwapOutcome,
    res: Result<(), ReconfigureError>,
) -> bool {
    &&& g1.state == g0.state
    &&& g1.generation == g0.generation
    &&& (first_named(g0.nodes@, nm) is None ==> res == Err::<(), ReconfigureError>(
        ReconfigureError::NodeNotFound,
    ) && g1 == g0)
    &&& (first_named(g0.nodes@, nm) matches Some(i) ==> match eng {
        SwapOutcome::Replaced => res is Ok && swap_applied(g0, g1, i, rate),
        SwapOutcome::ReplacementFailed => res == Err::<(), ReconfigureError>(
            ReconfigureError::ReplacementFailed,
        ) && swap_failed_at(g0, g1, i),
        SwapOutcome::RelinkFailed => res == Err::<(), ReconfigureError>(
            ReconfigureError::RelinkFailed,
        ) && swap_failed_at(g0, g1, i),
    })
}

/// What a live rate change leaves behind: the procedure ran on the
/// fullscreen branch and then on the thumbnail branch, through some
/// intermediate graph; everything else of the worker is untouched.
pub open spec fn set_rate_post(
    w0: SourceWorker,
    w1: SourceWorker,
    rate: u8,
    swap_a: SwapOutcome,
    swap_b: SwapOutcome,
    r: CmdOutcome,
) -> bool {
    &&& same_identity(w0, w1)
    &&& w1.phase == w0.phase
    &&& w1.descriptor == w0.descriptor
    &&& w1.next_generation == w0.next_generation
    &&& (w0.graph matches Some(g0) && (w1.graph matches Some(g2) && (r
        matches CmdOutcome::RateChanged(ra, rb) && exists|gm: GraphHandle|
        rate_step(g0, gm, fullscreen_filter_name(), rate, swap_a, ra) && rate_step(
            gm,
            g2,
            thumbnail_filter_name(),
            rate,
            swap_b,
            rb,
        ))))
}

/// One branch step keeps every stable name addressing a rate filter.
proof fn lemma_rate_step_preserves_addressing(
    g0: GraphHandle,
    g1: GraphHandle,
    nm_swapped: Seq<char>,
    rate: u8,
    eng: SwapOutcome,
    res: Result<(), ReconfigureError>,
    nm: Seq<char>,
)
    requires
        rate_step(g0, g1, nm_swapped, rate, eng, res),
        name_addresses_filter(g0.nodes@, nm),
    ensures
        name_addresses_filter(g1.nodes@, nm),
{
    match first_named(g0.nodes@, nm_swapped) {
        Some(i) => match eng {
            SwapOutcome::Replaced => lemma_swap_preserves_addressing(g0, g1, i, rate, nm),
            SwapOutcome::ReplacementFailed => lemma_failed_preserves_addressing(g0, g1, i, nm),
            SwapOutcome::RelinkFailed => lemma_failed_preserves_addressing(g0, g1, i, nm),
        },
        None => {},
    }
}

/// Everything `start` guarantees, as one relation between the worker
/// before and after: the descriptor is built once and retained, a built
/// graph awaits its start command under the generation that was current, a
/// build failure leaves the worker graphless, idle and restartable.
pub open spec fn start_post(
    w0: SourceWorker,
    w1: SourceWorker,
    eng: BuildOutcome,
    r: Result<(), BuildError>,
) -> bool {
    &&& same_identity(w0, w1)
    &&& (w0.descriptor is Some ==> w1.descriptor == w0.descriptor)
    &&& (w0.descriptor is None ==> (w1.descriptor matches Some(d) && default_shape(
        d,
        w0.source@,
        w0.default_rate,
    )))
    &&& (eng is Built ==> r is Ok && w1.phase == WorkerPhase::Awaiting && (w1.graph
        matches Some(g) && (w1.descriptor matches Some(d) && built_from(d, g, w0.next_generation)))
        && w1.next_generation as int == w0.next_generation as int + 1)
    &&& (eng matches BuildOutcome::NodeFailed(i) ==> r == Err::<(), BuildError>(
        BuildError::Instantiate(i),
    ) && w1.graph is None && w1.phase == WorkerPhase::Idle && w1.next_generation
        == w0.next_generation)
    &&& (eng matches BuildOutcome::LinkFailed(i) ==> r == Err::<(), BuildError>(
        BuildError::Link(i),
    ) && w1.graph is None && w1.phase == WorkerPhase::Idle && w1.next_generation
        == w0.next_generation)
}

/// Everything `handle` guarantees for one command, as one relation.
pub open spec fn handle_post(
    w0: SourceWorker,
    w1: SourceWorker,
    cmd: ControlCommand,
    engine: EngineAnswers,
    r: CmdOutcome,
) -> bool {
    &&& same_identity(w0, w1)
    &&& (cmd == ControlCommand::Start ==> start_noop_clause(w0, w1, r))
    &&& (cmd == ControlCommand::Start && !playing(w0) && w0.phase != WorkerPhase::Running
        && w0.graph is Some ==> w1 == (SourceWorker { phase: WorkerPhase::Running, ..w0 }) && r
        == CmdOutcome::RunLoopSpawned(w0.graph.unwrap().generation))
    &&& (cmd == ControlCommand::Start && w0.graph is None && w0.phase != WorkerPhase::Running
        ==> start_rebuild_post(w0, w1, engine.build, r))
    &&& (cmd is SetRate && !live(w0) ==> w1 == w0 && r == CmdOutcome::RateDropped)
    &&& (cmd matches ControlCommand::SetRate(rate) ==> (live(w0) ==> set_rate_post(
        w0,
        w1,
        rate,
        engine.swap_fullscreen,
        engine.swap_thumbnail,
        r,
    )))
}

/// Everything `run_enter` guarantees, as one relation.
pub open spec fn run_entry_post(
    w0: SourceWorker,
    w1: SourceWorker,
    generation: u64,
    accepted: bool,
    r: RunEntry,
) -> bool {
    &&& same_identity(w0, w1)
    &&& w1.descriptor == w0.descriptor
    &&& w1.next_generation == w0.next_generation
    &&& (!current_graph(w0, generation) ==> w1 == w0 && r == RunEntry::Gone)
    &&& (current_graph(w0, generation) && accepted ==> (w1.graph matches Some(g) && g
        == (GraphHandle { state: GraphState::Playing, ..w0.graph.unwrap() })) && w1.phase
        == WorkerPhase::Running && r == RunEntry::Started)
    &&& (current_graph(w0, generation) && !accepted ==> w1.graph is None && w1.phase
        == WorkerPhase::Faulted && r == RunEntry::Refused)
}

/// Everything `process_event` guarantees, as one relation.
pub open spec fn event_post(
    w0: SourceWorker,
    w1: SourceWorker,
    generation: u64,
    event: GraphEvent,
    r: EventOutcome,
) -> bool {
    &&& same_identity(w0, w1)
    &&& w1.descriptor == w0.descriptor
    &&& w1.next_generation == w0.next_generation
    &&& (!current_graph(w0, generation) ==> w1 == w0 && r == EventOutcome::Gone)
    &&& (current_graph(w0, generation) && event == GraphEvent::Other ==> w1 == w0 && r
        == EventOutcome::Continuing)
    &&& (current_graph(w0, generation) && event == GraphEvent::Eos ==> w1 == (SourceWorker {
        phase: WorkerPhase::Idle,
        graph: None,
        ..w0
    }) && r == EventOutcome::Ended)
    &&& (current_graph(w0, generation) && event == GraphEvent::RuntimeError ==> w1
        == (SourceWorker { phase: WorkerPhase::Faulted, graph: None, ..w0 }) && r
        == EventOutcome::Failed)
}

impl SourceWorker {
    /// A fresh worker for one source: idle, owning nothing yet.
    pub fn new(source: String, default_rate: u8) -> (w: SourceWorker)
        ensures
            w.source == source,
            w.default_rate == default_rate,
            w.phase == WorkerPhase::Idle,
            w.descriptor is None,
            w.graph is None,
            w.next_generation == 0,
            w.wf(),
    {
        SourceWorker {
            source,
            phase: WorkerPhase::Idle,
            descriptor: None,
            graph: None,
            next_generation: 0,
            default_rate,
        }
    }

    /// Builds the descriptor if this worker has none yet, then instantiates
    /// a fresh graph from it under the next generation. The caller decides
    /// what phase the worker enters.
    fn build_graph(&mut self, engine: &BuildOutcome) -> (r: Result<u64, BuildError>)
        requires
            old(self).wf(),
            old(self).graph is None,
            old(self).next_generation < u64::MAX,
        ensures
            final(self).wf(),
            same_identity(*old(self), *final(self)),
            final(self).phase == old(self).phase,
            (old(self).descriptor is Some ==> final(self).descriptor == old(self).descriptor),
            (old(self).descriptor is None ==> (final(self).descriptor matches Some(d)
                && default_shape(d, old(self).source@, old(self).default_rate))),
            (*engine is Built ==> r == Ok::<u64, BuildError>(old(self).next_generation) && (final(self).graph matches Some(g) && (final(self).descriptor matches Some(d) && built_from(
                d,
                g,
                old(self).next_generation,
            ))) && final(self).next_generation as int == old(self).next_generation as int + 1),
            (*engine matches BuildOutcome::NodeFailed(i) ==> r == Err::<u64, BuildError>(
                BuildError::Instantiate(i),
            ) && final(self).graph is None && final(self).next_generation == old(self).next_generation),
            (*engine matches BuildOutcome::LinkFailed(i) ==> r == Err::<u64, BuildError>(
                BuildError::Link(i),
            ) && final(self).graph is None && final(self).next_generation == old(self).next_generation),
    {
        if self.descriptor.is_none() {
            let d = default_descriptor(self.source.as_str(), self.default_rate);
            proof {
                lemma_default_shape_addresses(d, self.source@, self.default_rate);
            }
            self.descriptor = Some(d);
        }
        let generation = self.next_generation;
        let built = match &self.descriptor {
            Some(d) => GraphHandle::build(d, generation, engine),
            None => Err(BuildError::Instantiate(0)),
        };
        match built {
            Ok(g) => {
                proof {
                    lemma_built_addresses(
                        self.descriptor.unwrap(),
                        g,
                        generation,
                        fullscreen_filter_name(),
                    );
                    lemma_built_addresses(
                        self.descriptor.unwrap(),
                        g,
                        generation,
                        thumbnail_filter_name(),
                    );
                }
                self.graph = Some(g);
                self.next_generation = generation + 1;
                Ok(generation)
            },
            Err(e) => Err(e),
        }
    }

    /// Constructs this worker's descriptor and instantiates its first graph;
    /// on success the worker awaits a start command, it does not yet run the
    /// graph. A build failure is returned — worker-fatal for this attempt —
    /// and the worker stays idle, alive for a future start.
    pub fn start(&mut self, engine: &BuildOutcome) -> (r: Result<(), BuildError>)
        requires
            old(self).wf(),
            old(self).graph is None,
            old(self).next_generation < u64::MAX,
        ensures
            final(self).wf(),
            start_post(*old(self), *final(self), *engine, r),
    {
        self.phase = WorkerPhase::Building;
        match self.build_graph(engine) {
            Ok(_) => {
                self.phase = WorkerPhase::Awaiting;
                Ok(())
            },
            Err(e) => {
                self.phase = WorkerPhase::Idle;
                Err(e)
            },
        }
    }

    /// Processes exactly one command, in inbox order.
    ///
    /// A start while the graph already plays (or a run loop is already
    /// alive) is a no-op; a start with a built graph spawns the run loop; a
    /// start after teardown rebuilds a fresh graph first. A rate change with
    /// no live stream is dropped — reported, not queued; a live rate change
    /// runs the reconfiguration procedure on each branch in order.
    pub fn handle(&mut self, cmd: ControlCommand, engine: &EngineAnswers) -> (r: CmdOutcome)
        requires
            old(self).wf(),
            old(self).next_generation < u64::MAX,
            (old(self).graph matches Some(g) ==> g.next_id as int + 2 <= u64::MAX as int),
        ensures
            final(self).wf(),
            handle_post(*old(self), *final(self), cmd, *engine, r),
    {
        match cmd {
            ControlCommand::Start => {
                let playing_now = match &self.graph {
                    Some(g) => g.state == GraphState::Playing,
                    None => false,
                };
                if playing_now || self.phase == WorkerPhase::Running {
                    return CmdOutcome::AlreadyRunning;
                }
                let generation_present = match &self.graph {
                    Some(g) => Some(g.generation),
                    None => None,
                };
                match generation_present {
                    Some(generation) => {
                        self.phase = WorkerPhase::Running;
                        CmdOutcome::RunLoopSpawned(generation)
                    },
                    None => match self.build_graph(&engine.build) {
                        Ok(generation) => {
                            self.phase = WorkerPhase::Running;
                            CmdOutcome::RunLoopSpawned(generation)
                        },
                        Err(e) => CmdOutcome::BuildFailed(e),
                    },
                }
            },
            ControlCommand::SetRate(rate) => {
                let is_live = match &self.graph {
                    Some(g) => g.state == GraphState::Paused || g.state == GraphState::Playing,
                    None => false,
                };
                if !is_live {
                    return CmdOutcome::RateDropped;
                }
                match &mut self.graph {
                    Some(g) => {
                        let name_a = fullscreen_filter();
                        let res_a = g.set_rate(
                            &name_a,
                            rate,
                            &engine.swap_fullscreen,
                            engine.pause_required,
                        );
                        let ghost g_mid = *g;
                        proof {
                            assert(rate_step(
                                old(self).graph.unwrap(),
                                g_mid,
                                fullscreen_filter_name(),
                                rate,
                                engine.swap_fullscreen,
                                res_a,
                            ));
                            lemma_rate_step_preserves_addressing(
                                old(self).graph.unwrap(),
                                g_mid,
                                fullscreen_filter_name(),
                                rate,
                                engine.swap_fullscreen,
                                res_a,
                                thumbnail_filter_name(),
                            );
                            lemma_rate_step_preserves_addressing(
                                old(self).graph.unwrap(),
                                g_mid,
                                fullscreen_filter_name(),
                                rate,
                                engine.swap_fullscreen,
                                res_a,
                                fullscreen_filter_name(),
                            );
                        }
                        let name_b = thumbnail_filter();
                        let res_b = g.set_rate(
                            &name_b,
                            rate,
                            &engine.swap_thumbnail,
                            engine.pause_required,
                        );
                        proof {
                            assert(rate_step(
                                g_mid,
                                *g,
                                thumbnail_filter_name(),
                                rate,
                                engine.swap_thumbnail,
                                res_b,
                            ));
                            lemma_rate_step_preserves_addressing(
                                g_mid,
                                *g,
                                thumbnail_filter_name(),
                                rate,
                                engine.swap_thumbnail,
                                res_b,
                                thumbnail_filter_name(),
                            );
                            lemma_rate_step_preserves_addressing(
                                g_mid,
                                *g,
                                thumbnail_filter_name(),
                                rate,
                                engine.swap_thumbnail,
                                res_b,
                                fullscreen_filter_name(),
                            );
                        }
                        CmdOutcome::RateChanged(res_a, res_b)
                    },
                    None => CmdOutcome::RateDropped,
                }
            },
        }
    }

    /// The spawned run loop's first act: upgrade the weak reference and ask
    /// the engine to play the graph. A stale reference observes "gone"; a
    /// refusal tears the graph down cleanly — to `Null` before release — and
    /// faults the worker's current instance.
    pub fn run_enter(&mut self, generation: u64, accepted: bool) -> (r: RunEntry)
        requires
            old(self).wf(),
        ensures
            final(self).wf(),
            run_entry_post(*old(self), *final(self), generation, accepted, r),
    {
        let current = match &self.graph {
            Some(g) => g.generation == generation,
            None => false,
        };
        if !current {
            return RunEntry::Gone;
        }
        if accepted {
            match &mut self.graph {
                Some(g) => {
                    g.state = GraphState::Playing;
                },
                None => {},
            }
            self.phase = WorkerPhase::Running;
            RunEntry::Started
        } else {
            // Clean stop: the handle reaches `Null` before it is released.
            match &mut self.graph {
                Some(g) => {
                    g.state = GraphState::Null;
                },
                None => {},
            }
            self.graph = None;
            self.phase = WorkerPhase::Faulted;
            RunEntry::Refused
        }
    }

    /// One step of the run loop: classify the next bus event. A clean end of
    /// stream or a runtime error tears the graph down — to `Null`, then
    /// dropped — leaving the worker eligible for a fresh start; anything
    /// else keeps pumping. A stale generation observes "gone" and touches
    /// nothing.
    pub fn process_event(&mut self, generation: u64, event: &GraphEvent) -> (r: EventOutcome)
        requires
            old(self).wf(),
        ensures
            final(self).wf(),
            event_post(*old(self), *final(self), generation, *event, r),
    {
        let current = match &self.graph {
            Some(g) => g.generation == generation,
            None => false,
        };
        if !current {
            return EventOutcome::Gone;
        }
        match event {
            GraphEvent::Other => EventOutcome::Continuing,
            GraphEvent::Eos => {
                match &mut self.graph {
                    Some(g) => {
                        g.state = GraphState::Null;
                    },
                    None => {},
                }
                self.graph = None;
                self.phase = WorkerPhase::Idle;
                EventOutcome::Ended
            },
            GraphEvent::RuntimeError => {
                match &mut self.graph {
                    Some(g) => {
                        g.state = GraphState::Null;
                    },
                    None => {},
                }
                self.graph = None;
                self.phase = WorkerPhase::Faulted;
                EventOutcome::Failed
            },
        }
    }

    /// Tears this worker down: the owned graph, if any, reaches `Null`
    /// before it is released, and outstanding weak references observe
    /// "gone" from here on.
    pub fn shutdown(&mut self)
        requires
            old(self).wf(),
        ensures
            final(self).wf(),
            *final(self) == (SourceWorker {
                phase: WorkerPhase::Idle,
                graph: None,
                ..*old(self)
            }),
    {
        match &mut self.graph {
            Some(g) => {
                g.state = GraphState::Null;
            },
            None => {},
        }
        self.graph = None;
        self.phase = WorkerPhase::Idle;
    }
}

/// Every command of the sequence is a rate change.
pub open spec fn all_rate_commands(cmds: Seq<ControlCommand>) -> bool {
    forall|k: int| 0 <= k < cmds.len() ==> (#[trigger] cmds[k]) is SetRate
}

/// A rate change arriving at a worker with no live stream is ignored:
/// by `handle`'s contract the worker is left exactly as it was.
pub open spec fn ignores(w: SourceWorker, cmd: ControlCommand) -> bool {
    cmd is SetRate && !live(w)
}

/// Processing the commands one at a time leaves the worker untouched at
/// every step.
pub open spec fn ignores_all(w: SourceWorker, cmds: Seq<ControlCommand>) -> bool
    decreases cmds.len(),
{
    cmds.len() == 0 || (ignores(w, cmds[0]) && ignores_all(w, cmds.drop_first()))
}

/// Law (dropped, not queued): any sequence of rate changes issued before a
/// live stream exists is ignored command by command — `handle` leaves the
/// worker untouched on each, so the worker that processes the first start is
/// the worker that was spawned, with no pending rate change.
pub proof fn lemma_rates_before_start_dropped(w: SourceWorker, cmds: Seq<ControlCommand>)
    requires
        !live(w),
        all_rate_commands(cmds),
    ensures
        ignores_all(w, cmds),
    decreases cmds.len(),
{
    if cmds.len() > 0 {
        lemma_rates_before_start_dropped(w, cmds.drop_first());
    }
}

/// Law (no pending rate change after the first start): the graph a
/// successful start builds from the default descriptor carries the default
/// rate on exactly one rate filter per branch.
pub proof fn lemma_fresh_graph_at_default_rate(
    d: GraphDescriptor,
    g: GraphHandle,
    generation: u64,
    location: Seq<char>,
    rate: u8,
)
    requires
        default_shape(d, location, rate),
        built_from(d, g, generation),
        g.wf(),
    ensures
        one_filter_at(g.nodes@, fullscreen_filter_name(), rate),
        one_filter_at(g.nodes@, thumbnail_filter_name(), rate),
{
    lemma_default_shape_addresses(d, location, rate);
    lemma_built_addresses(d, g, generation, fullscreen_filter_name());
    lemma_built_addresses(d, g, generation, thumbnail_filter_name());
    assert(named(g.nodes@[10], fullscreen_filter_name()) && g.nodes@[10].kind
        == NodeKind::RateFilter && g.nodes@[10].rate == Some(rate));
    assert(named(g.nodes@[17], thumbnail_filter_name()) && g.nodes@[17].kind
        == NodeKind::RateFilter && g.nodes@[17].rate == Some(rate));
    assert forall|j: int|
        0 <= j < g.nodes@.len() && named(#[trigger] g.nodes@[j], fullscreen_filter_name()) implies j
        == 10 by {
        if j != 10 {
            assert(g.nodes@[j].kind == NodeKind::RateFilter);
            assert(spec_name(g.nodes@[j].name) == spec_name(g.nodes@[10].name));
            assert(false);
        }
    }
    assert forall|j: int|
        0 <= j < g.nodes@.len() && named(#[trigger] g.nodes@[j], thumbnail_filter_name()) implies j
        == 17 by {
        if j != 17 {
            assert(g.nodes@[j].kind == NodeKind::RateFilter);
            assert(spec_name(g.nodes@[j].name) == spec_name(g.nodes@[17].name));
            assert(false);
        }
    }
}

/// Law (idempotence): a start command processed while the graph already
/// plays changes nothing — the same graph handle, the same generation — and
/// a second start right after finds the same playing graph and changes as
/// little. The hypotheses are exactly the clause `handle` ensures for a
/// start command.
pub proof fn lemma_start_idempotent_while_playing(
    w0: SourceWorker,
    w1: SourceWorker,
    w2: SourceWorker,
    r1: CmdOutcome,
    r2: CmdOutcome,
)
    requires
        playing(w0),
        start_noop_clause(w0, w1, r1),
        start_noop_clause(w1, w2, r2),
    ensures
        w1 == w0,
        w2 == w0,
        w2.graph == w0.graph,
        r1 == CmdOutcome::AlreadyRunning,
        r2 == CmdOutcome::AlreadyRunning,
{
}

/// Law (the second rate wins, on every branch): two rate changes processed
/// in order by a worker with a live graph, both fully replaced by the
/// engine, leave exactly one rate filter on each branch and it enforces the
/// second rate; the first rate is gone. The hypotheses are exactly what
/// `handle` ensures for the two commands.
pub proof fn lemma_second_rate_wins_per_branch(
    w0: SourceWorker,
    w1: SourceWorker,
    w2: SourceWorker,
    r1: u8,
    r2: u8,
    out1: CmdOutcome,
    out2: CmdOutcome,
)
    requires
        w0.wf(),
        w2.wf(),
        (w0.graph matches Some(g0) && first_named(g0.nodes@, fullscreen_filter_name()) is Some
            && first_named(g0.nodes@, thumbnail_filter_name()) is Some),
        set_rate_post(w0, w1, r1, SwapOutcome::Replaced, SwapOutcome::Replaced, out1),
        set_rate_post(w1, w2, r2, SwapOutcome::Replaced, SwapOutcome::Replaced, out2),
    ensures
        (w2.graph matches Some(g2) && one_filter_at(g2.nodes@, fullscreen_filter_name(), r2)
            && one_filter_at(g2.nodes@, thumbnail_filter_name(), r2)),
{
    let nm_a = fullscreen_filter_name();
    let nm_b = thumbnail_filter_name();
    reveal_strlit("filter");
    reveal_strlit("filter2");
    assert(nm_a.len() == 6 && nm_b.len() == 7);
    let g0 = w0.graph.unwrap();
    let g1v = w1.graph.unwrap();
    let g2v = w2.graph.unwrap();
    let ia = first_named(g0.nodes@, nm_a).unwrap();
    let ib = first_named(g0.nodes@, nm_b).unwrap();
    lemma_first_named_props(g0.nodes@, nm_a, 0, ia);
    lemma_first_named_props(g0.nodes@, nm_b, 0, ib);
    assert(ia != ib) by {
        if ia == ib {
            assert(spec_name(g0.nodes@[ia].name) == Some(nm_a));
            assert(spec_name(g0.nodes@[ib].name) == Some(nm_b));
        }
    }
    match out1 {
        CmdOutcome::RateChanged(ra1, rb1) => {
            let gm1 = choose|gm: GraphHandle|
                rate_step(g0, gm, fullscreen_filter_name(), r1, SwapOutcome::Replaced, ra1)
                    && rate_step(gm, g1v, thumbnail_filter_name(), r1, SwapOutcome::Replaced, rb1);
            assert(swap_applied(g0, gm1, ia, r1));
            lemma_swap_keeps_first_named(g0, gm1, ia, r1, nm_a, nm_a);
            lemma_swap_keeps_first_named(g0, gm1, ia, r1, nm_a, nm_b);
            lemma_first_named_props(gm1.nodes@, nm_b, 0, ib);
            assert(swap_applied(gm1, g1v, ib, r1));
            lemma_swap_keeps_first_named(gm1, g1v, ib, r1, nm_b, nm_a);
            lemma_swap_keeps_first_named(gm1, g1v, ib, r1, nm_b, nm_b);
            assert(first_named(g1v.nodes@, nm_a) == Some(ia));
            assert(first_named(g1v.nodes@, nm_b) == Some(ib));
            match out2 {
                CmdOutcome::RateChanged(ra2, rb2) => {
                    let gm2 = choose|gm: GraphHandle|
                        rate_step(g1v, gm, fullscreen_filter_name(), r2, SwapOutcome::Replaced, ra2)
                            && rate_step(
                            gm,
                            g2v,
                            thumbnail_filter_name(),
                            r2,
                            SwapOutcome::Replaced,
                            rb2,
                        );
                    lemma_first_named_props(g1v.nodes@, nm_a, 0, ia);
                    assert(swap_applied(g1v, gm2, ia, r2));
                    lemma_swap_keeps_first_named(g1v, gm2, ia, r2, nm_a, nm_b);
                    lemma_first_named_props(gm2.nodes@, nm_b, 0, ib);
                    assert(swap_applied(gm2, g2v, ib, r2));
                    assert(gm2.nodes@[ia].rate == Some(r2));
                    assert(named(gm2.nodes@[ia], nm_a));
                    assert(gm2.nodes@[ia].kind == NodeKind::RateFilter);
                    assert(g2v.nodes@[ia] == gm2.nodes@[ia]);
                    assert(g2v.nodes@[ib].rate == Some(r2));
                    assert(named(g2v.nodes@[ib], nm_b));
                    assert(g2v.nodes@[ib].kind == NodeKind::RateFilter);
                    assert forall|j: int|
                        0 <= j < g2v.nodes@.len() && named(#[trigger] g2v.nodes@[j], nm_a) implies j
                        == ia by {
                        if j != ia {
                            assert(g2v.nodes@[j].kind == NodeKind::RateFilter);
                            assert(spec_name(g2v.nodes@[j].name) == Some(nm_a));
                            assert(spec_name(g2v.nodes@[ia].name) == Some(nm_a));
                        }
                    }
                    assert forall|j: int|
                        0 <= j < g2v.nodes@.len() && named(#[trigger] g2v.nodes@[j], nm_b) implies j
                        == ib by {
                        if j != ib {
                            assert(g2v.nodes@[j].kind == NodeKind::RateFilter);
                            assert(spec_name(g2v.nodes@[j].name) == Some(nm_b));
                            assert(spec_name(g2v.nodes@[ib].name) == Some(nm_b));
                        }
                    }
                    assert(one_filter_at(g2v.nodes@, nm_a, r2));
                    assert(one_filter_at(g2v.nodes@, nm_b, r2));
                },
                _ => {
                    assert(false);
                },
            }
        },
        _ => {
            assert(false);
        },
    }
}

} // verus!

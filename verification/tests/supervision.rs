use rategraph::GraphState;
use rategraph::descriptor::{fullscreen_filter, thumbnail_filter};
use rategraph::engine::{BuildOutcome, GraphEvent, SwapOutcome};
use rategraph::errors::{AddressError, BuildError};
use rategraph::supervisor::Supervisor;
use rategraph::worker::{
    CmdOutcome, ControlCommand, EngineAnswers, EventOutcome, RunEntry, SourceWorker, WorkerPhase,
};

fn all_fine() -> EngineAnswers {
    EngineAnswers {
        build: BuildOutcome::Built,
        swap_fullscreen: SwapOutcome::Replaced,
        swap_thumbnail: SwapOutcome::Replaced,
        pause_required: false,
    }
}

fn playing_worker(default_rate: u8) -> SourceWorker {
    let mut w = SourceWorker::new(String::from("rtsp://camera/1"), default_rate);
    w.start(&BuildOutcome::Built).unwrap();
    let out = w.handle(ControlCommand::Start, &all_fine());
    let generation = match out {
        CmdOutcome::RunLoopSpawned(g) => g,
        other => panic!("expected a spawned run loop, got {:?}", other),
    };
    assert_eq!(w.run_enter(generation, true), RunEntry::Started);
    w
}

fn graph_rate(w: &SourceWorker, name: &String) -> Option<u8> {
    let g = w.graph.as_ref().unwrap();
    let i = g.by_name(name)?;
    g.nodes[i].rate
}

#[test]
fn rate_commands_before_start_are_dropped_not_queued() {
    let mut w = SourceWorker::new(String::from("rtsp://camera/1"), 5);
    // before the worker ever built anything
    assert_eq!(w.handle(ControlCommand::SetRate(9), &all_fine()), CmdOutcome::RateDropped);
    assert!(w.graph.is_none());
    // after construction but before the stream runs: still dropped
    w.start(&BuildOutcome::Built).unwrap();
    assert_eq!(w.phase, WorkerPhase::Awaiting);
    for r in [1u8, 2, 3] {
        assert_eq!(w.handle(ControlCommand::SetRate(r), &all_fine()), CmdOutcome::RateDropped);
    }
    // the first start finds no pending rate change: both filters at default
    let out = w.handle(ControlCommand::Start, &all_fine());
    assert!(matches!(out, CmdOutcome::RunLoopSpawned(0)));
    assert_eq!(w.run_enter(0, true), RunEntry::Started);
    assert_eq!(graph_rate(&w, &fullscreen_filter()), Some(5));
    assert_eq!(graph_rate(&w, &thumbnail_filter()), Some(5));
}

#[test]
fn start_is_idempotent_while_playing() {
    let mut w = playing_worker(5);
    let generation_before = w.graph.as_ref().unwrap().generation;
    let next_id_before = w.graph.as_ref().unwrap().next_id;
    assert_eq!(w.handle(ControlCommand::Start, &all_fine()), CmdOutcome::AlreadyRunning);
    assert_eq!(w.handle(ControlCommand::Start, &all_fine()), CmdOutcome::AlreadyRunning);
    // same graph handle: no rebuild happened
    let g = w.graph.as_ref().unwrap();
    assert_eq!(g.generation, generation_before);
    assert_eq!(g.next_id, next_id_before);
    assert_eq!(g.state, GraphState::Playing);
    assert_eq!(w.next_generation, 1);
}

#[test]
fn live_rate_change_reaches_both_branches() {
    let mut w = playing_worker(5);
    let out = w.handle(ControlCommand::SetRate(1), &all_fine());
    assert_eq!(out, CmdOutcome::RateChanged(Ok(()), Ok(())));
    assert_eq!(graph_rate(&w, &fullscreen_filter()), Some(1));
    assert_eq!(graph_rate(&w, &thumbnail_filter()), Some(1));
    assert_eq!(w.graph.as_ref().unwrap().state, GraphState::Playing);
}

#[test]
fn partial_reconfigure_failure_is_surfaced_and_contained() {
    let mut w = playing_worker(5);
    let engine = EngineAnswers {
        build: BuildOutcome::Built,
        swap_fullscreen: SwapOutcome::Replaced,
        swap_thumbnail: SwapOutcome::ReplacementFailed,
        pause_required: false,
    };
    let out = w.handle(ControlCommand::SetRate(2), &engine);
    match out {
        CmdOutcome::RateChanged(a, b) => {
            assert!(a.is_ok());
            assert!(b.is_err());
        },
        other => panic!("expected a rate change outcome, got {:?}", other),
    }
    // the fullscreen branch carries the new rate; the thumbnail branch is
    // left without a filter, never with two
    assert_eq!(graph_rate(&w, &fullscreen_filter()), Some(2));
    let g = w.graph.as_ref().unwrap();
    assert_eq!(g.by_name(&thumbnail_filter()), None);
    assert_eq!(g.state, GraphState::Playing);
}

#[test]
fn eos_tears_down_and_start_rebuilds_fresh() {
    let mut w = playing_worker(5);
    assert_eq!(w.process_event(0, &GraphEvent::Other), EventOutcome::Continuing);
    assert_eq!(w.process_event(0, &GraphEvent::Eos), EventOutcome::Ended);
    assert!(w.graph.is_none());
    assert_eq!(w.phase, WorkerPhase::Idle);
    // a later start builds a fresh graph under a fresh generation
    let out = w.handle(ControlCommand::Start, &all_fine());
    assert!(matches!(out, CmdOutcome::RunLoopSpawned(1)));
    assert_eq!(w.graph.as_ref().unwrap().generation, 1);
}

#[test]
fn runtime_error_faults_and_start_recovers() {
    let mut w = playing_worker(5);
    assert_eq!(w.process_event(0, &GraphEvent::RuntimeError), EventOutcome::Failed);
    assert!(w.graph.is_none());
    assert_eq!(w.phase, WorkerPhase::Faulted);
    let out = w.handle(ControlCommand::Start, &all_fine());
    assert!(matches!(out, CmdOutcome::RunLoopSpawned(1)));
}

#[test]
fn stale_run_loop_observes_gone() {
    let mut w = playing_worker(5);
    assert_eq!(w.process_event(0, &GraphEvent::Eos), EventOutcome::Ended);
    w.handle(ControlCommand::Start, &all_fine());
    // an event of the torn-down generation must not touch the fresh graph
    assert_eq!(w.process_event(0, &GraphEvent::RuntimeError), EventOutcome::Gone);
    assert!(w.graph.is_some());
    assert_eq!(w.graph.as_ref().unwrap().generation, 1);
    // and a stale run-loop entry observes gone too
    assert_eq!(w.run_enter(0, true), RunEntry::Gone);
}

#[test]
fn refused_play_transition_tears_down_cleanly() {
    let mut w = SourceWorker::new(String::from("rtsp://camera/1"), 5);
    w.start(&BuildOutcome::Built).unwrap();
    w.handle(ControlCommand::Start, &all_fine());
    assert_eq!(w.run_enter(0, false), RunEntry::Refused);
    assert!(w.graph.is_none());
    assert_eq!(w.phase, WorkerPhase::Faulted);
}

#[test]
fn build_failure_leaves_worker_restartable() {
    let mut w = SourceWorker::new(String::from("rtsp://camera/1"), 5);
    let r = w.start(&BuildOutcome::NodeFailed(2));
    assert_eq!(r.err(), Some(BuildError::Instantiate(2)));
    assert!(w.graph.is_none());
    assert_eq!(w.phase, WorkerPhase::Idle);
    // the descriptor was built once and retained; a later start succeeds
    assert!(w.descriptor.is_some());
    let out = w.handle(ControlCommand::Start, &all_fine());
    assert!(matches!(out, CmdOutcome::RunLoopSpawned(0)));
}

#[test]
fn shutdown_releases_the_graph() {
    let mut w = playing_worker(5);
    w.shutdown();
    assert!(w.graph.is_none());
    assert_eq!(w.phase, WorkerPhase::Idle);
}

#[test]
fn spawn_rejects_duplicate_sources() {
    let mut s = Supervisor::new();
    assert!(s.spawn(String::from("cam-a"), 5, &BuildOutcome::Built).is_ok());
    let r = s.spawn(String::from("cam-a"), 5, &BuildOutcome::Built);
    assert_eq!(r.err(), Some(AddressError::DuplicateSource));
    assert_eq!(s.workers.len(), 1);
}

#[test]
fn dispatch_to_unknown_source_fails() {
    let mut s = Supervisor::new();
    let r = s.dispatch(&String::from("cam-x"), ControlCommand::Start, &all_fine());
    assert_eq!(r.err(), Some(AddressError::UnknownSource));
}

#[test]
fn runtime_error_on_one_source_never_touches_another() {
    let mut s = Supervisor::new();
    let a = String::from("cam-a");
    let b = String::from("cam-b");
    for source in [&a, &b] {
        s.spawn(source.clone(), 5, &BuildOutcome::Built).unwrap().unwrap();
        let out = s.dispatch(source, ControlCommand::Start, &all_fine()).unwrap();
        assert!(matches!(out, CmdOutcome::RunLoopSpawned(0)));
        assert_eq!(s.enter_run(source, 0, true).unwrap(), RunEntry::Started);
    }
    // a rate change on b, so b's graph is distinguishable from a fresh one
    s.dispatch(&b, ControlCommand::SetRate(3), &all_fine()).unwrap();

    let out = s.deliver_event(&a, 0, &GraphEvent::RuntimeError).unwrap();
    assert_eq!(out, EventOutcome::Failed);

    // a's worker is torn down...
    let wa = s.workers.iter().find(|w| w.source == a).unwrap();
    assert!(wa.graph.is_none());
    assert_eq!(wa.phase, WorkerPhase::Faulted);
    // ...and b's worker is exactly as it was: playing, same generation,
    // same reconfigured rate
    let wb = s.workers.iter().find(|w| w.source == b).unwrap();
    let gb = wb.graph.as_ref().unwrap();
    assert_eq!(gb.state, GraphState::Playing);
    assert_eq!(gb.generation, 0);
    let i = gb.by_name(&thumbnail_filter()).unwrap();
    assert_eq!(gb.nodes[i].rate, Some(3));
}

#[test]
fn worker_exit_respawns_immediately() {
    let mut s = Supervisor::new();
    let a = String::from("cam-a");
    s.spawn(a.clone(), 5, &BuildOutcome::Built).unwrap().unwrap();
    s.dispatch(&a, ControlCommand::Start, &all_fine()).unwrap();
    s.enter_run(&a, 0, true).unwrap();
    s.deliver_event(&a, 0, &GraphEvent::RuntimeError).unwrap();

    let inner = s.on_worker_exit(&a, &BuildOutcome::Built).unwrap();
    assert!(inner.is_ok());
    let wa = s.workers.iter().find(|w| w.source == a).unwrap();
    assert_eq!(wa.phase, WorkerPhase::Awaiting);
    assert_eq!(wa.graph.as_ref().unwrap().generation, 1);
    assert_eq!(wa.graph.as_ref().unwrap().state, GraphState::Ready);
}

#[test]
fn shutdown_all_releases_every_graph() {
    let mut s = Supervisor::new();
    for name in ["cam-a", "cam-b", "cam-c"] {
        s.spawn(String::from(name), 5, &BuildOutcome::Built).unwrap().unwrap();
        s.dispatch(&String::from(name), ControlCommand::Start, &all_fine()).unwrap();
    }
    s.shutdown_all();
    for w in &s.workers {
        assert!(w.graph.is_none());
        assert_eq!(w.phase, WorkerPhase::Idle);
    }
    assert_eq!(s.workers.len(), 3);
}

#[test]
fn end_to_end_rate_change_on_a_running_source() {
    // start a source whose descriptor produces two branches at default rate
    // five, change the rate to one, and observe: the thumbnail branch's rate
    // filter reports one, and the graph plays the whole way through
    let mut s = Supervisor::new();
    let cam = String::from("rtsp://10.50.13.242/1/h264major");
    s.spawn(cam.clone(), 5, &BuildOutcome::Built).unwrap().unwrap();
    let out = s.dispatch(&cam, ControlCommand::Start, &all_fine()).unwrap();
    let generation = match out {
        CmdOutcome::RunLoopSpawned(g) => g,
        other => panic!("expected a spawned run loop, got {:?}", other),
    };
    assert_eq!(s.enter_run(&cam, generation, true).unwrap(), RunEntry::Started);
    assert_eq!(s.workers[0].graph.as_ref().unwrap().state, GraphState::Playing);
    assert_eq!(graph_rate(&s.workers[0], &fullscreen_filter()), Some(5));
    assert_eq!(graph_rate(&s.workers[0], &thumbnail_filter()), Some(5));

    let out = s.dispatch(&cam, ControlCommand::SetRate(1), &all_fine()).unwrap();
    assert_eq!(out, CmdOutcome::RateChanged(Ok(()), Ok(())));
    let g = s.workers[0].graph.as_ref().unwrap();
    assert_eq!(g.state, GraphState::Playing);
    let i = g.by_name(&thumbnail_filter()).unwrap();
    assert_eq!(g.nodes[i].rate, Some(1));

    // the same scenario under an engine that mandates a pause for the
    // splice: the graph is back to playing before the call returns
    let paused_engine = EngineAnswers { pause_required: true, ..all_fine() };
    let out = s.dispatch(&cam, ControlCommand::SetRate(4), &paused_engine).unwrap();
    assert_eq!(out, CmdOutcome::RateChanged(Ok(()), Ok(())));
    let g = s.workers[0].graph.as_ref().unwrap();
    assert_eq!(g.state, GraphState::Playing);
    assert_eq!(graph_rate(&s.workers[0], &thumbnail_filter()), Some(4));
    assert_eq!(graph_rate(&s.workers[0], &fullscreen_filter()), Some(4));
}

#[test]
fn largest_rate_value_is_applied() {
    let mut w = playing_worker(5);
    let out = w.handle(ControlCommand::SetRate(255), &all_fine());
    assert_eq!(out, CmdOutcome::RateChanged(Ok(()), Ok(())));
    assert_eq!(graph_rate(&w, &fullscreen_filter()), Some(255));
    assert_eq!(graph_rate(&w, &thumbnail_filter()), Some(255));
}

#[test]
fn link_failure_on_rebuild_is_reported() {
    let mut w = playing_worker(5);
    assert_eq!(w.process_event(0, &GraphEvent::Eos), EventOutcome::Ended);
    let engine = EngineAnswers {
        build: BuildOutcome::LinkFailed(14),
        swap_fullscreen: SwapOutcome::Replaced,
        swap_thumbnail: SwapOutcome::Replaced,
        pause_required: false,
    };
    let out = w.handle(ControlCommand::Start, &engine);
    assert_eq!(out, CmdOutcome::BuildFailed(BuildError::Link(14)));
    assert!(w.graph.is_none());
    // the failure consumed no generation
    assert_eq!(w.next_generation, 1);
}

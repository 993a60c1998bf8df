use rategraph::GraphState;
use rategraph::descriptor::{NodeKind, PropValue, default_descriptor, fullscreen_filter, thumbnail_filter};
use rategraph::engine::{BuildOutcome, SwapOutcome};
use rategraph::errors::{BuildError, ReconfigureError};
use rategraph::graph::GraphHandle;
use rategraph::sink::{BranchKind, FlowStatus, FrameSink, PullEvent};

fn playing_graph(rate: u8) -> GraphHandle {
    let d = default_descriptor("rtsp://10.50.13.242/1/h264major", rate);
    let mut g = GraphHandle::build(&d, 0, &BuildOutcome::Built).unwrap();
    g.set_state(GraphState::Playing, true).unwrap();
    g
}

fn count_named(g: &GraphHandle, name: &str) -> usize {
    g.nodes.iter().filter(|n| n.name.as_deref() == Some(name)).count()
}

#[test]
fn default_descriptor_shape() {
    let d = default_descriptor("rtsp://10.50.13.242/1/h264major", 5);
    assert_eq!(d.nodes.len(), 22);
    assert_eq!(d.links.len(), 21);
    assert_eq!(d.tee, 7);
    assert_eq!(d.nodes[0].kind, NodeKind::Capture);
    assert_eq!(d.nodes[0].name.as_deref(), Some("src"));
    assert_eq!(d.nodes[0].props.len(), 1);
    assert_eq!(d.nodes[0].props[0].key, "location");
    match &d.nodes[0].props[0].value {
        PropValue::Text(t) => assert_eq!(t, "rtsp://10.50.13.242/1/h264major"),
        other => panic!("unexpected location value: {:?}", other),
    }
    assert_eq!(d.nodes[7].kind, NodeKind::Tee);
    assert_eq!(d.nodes[10].kind, NodeKind::RateFilter);
    assert_eq!(d.nodes[10].name.as_deref(), Some("filter"));
    assert_eq!(d.nodes[10].rate, Some(5));
    assert_eq!(d.nodes[17].kind, NodeKind::RateFilter);
    assert_eq!(d.nodes[17].name.as_deref(), Some("filter2"));
    assert_eq!(d.nodes[17].rate, Some(5));
    // the decoupling queues shed load downstream
    assert_eq!(d.nodes[2].props[0].key, "leaky");
    // branch dimensions
    match &d.nodes[11].props[0].value {
        PropValue::Uint(w) => assert_eq!(*w, 1920),
        other => panic!("unexpected width: {:?}", other),
    }
    match &d.nodes[18].props[1].value {
        PropValue::Uint(h) => assert_eq!(*h, 480),
        other => panic!("unexpected height: {:?}", other),
    }
    // sink configuration
    assert_eq!(d.nodes[14].kind, NodeKind::Sink);
    assert_eq!(d.nodes[14].props.len(), 3);
    assert_eq!(d.nodes[14].props[0].key, "max-buffers");
    // the tee fans out into the two branches
    assert_eq!((d.links[7].from, d.links[7].to), (7, 8));
    assert_eq!((d.links[14].from, d.links[14].to), (7, 15));
    assert_eq!((d.links[0].from, d.links[0].to), (0, 1));
    assert_eq!((d.links[20].from, d.links[20].to), (20, 21));
}

#[test]
fn factory_names_match_engine_vocabulary() {
    assert_eq!(NodeKind::Capture.factory_name(), "rtspsrc");
    assert_eq!(NodeKind::Depacketize.factory_name(), "rtph264depay");
    assert_eq!(NodeKind::Queue.factory_name(), "queue");
    assert_eq!(NodeKind::Parse.factory_name(), "h264parse");
    assert_eq!(NodeKind::Decode.factory_name(), "vaapih264dec");
    assert_eq!(NodeKind::Tee.factory_name(), "tee");
    assert_eq!(NodeKind::RatePace.factory_name(), "videorate");
    assert_eq!(NodeKind::RateFilter.factory_name(), "capsfilter");
    assert_eq!(NodeKind::Convert.factory_name(), "vaapipostproc");
    assert_eq!(NodeKind::FormatFilter.factory_name(), "capsfilter");
    assert_eq!(NodeKind::Encode.factory_name(), "vaapijpegenc");
    assert_eq!(NodeKind::Sink.factory_name(), "appsink");
}

#[test]
fn stable_filter_names() {
    assert_eq!(fullscreen_filter(), "filter");
    assert_eq!(thumbnail_filter(), "filter2");
}

#[test]
fn build_creates_ready_graph() {
    let d = default_descriptor("rtsp://camera/1", 5);
    let g = GraphHandle::build(&d, 3, &BuildOutcome::Built).unwrap();
    assert_eq!(g.generation, 3);
    assert_eq!(g.state, GraphState::Ready);
    assert_eq!(g.nodes.len(), 22);
    assert_eq!(g.links.len(), 21);
    assert_eq!(g.next_id, 22);
    for (i, n) in g.nodes.iter().enumerate() {
        assert_eq!(n.id, i as u64);
        assert_eq!(n.kind, d.nodes[i].kind);
    }
    assert_eq!(g.links[14].from, 7);
    assert_eq!(g.links[14].to, 15);
}

#[test]
fn build_reports_failed_node() {
    let d = default_descriptor("rtsp://camera/1", 5);
    let r = GraphHandle::build(&d, 0, &BuildOutcome::NodeFailed(3));
    assert_eq!(r.err(), Some(BuildError::Instantiate(3)));
}

#[test]
fn build_reports_failed_link() {
    let d = default_descriptor("rtsp://camera/1", 5);
    let r = GraphHandle::build(&d, 0, &BuildOutcome::LinkFailed(20));
    assert_eq!(r.err(), Some(BuildError::Link(20)));
}

#[test]
fn by_name_finds_the_rate_filters() {
    let g = playing_graph(5);
    assert_eq!(g.by_name(&fullscreen_filter()), Some(10));
    assert_eq!(g.by_name(&thumbnail_filter()), Some(17));
    assert_eq!(g.by_name(&String::from("nosuchnode")), None);
}

#[test]
fn set_state_refusal_changes_nothing() {
    let d = default_descriptor("rtsp://camera/1", 5);
    let mut g = GraphHandle::build(&d, 0, &BuildOutcome::Built).unwrap();
    assert!(g.set_state(GraphState::Playing, false).is_err());
    assert_eq!(g.state, GraphState::Ready);
}

#[test]
fn set_rate_replaces_the_filter_live() {
    let mut g = playing_graph(5);
    let r = g.set_rate(&thumbnail_filter(), 7, &SwapOutcome::Replaced, false);
    assert!(r.is_ok());
    assert_eq!(g.state, GraphState::Playing);
    assert_eq!(g.nodes.len(), 22);
    assert_eq!(g.links.len(), 21);
    let i = g.by_name(&thumbnail_filter()).unwrap();
    assert_eq!(g.nodes[i].rate, Some(7));
    assert_eq!(g.nodes[i].kind, NodeKind::RateFilter);
    // a fresh instance took the detached instance's place
    assert_eq!(g.nodes[i].id, 22);
    assert_eq!(g.next_id, 23);
    // its neighbours were relinked to the replacement
    assert!(g.links.iter().any(|l| l.from == 16 && l.to == 22));
    assert!(g.links.iter().any(|l| l.from == 22 && l.to == 18));
    assert!(!g.links.iter().any(|l| l.from == 17 || l.to == 17));
    // the other branch's filter is untouched
    let j = g.by_name(&fullscreen_filter()).unwrap();
    assert_eq!(g.nodes[j].rate, Some(5));
}

#[test]
fn second_rate_wins() {
    let mut g = playing_graph(5);
    g.set_rate(&thumbnail_filter(), 3, &SwapOutcome::Replaced, false).unwrap();
    g.set_rate(&thumbnail_filter(), 9, &SwapOutcome::Replaced, false).unwrap();
    assert_eq!(count_named(&g, "filter2"), 1);
    let i = g.by_name(&thumbnail_filter()).unwrap();
    assert_eq!(g.nodes[i].rate, Some(9));
    assert_eq!(g.state, GraphState::Playing);
}

#[test]
fn failed_replacement_leaves_branch_bare() {
    let mut g = playing_graph(5);
    let r = g.set_rate(&thumbnail_filter(), 7, &SwapOutcome::ReplacementFailed, false);
    assert_eq!(r.err(), Some(ReconfigureError::ReplacementFailed));
    // no rate filter on the branch: not two, not the old one still linked
    assert_eq!(count_named(&g, "filter2"), 0);
    assert_eq!(g.by_name(&thumbnail_filter()), None);
    assert_eq!(g.nodes.len(), 21);
    assert!(!g.links.iter().any(|l| l.from == 17 || l.to == 17));
    assert_eq!(g.links.len(), 19);
    // the failure is contained to that branch
    assert_eq!(count_named(&g, "filter"), 1);
    assert_eq!(g.state, GraphState::Playing);
}

#[test]
fn set_rate_unknown_name_is_node_not_found() {
    let mut g = playing_graph(5);
    let r = g.set_rate(&String::from("ghostfilter"), 7, &SwapOutcome::Replaced, false);
    assert_eq!(r.err(), Some(ReconfigureError::NodeNotFound));
    assert_eq!(g.nodes.len(), 22);
    assert_eq!(g.links.len(), 21);
    assert_eq!(g.state, GraphState::Playing);
}

#[test]
fn mandated_pause_resumes_before_return() {
    let mut g = playing_graph(5);
    let r = g.set_rate(&thumbnail_filter(), 2, &SwapOutcome::Replaced, true);
    assert!(r.is_ok());
    assert_eq!(g.state, GraphState::Playing);
    let i = g.by_name(&thumbnail_filter()).unwrap();
    assert_eq!(g.nodes[i].rate, Some(2));
}

#[test]
fn sink_acknowledges_and_counts_frames() {
    let mut s = FrameSink::new(String::from("rtsp://camera/1"), BranchKind::Thumbnail);
    assert_eq!(s.frames_seen, 0);
    let frame = [17u8, 3, 99, 250];
    assert_eq!(s.on_frame(&frame), FlowStatus::Accepted);
    assert_eq!(s.frames_seen, 1);
    assert_eq!(s.last_len, 4);
    assert_eq!(s.on_frame(&[1u8]), FlowStatus::Accepted);
    assert_eq!(s.frames_seen, 2);
    assert_eq!(s.last_len, 1);
}

#[test]
fn sink_accepts_the_empty_frame() {
    let mut s = FrameSink::new(String::from("rtsp://camera/1"), BranchKind::Fullscreen);
    assert_eq!(s.on_frame(&[]), FlowStatus::Accepted);
    assert_eq!(s.last_len, 0);
    assert_eq!(s.frames_seen, 1);
}

#[test]
fn sink_classifies_pull_failures() {
    let mut s = FrameSink::new(String::from("rtsp://camera/1"), BranchKind::Fullscreen);
    assert_eq!(s.on_pull_failure(&PullEvent::NoSample), FlowStatus::Ended);
    assert_eq!(s.on_pull_failure(&PullEvent::NoBuffer), FlowStatus::Failed);
    assert_eq!(s.on_pull_failure(&PullEvent::Unreadable), FlowStatus::Failed);
    assert_eq!(s.frames_seen, 0);
}

#[test]
fn failed_relink_also_leaves_branch_bare() {
    let mut g = playing_graph(5);
    let r = g.set_rate(&thumbnail_filter(), 7, &SwapOutcome::RelinkFailed, false);
    assert_eq!(r.err(), Some(ReconfigureError::RelinkFailed));
    assert_eq!(g.by_name(&thumbnail_filter()), None);
    assert!(!g.links.iter().any(|l| l.from == 17 || l.to == 17));
    assert_eq!(count_named(&g, "filter2"), 0);
    assert_eq!(g.state, GraphState::Playing);
}

//! Declarative description of a processing graph.
//!
//! A `GraphDescriptor` is an ordered node list plus a link topology with one
//! designated branch point (the tee) fanning out into two independently rated
//! output branches. It is immutable once constructed; a live `GraphHandle` is
//! instantiated from it.

use vstd::prelude::*;

verus! {

/// The processing stages a graph node can perform. The engine knows each of
/// these under a factory name; the supervision core only ever reads the kind.
#[derive(Clone, Copy, Debug, PartialEq, Eq, Structural)]
pub enum NodeKind {
    /// Network capture of the source transport.
    Capture,
    /// Depacketizes the transport payload into an elementary stream.
    Depacketize,
    /// Decoupling queue.
    Queue,
    /// Elementary-stream parser.
    Parse,
    /// Video decoder.
    Decode,
    /// Branch point fanning out into the output branches.
    Tee,
    /// Re-times frames so a downstream rate filter can drop them.
    RatePace,
    /// Enforces the output frame rate of a branch; the one node kind the
    /// live-reconfiguration procedure replaces.
    RateFilter,
    /// Scales and converts frames to the branch output format.
    Convert,
    /// Pins the negotiated output format of a branch.
    FormatFilter,
    /// Still-image encoder.
    Encode,
    /// Output sink invoking the per-branch frame callback.
    Sink,
}

impl NodeKind {
    /// The engine's factory name for this kind, for the runtime that
    /// instantiates the descriptor against the real engine.
    pub fn factory_name(self) -> (r: &'static str) {
        match self {
            NodeKind::Capture => "rtspsrc",
            NodeKind::Depacketize => "rtph264depay",
            NodeKind::Queue => "queue",
            NodeKind::Parse => "h264parse",
            NodeKind::Decode => "vaapih264dec",
            NodeKind::Tee => "tee",
            NodeKind::RatePace => "videorate",
            NodeKind::RateFilter => "capsfilter",
            NodeKind::Convert => "vaapipostproc",
            NodeKind::FormatFilter => "capsfilter",
            NodeKind::Encode => "vaapijpegenc",
            NodeKind::Sink => "appsink",
        }
    }
}

/// An engine property value carried opaquely to the engine.
#[derive(Clone, Debug)]
pub enum PropValue {
    Text(String),
    Uint(u32),
}

/// One named engine property of a node.
#[derive(Clone, Debug)]
pub struct PropSpec {
    pub key: String,
    pub value: PropValue,
}

/// One node of a descriptor: its kind, its stable name if it must be
/// addressable later, the frame rate it enforces if it is a rate filter, and
/// the properties the engine applies at instantiation.
#[derive(Clone, Debug)]
pub struct NodeSpec {
    pub kind: NodeKind,
    pub name: Option<String>,
    /// Frames per second enforced by this node; `Some` exactly for rate
    /// filters.
    pub rate: Option<u8>,
    pub props: Vec<PropSpec>,
}

/// A directed link between two nodes of the descriptor, by position in the
/// node list.
#[derive(Clone, Copy, Debug, PartialEq, Eq, Structural)]
pub struct LinkSpec {
    pub from: usize,
    pub to: usize,
}

/// The stable name of a node, as a character sequence.
pub open spec fn spec_name(name: Option<String>) -> Option<Seq<char>> {
    match name {
        Some(s) => Some(s@),
        None => None,
    }
}

/// Declarative description of a processing graph: ordered node list, link
/// topology, and the designated branch point. Immutable once constructed.
pub struct GraphDescriptor {
    pub nodes: Vec<NodeSpec>,
    pub links: Vec<LinkSpec>,
    /// Position of the designated branch node in `nodes`.
    pub tee: usize,
}

impl GraphDescriptor {
    /// Every link resolves to nodes of the list and points forward, so the
    /// graph is acyclic.
    pub open spec fn links_wf(self) -> bool {
        forall|i: int|
            0 <= i < self.links@.len() ==> (#[trigger] self.links@[i]).from < self.links@[i].to
                && self.links@[i].to < self.nodes@.len()
    }

    /// A node carries a rate exactly when it is a rate filter, and every rate
    /// filter has a stable name so it can be addressed for reconfiguration.
    pub open spec fn rates_wf(self) -> bool {
        forall|i: int|
            0 <= i < self.nodes@.len() ==> ((#[trigger] self.nodes@[i]).kind
                == NodeKind::RateFilter <==> self.nodes@[i].rate is Some)
                && (self.nodes@[i].kind == NodeKind::RateFilter ==> self.nodes@[i].name is Some)
    }

    /// No two rate filters share a stable name: the name alone identifies the
    /// branch whose rate it enforces.
    pub open spec fn filter_names_unique(self) -> bool {
        forall|i: int, j: int|
            0 <= i < j < self.nodes@.len() && (#[trigger] self.nodes@[i]).kind
                == NodeKind::RateFilter && (#[trigger] self.nodes@[j]).kind == NodeKind::RateFilter
                ==> spec_name(self.nodes@[i].name) != spec_name(self.nodes@[j].name)
    }

    /// The designated branch node is a tee with out-degree exactly two.
    pub open spec fn branch_point_wf(self) -> bool {
        &&& self.tee < self.nodes@.len()
        &&& self.nodes@[self.tee as int].kind == NodeKind::Tee
        &&& exists|a: int, b: int|
            0 <= a < b < self.links@.len() && (#[trigger] self.links@[a]).from == self.tee && (
            #[trigger] self.links@[b]).from == self.tee && forall|k: int|
                0 <= k < self.links@.len() && (#[trigger] self.links@[k]).from == self.tee ==> (k
                    == a || k == b)
    }

    pub open spec fn wf(self) -> bool {
        &&& self.links_wf()
        &&& self.rates_wf()
        &&& self.filter_names_unique()
        &&& self.branch_point_wf()
    }
}

/// A nameless, propertyless node of the given kind.
pub open spec fn plain_ok(n: NodeSpec, kind: NodeKind) -> bool {
    &&& n.kind == kind
    &&& n.name is None
    &&& n.rate is None
    &&& n.props@.len() == 0
}

/// The capture node: addressable as "src", pointed at the source location.
pub open spec fn capture_ok(n: NodeSpec, location: Seq<char>) -> bool {
    &&& n.kind == NodeKind::Capture
    &&& spec_name(n.name) == Some("src"@)
    &&& n.rate is None
    &&& n.props@.len() == 1
    &&& n.props@[0].key@ == "location"@
    &&& (n.props@[0].value matches PropValue::Text(t) && t@ == location)
}

/// A decoupling queue that sheds load downstream rather than blocking.
pub open spec fn queue_ok(n: NodeSpec, name: Seq<char>) -> bool {
    &&& n.kind == NodeKind::Queue
    &&& spec_name(n.name) == Some(name)
    &&& n.rate is None
    &&& n.props@.len() == 1
    &&& n.props@[0].key@ == "leaky"@
    &&& (n.props@[0].value matches PropValue::Text(t) && t@ == "downstream"@)
}

/// The branch point.
pub open spec fn tee_ok(n: NodeSpec) -> bool {
    &&& n.kind == NodeKind::Tee
    &&& spec_name(n.name) == Some("tee"@)
    &&& n.rate is None
    &&& n.props@.len() == 0
}

/// The frame re-timer ahead of a branch's rate filter.
pub open spec fn pace_ok(n: NodeSpec, name: Seq<char>) -> bool {
    &&& n.kind == NodeKind::RatePace
    &&& spec_name(n.name) == Some(name)
    &&& n.rate is None
    &&& n.props@.len() == 0
}

/// The rate filter of a branch, addressable under its stable name and
/// enforcing the given frame rate.
pub open spec fn filter_ok(n: NodeSpec, name: Seq<char>, rate: u8) -> bool {
    &&& n.kind == NodeKind::RateFilter
    &&& spec_name(n.name) == Some(name)
    &&& n.rate == Some(rate)
    &&& n.props@.len() == 0
}

/// The converter/scaler of a branch with its output dimensions.
pub open spec fn convert_ok(n: NodeSpec, name: Seq<char>, width: u32, height: u32) -> bool {
    &&& n.kind == NodeKind::Convert
    &&& spec_name(n.name) == Some(name)
    &&& n.rate is None
    &&& n.props@.len() == 2
    &&& n.props@[0].key@ == "width"@
    &&& n.props@[0].value == PropValue::Uint(width)
    &&& n.props@[1].key@ == "height"@
    &&& n.props@[1].value == PropValue::Uint(height)
}

/// The format pin of a branch.
pub open spec fn format_ok(n: NodeSpec, name: Seq<char>) -> bool {
    &&& n.kind == NodeKind::FormatFilter
    &&& spec_name(n.name) == Some(name)
    &&& n.rate is None
    &&& n.props@.len() == 0
}

/// A branch output sink: bounded buffering, dropping when full, signalling
/// each produced frame to the registered callback.
pub open spec fn sink_ok(n: NodeSpec, name: Seq<char>) -> bool {
    &&& n.kind == NodeKind::Sink
    &&& spec_name(n.name) == Some(name)
    &&& n.rate is None
    &&& n.props@.len() == 3
    &&& n.props@[0].key@ == "max-buffers"@
    &&& (n.props@[0].value matches PropValue::Text(t) && t@ == "100"@)
    &&& n.props@[1].key@ == "emit-signals"@
    &&& (n.props@[1].value matches PropValue::Text(t) && t@ == "true"@)
    &&& n.props@[2].key@ == "drop"@
    &&& (n.props@[2].value matches PropValue::Text(t) && t@ == "true"@)
}

/// The fixed link topology: a straight spine into the tee, then two branches
/// of identical shape.
pub open spec fn default_links() -> Seq<LinkSpec> {
    seq![
        LinkSpec { from: 0, to: 1 },
        LinkSpec { from: 1, to: 2 },
        LinkSpec { from: 2, to: 3 },
        LinkSpec { from: 3, to: 4 },
        LinkSpec { from: 4, to: 5 },
        LinkSpec { from: 5, to: 6 },
        LinkSpec { from: 6, to: 7 },
        LinkSpec { from: 7, to: 8 },
        LinkSpec { from: 8, to: 9 },
        LinkSpec { from: 9, to: 10 },
        LinkSpec { from: 10, to: 11 },
        LinkSpec { from: 11, to: 12 },
        LinkSpec { from: 12, to: 13 },
        LinkSpec { from: 13, to: 14 },
        LinkSpec { from: 7, to: 15 },
        LinkSpec { from: 15, to: 16 },
        LinkSpec { from: 16, to: 17 },
        LinkSpec { from: 17, to: 18 },
        LinkSpec { from: 18, to: 19 },
        LinkSpec { from: 19, to: 20 },
        LinkSpec { from: 20, to: 21 },
    ]
}

/// The exact shape of the default per-source descriptor: capture,
/// depacketize, parse and decode into the tee, then per branch a queue, the
/// rate pace and rate filter, the converter, the format pin, the encoder and
/// the sink. The fullscreen branch renders 1920x1080, the thumbnail branch
/// 720x480; both rate filters start at `rate`.
pub open spec fn default_shape(d: GraphDescriptor, location: Seq<char>, rate: u8) -> bool {
    &&& d.nodes@.len() == 22
    &&& d.tee == 7
    &&& d.links@ == default_links()
    &&& capture_ok(d.nodes@[0], location)
    &&& plain_ok(d.nodes@[1], NodeKind::Depacketize)
    &&& queue_ok(d.nodes@[2], "queue1"@)
    &&& plain_ok(d.nodes@[3], NodeKind::Parse)
    &&& queue_ok(d.nodes@[4], "queue2"@)
    &&& plain_ok(d.nodes@[5], NodeKind::Decode)
    &&& queue_ok(d.nodes@[6], "queue3"@)
    &&& tee_ok(d.nodes@[7])
    &&& queue_ok(d.nodes@[8], "queue4"@)
    &&& pace_ok(d.nodes@[9], "videorate"@)
    &&& filter_ok(d.nodes@[10], "filter"@, rate)
    &&& convert_ok(d.nodes@[11], "vaapipostproc"@, 1920, 1080)
    &&& format_ok(d.nodes@[12], "filter1"@)
    &&& plain_ok(d.nodes@[13], NodeKind::Encode)
    &&& sink_ok(d.nodes@[14], "app1"@)
    &&& queue_ok(d.nodes@[15], "queue5"@)
    &&& pace_ok(d.nodes@[16], "videorate1"@)
    &&& filter_ok(d.nodes@[17], "filter2"@, rate)
    &&& convert_ok(d.nodes@[18], "vaapipostproc1"@, 720, 480)
    &&& format_ok(d.nodes@[19], "filter3"@)
    &&& plain_ok(d.nodes@[20], NodeKind::Encode)
    &&& sink_ok(d.nodes@[21], "app2"@)
}

/// The stable name of the fullscreen branch's rate filter.
pub open spec fn fullscreen_filter_name() -> Seq<char> {
    "filter"@
}

/// The stable name of the thumbnail branch's rate filter.
pub open spec fn thumbnail_filter_name() -> Seq<char> {
    "filter2"@
}

/// The stable name of the fullscreen branch's rate filter.
pub fn fullscreen_filter() -> (s: String)
    ensures
        s@ == fullscreen_filter_name(),
{
    "filter".to_owned()
}

/// The stable name of the thumbnail branch's rate filter.
pub fn thumbnail_filter() -> (s: String)
    ensures
        s@ == thumbnail_filter_name(),
{
    "filter2".to_owned()
}

/// Every declared node carrying `name` is a rate filter: the stable name
/// addresses a rate filter or nothing.
pub open spec fn spec_addresses_filter(nodes: Seq<NodeSpec>, name: Seq<char>) -> bool {
    forall|j: int|
        0 <= j < nodes.len() && spec_name((#[trigger] nodes[j]).name) == Some(name) ==> nodes[j].kind
            == NodeKind::RateFilter
}

/// In the default shape, the two stable rate-filter names address rate
/// filters and nothing else.
pub proof fn lemma_default_shape_addresses(d: GraphDescriptor, location: Seq<char>, rate: u8)
    requires
        default_shape(d, location, rate),
    ensures
        spec_addresses_filter(d.nodes@, fullscreen_filter_name()),
        spec_addresses_filter(d.nodes@, thumbnail_filter_name()),
{
    reveal_strlit("src");
    reveal_strlit("queue1");
    reveal_strlit("queue2");
    reveal_strlit("queue3");
    reveal_strlit("queue4");
    reveal_strlit("queue5");
    reveal_strlit("tee");
    reveal_strlit("videorate");
    reveal_strlit("videorate1");
    reveal_strlit("vaapipostproc");
    reveal_strlit("vaapipostproc1");
    reveal_strlit("filter");
    reveal_strlit("filter1");
    reveal_strlit("filter2");
    reveal_strlit("filter3");
    reveal_strlit("app1");
    reveal_strlit("app2");
    assert("queue1"@[0] == 'q' && "queue2"@[0] == 'q' && "queue3"@[0] == 'q' && "queue4"@[0] == 'q'
        && "queue5"@[0] == 'q' && "filter"@[0] == 'f');
    assert("filter1"@[6] == '1' && "filter2"@[6] == '2' && "filter3"@[6] == '3');
    assert("src"@.len() == 3 && "queue1"@.len() == 6 && "queue2"@.len() == 6 && "queue3"@.len()
        == 6 && "queue4"@.len() == 6 && "queue5"@.len() == 6 && "tee"@.len() == 3
        && "videorate"@.len() == 9 && "videorate1"@.len() == 10 && "vaapipostproc"@.len() == 13
        && "vaapipostproc1"@.len() == 14 && "filter"@.len() == 6 && "filter1"@.len() == 7
        && "filter2"@.len() == 7 && "filter3"@.len() == 7 && "app1"@.len() == 4 && "app2"@.len()
        == 4);
    assert("queue1"@ != "filter"@ && "queue2"@ != "filter"@ && "queue3"@ != "filter"@ && "queue4"@
        != "filter"@ && "queue5"@ != "filter"@);
    assert("src"@ != "filter"@ && "tee"@ != "filter"@ && "videorate"@ != "filter"@
        && "vaapipostproc"@ != "filter"@ && "filter1"@ != "filter"@ && "app1"@ != "filter"@
        && "queue5"@ != "filter"@ && "videorate1"@ != "filter"@ && "filter2"@ != "filter"@
        && "vaapipostproc1"@ != "filter"@ && "filter3"@ != "filter"@ && "app2"@ != "filter"@);
    assert("filter1"@ != "filter2"@ && "filter3"@ != "filter2"@);
    assert("src"@ != "filter2"@ && "queue1"@ != "filter2"@ && "queue2"@ != "filter2"@ && "queue3"@
        != "filter2"@ && "queue4"@ != "filter2"@ && "queue5"@ != "filter2"@ && "tee"@ != "filter2"@
        && "videorate"@ != "filter2"@ && "vaapipostproc"@ != "filter2"@ && "app1"@ != "filter2"@
        && "videorate1"@ != "filter2"@ && "vaapipostproc1"@ != "filter2"@ && "app2"@ != "filter2"@
        && "filter"@ != "filter2"@);
    assert(spec_name(d.nodes@[0].name) == Some("src"@));
    assert(d.nodes@[1].name is None);
    assert(spec_name(d.nodes@[2].name) == Some("queue1"@));
    assert(d.nodes@[3].name is None);
    assert(spec_name(d.nodes@[4].name) == Some("queue2"@));
    assert(d.nodes@[5].name is None);
    assert(spec_name(d.nodes@[6].name) == Some("queue3"@));
    assert(spec_name(d.nodes@[7].name) == Some("tee"@));
    assert(spec_name(d.nodes@[8].name) == Some("queue4"@));
    assert(spec_name(d.nodes@[9].name) == Some("videorate"@));
    assert(spec_name(d.nodes@[10].name) == Some("filter"@) && d.nodes@[10].kind
        == NodeKind::RateFilter);
    assert(spec_name(d.nodes@[11].name) == Some("vaapipostproc"@));
    assert(spec_name(d.nodes@[12].name) == Some("filter1"@));
    assert(d.nodes@[13].name is None);
    assert(spec_name(d.nodes@[14].name) == Some("app1"@));
    assert(spec_name(d.nodes@[15].name) == Some("queue5"@));
    assert(spec_name(d.nodes@[16].name) == Some("videorate1"@));
    assert(spec_name(d.nodes@[17].name) == Some("filter2"@) && d.nodes@[17].kind
        == NodeKind::RateFilter);
    assert(spec_name(d.nodes@[18].name) == Some("vaapipostproc1"@));
    assert(spec_name(d.nodes@[19].name) == Some("filter3"@));
    assert(d.nodes@[20].name is None);
    assert(spec_name(d.nodes@[21].name) == Some("app2"@));
    assert forall|j: int|
        0 <= j < d.nodes@.len() && spec_name((#[trigger] d.nodes@[j]).name) == Some(
            fullscreen_filter_name(),
        ) implies d.nodes@[j].kind == NodeKind::RateFilter by {
        assert(j == 10);
    }
    assert forall|j: int|
        0 <= j < d.nodes@.len() && spec_name((#[trigger] d.nodes@[j]).name) == Some(
            thumbnail_filter_name(),
        ) implies d.nodes@[j].kind == NodeKind::RateFilter by {
        assert(j == 17);
    }
}

fn plain_node(kind: NodeKind) -> (n: NodeSpec)
    ensures
        plain_ok(n, kind),
{
    NodeSpec { kind, name: None, rate: None, props: Vec::new() }
}

fn capture_node(location: &str) -> (n: NodeSpec)
    ensures
        capture_ok(n, location@),
{
    let mut props: Vec<PropSpec> = Vec::new();
    props.push(PropSpec { key: "location".to_owned(), value: PropValue::Text(location.to_owned()) });
    NodeSpec { kind: NodeKind::Capture, name: Some("src".to_owned()), rate: None, props }
}

fn queue_node(name: &str) -> (n: NodeSpec)
    ensures
        queue_ok(n, name@),
{
    let mut props: Vec<PropSpec> = Vec::new();
    props.push(PropSpec { key: "leaky".to_owned(), value: PropValue::Text("downstream".to_owned()) });
    NodeSpec { kind: NodeKind::Queue, name: Some(name.to_owned()), rate: None, props }
}

fn tee_node() -> (n: NodeSpec)
    ensures
        tee_ok(n),
{
    NodeSpec { kind: NodeKind::Tee, name: Some("tee".to_owned()), rate: None, props: Vec::new() }
}

fn pace_node(name: &str) -> (n: NodeSpec)
    ensures
        pace_ok(n, name@),
{
    NodeSpec { kind: NodeKind::RatePace, name: Some(name.to_owned()), rate: None, props: Vec::new() }
}

fn filter_node(name: &str, rate: u8) -> (n: NodeSpec)
    ensures
        filter_ok(n, name@, rate),
{
    NodeSpec {
        kind: NodeKind::RateFilter,
        name: Some(name.to_owned()),
        rate: Some(rate),
        props: Vec::new(),
    }
}

fn convert_node(name: &str, width: u32, height: u32) -> (n: NodeSpec)
    ensures
        convert_ok(n, name@, width, height),
{
    let mut props: Vec<PropSpec> = Vec::new();
    props.push(PropSpec { key: "width".to_owned(), value: PropValue::Uint(width) });
    props.push(PropSpec { key: "height".to_owned(), value: PropValue::Uint(height) });
    NodeSpec { kind: NodeKind::Convert, name: Some(name.to_owned()), rate: None, props }
}

fn format_node(name: &str) -> (n: NodeSpec)
    ensures
        format_ok(n, name@),
{
    NodeSpec {
        kind: NodeKind::FormatFilter,
        name: Some(name.to_owned()),
        rate: None,
        props: Vec::new(),
    }
}

fn sink_node(name: &str) -> (n: NodeSpec)
    ensures
        sink_ok(n, name@),
{
    let mut props: Vec<PropSpec> = Vec::new();
    props.push(PropSpec { key: "max-buffers".to_owned(), value: PropValue::Text("100".to_owned()) });
    props.push(PropSpec { key: "emit-signals".to_owned(), value: PropValue::Text("true".to_owned()) });
    props.push(PropSpec { key: "drop".to_owned(), value: PropValue::Text("true".to_owned()) });
    NodeSpec { kind: NodeKind::Sink, name: Some(name.to_owned()), rate: None, props }
}

/// Builds the fixed per-source descriptor: capture at `location`, one decode
/// spine, and two output branches whose rate filters both start at
/// `default_rate`.
pub fn default_descriptor(location: &str, default_rate: u8) -> (d: GraphDescriptor)
    ensures
        d.wf(),
        default_shape(d, location@, default_rate),
{
    let mut nodes: Vec<NodeSpec> = Vec::new();
    nodes.push(capture_node(location));
    nodes.push(plain_node(NodeKind::Depacketize));
    nodes.push(queue_node("queue1"));
    nodes.push(plain_node(NodeKind::Parse));
    nodes.push(queue_node("queue2"));
    nodes.push(plain_node(NodeKind::Decode));
    nodes.push(queue_node("queue3"));
    nodes.push(tee_node());
    nodes.push(queue_node("queue4"));
    nodes.push(pace_node("videorate"));
    nodes.push(filter_node("filter", default_rate));
    nodes.push(convert_node("vaapipostproc", 1920, 1080));
    nodes.push(format_node("filter1"));
    nodes.push(plain_node(NodeKind::Encode));
    nodes.push(sink_node("app1"));
    nodes.push(queue_node("queue5"));
    nodes.push(pace_node("videorate1"));
    nodes.push(filter_node("filter2", default_rate));
    nodes.push(convert_node("vaapipostproc1", 720, 480));
    nodes.push(format_node("filter3"));
    nodes.push(plain_node(NodeKind::Encode));
    nodes.push(sink_node("app2"));

    let mut links: Vec<LinkSpec> = Vec::new();
    links.push(LinkSpec { from: 0, to: 1 });
    links.push(LinkSpec { from: 1, to: 2 });
    links.push(LinkSpec { from: 2, to: 3 });
    links.push(LinkSpec { from: 3, to: 4 });
    links.push(LinkSpec { from: 4, to: 5 });
    links.push(LinkSpec { from: 5, to: 6 });
    links.push(LinkSpec { from: 6, to: 7 });
    links.push(LinkSpec { from: 7, to: 8 });
    links.push(LinkSpec { from: 8, to: 9 });
    links.push(LinkSpec { from: 9, to: 10 });
    links.push(LinkSpec { from: 10, to: 11 });
    links.push(LinkSpec { from: 11, to: 12 });
    links.push(LinkSpec { from: 12, to: 13 });
    links.push(LinkSpec { from: 13, to: 14 });
    links.push(LinkSpec { from: 7, to: 15 });
    links.push(LinkSpec { from: 15, to: 16 });
    links.push(LinkSpec { from: 16, to: 17 });
    links.push(LinkSpec { from: 17, to: 18 });
    links.push(LinkSpec { from: 18, to: 19 });
    links.push(LinkSpec { from: 19, to: 20 });
    links.push(LinkSpec { from: 20, to: 21 });

    let d = GraphDescriptor { nodes, links, tee: 7 };
    proof {
        assert(d.links@ =~= default_links());
        assert(d.branch_point_wf()) by {
            assert(d.links@[7].from == d.tee);
            assert(d.links@[14].from == d.tee);
            assert(forall|k: int|
                0 <= k < d.links@.len() && (#[trigger] d.links@[k]).from == d.tee ==> (k == 7 || k
                    == 14));
        }
        assert(d.filter_names_unique()) by {
            reveal_strlit("filter");
            reveal_strlit("filter2");
            assert("filter"@.len() == 6);
            assert("filter2"@.len() == 7);
            assert(forall|i: int|
                0 <= i < 22 && (#[trigger] d.nodes@[i]).kind == NodeKind::RateFilter ==> (i == 10
                    || i == 17));
        }
    }
    d
}

} // verus!


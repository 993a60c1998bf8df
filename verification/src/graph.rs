//! A live graph instance and the live rate-reconfiguration procedure.
//!
//! A `GraphHandle` models the constructed, possibly running graph that a
//! worker owns: its externally observable state, its node ownership set and
//! its link set. Nodes carry the engine-assigned instance identity, so "the
//! same instance" and "a fresh instance" are distinguishable facts, which is
//! what the reconfiguration and idempotence guarantees are about.

use vstd::prelude::*;

use crate::GraphState;
use crate::descriptor::{GraphDescriptor, NodeKind, spec_name};
use crate::engine::{BuildOutcome, SwapOutcome};
use crate::errors::{BuildError, ReconfigureError, StateError};

verus! {

/// One owned node instance of a live graph.
#[derive(Debug)]
pub struct NodeInst {
    /// Instance identity, unique within the graph for its whole life.
    pub id: u64,
    pub kind: NodeKind,
    pub name: Option<String>,
    /// Frames per second this instance enforces; `Some` exactly for rate
    /// filters.
    pub rate: Option<u8>,
}

/// A directed link between two owned node instances, by instance identity.
#[derive(Clone, Copy, Debug, PartialEq, Eq, Structural)]
pub struct LinkInst {
    pub from: u64,
    pub to: u64,
}

/// A node instance carries the given stable name.
pub open spec fn named(n: NodeInst, name: Seq<char>) -> bool {
    spec_name(n.name) == Some(name)
}

/// Position of the first instance carrying `name`, scanning from `k`.
pub open spec fn first_named_from(nodes: Seq<NodeInst>, name: Seq<char>, k: int) -> Option<int>
    decreases nodes.len() - k,
{
    if k < 0 || k >= nodes.len() {
        None
    } else if named(nodes[k], name) {
        Some(k)
    } else {
        first_named_from(nodes, name, k + 1)
    }
}

/// Position of the first instance carrying `name`, if any.
pub open spec fn first_named(nodes: Seq<NodeInst>, name: Seq<char>) -> Option<int> {
    first_named_from(nodes, name, 0)
}

proof fn lemma_first_named_from_found(nodes: Seq<NodeInst>, name: Seq<char>, k: int, i: int)
    requires
        0 <= k <= i < nodes.len(),
        named(nodes[i], name),
        forall|j: int| k <= j < i ==> !named(#[trigger] nodes[j], name),
    ensures
        first_named_from(nodes, name, k) == Some(i),
    decreases i - k,
{
    if k < i {
        lemma_first_named_from_found(nodes, name, k + 1, i);
    }
}

proof fn lemma_first_named_from_none(nodes: Seq<NodeInst>, name: Seq<char>, k: int)
    requires
        0 <= k,
        forall|j: int| k <= j < nodes.len() ==> !named(#[trigger] nodes[j], name),
    ensures
        first_named_from(nodes, name, k) is None,
    decreases nodes.len() - k,
{
    if k < nodes.len() {
        lemma_first_named_from_none(nodes, name, k + 1);
    }
}

/// A link touches the instance with the given identity.
pub open spec fn touches(l: LinkInst, id: u64) -> bool {
    l.from == id || l.to == id
}

/// `l` with every endpoint at `old_id` redirected to `new_id`: the relink of
/// a replacement instance into exactly the detached instance's position.
pub open spec fn redirect(l: LinkInst, old_id: u64, new_id: u64) -> LinkInst {
    LinkInst {
        from: if l.from == old_id {
            new_id
        } else {
            l.from
        },
        to: if l.to == old_id {
            new_id
        } else {
            l.to
        },
    }
}

/// Some owned instance carries this identity.
pub open spec fn has_node_id(nodes: Seq<NodeInst>, id: u64) -> bool {
    exists|j: int| 0 <= j < nodes.len() && (#[trigger] nodes[j]).id == id
}

/// Every instance carrying `name` is a rate filter: the stable name
/// addresses a rate filter or nothing.
pub open spec fn name_addresses_filter(nodes: Seq<NodeInst>, name: Seq<char>) -> bool {
    forall|j: int|
        0 <= j < nodes.len() && named(#[trigger] nodes[j], name) ==> nodes[j].kind
            == NodeKind::RateFilter
}

/// Exactly one instance carries `name`, it is a rate filter, and it enforces
/// `rate`.
pub open spec fn one_filter_at(nodes: Seq<NodeInst>, name: Seq<char>, rate: u8) -> bool {
    exists|i: int|
        0 <= i < nodes.len() && named(#[trigger] nodes[i], name) && nodes[i].kind
            == NodeKind::RateFilter && nodes[i].rate == Some(rate) && forall|j: int|
            0 <= j < nodes.len() && named(#[trigger] nodes[j], name) ==> j == i
}

/// No instance carries `name`.
pub open spec fn no_filter_named(nodes: Seq<NodeInst>, name: Seq<char>) -> bool {
    forall|j: int| 0 <= j < nodes.len() ==> !named(#[trigger] nodes[j], name)
}

/// A live, owned graph instance built from a descriptor.
#[derive(Debug)]
pub struct GraphHandle {
    /// Which construction of this source's graph this is: each rebuild gets
    /// a fresh generation, so holders of a stale reference observe "gone".
    pub generation: u64,
    pub state: GraphState,
    /// The node ownership set; instances never outlive the handle.
    pub nodes: Vec<NodeInst>,
    pub links: Vec<LinkInst>,
    /// The next unused instance identity.
    pub next_id: u64,
}

impl GraphHandle {
    /// Instance identities are unique.
    pub open spec fn ids_unique(self) -> bool {
        forall|i: int, j: int|
            0 <= i < j < self.nodes@.len() ==> (#[trigger] self.nodes@[i]).id != (
            #[trigger] self.nodes@[j]).id
    }

    /// Every identity ever handed out is below `next_id`.
    pub open spec fn ids_bounded(self) -> bool {
        forall|i: int| 0 <= i < self.nodes@.len() ==> (#[trigger] self.nodes@[i]).id < self.next_id
    }

    /// Every link endpoint is an owned instance.
    pub open spec fn links_resolve(self) -> bool {
        forall|i: int|
            0 <= i < self.links@.len() ==> has_node_id(self.nodes@, (#[trigger] self.links@[i]).from)
                && has_node_id(self.nodes@, self.links@[i].to)
    }

    /// Rate filters carry a stable name and a rate, and no two rate filters
    /// share a name: a branch holds at most one rate filter at any time.
    pub open spec fn filters_wf(self) -> bool {
        &&& forall|i: int|
            0 <= i < self.nodes@.len() && (#[trigger] self.nodes@[i]).kind == NodeKind::RateFilter
                ==> self.nodes@[i].name is Some && self.nodes@[i].rate is Some
        &&& forall|i: int, j: int|
            0 <= i < j < self.nodes@.len() && (#[trigger] self.nodes@[i]).kind
                == NodeKind::RateFilter && (#[trigger] self.nodes@[j]).kind == NodeKind::RateFilter
                ==> spec_name(self.nodes@[i].name) != spec_name(self.nodes@[j].name)
    }

    pub open spec fn wf(self) -> bool {
        &&& self.ids_unique()
        &&& self.ids_bounded()
        &&& self.links_resolve()
        &&& self.filters_wf()
    }
}

/// `g` is the instance the engine built from `desc` under `generation`: one
/// owned instance per declared node, in order, with identity equal to its
/// position; one link per declared link; not yet running.
pub open spec fn built_from(desc: GraphDescriptor, g: GraphHandle, generation: u64) -> bool {
    &&& g.generation == generation
    &&& g.state == GraphState::Ready
    &&& g.nodes@.len() == desc.nodes@.len()
    &&& forall|i: int|
        0 <= i < desc.nodes@.len() ==> {
            let n = #[trigger] g.nodes@[i];
            n.id == i as u64 && n.kind == desc.nodes@[i].kind && spec_name(n.name) == spec_name(
                desc.nodes@[i].name,
            ) && n.rate == desc.nodes@[i].rate
        }
    &&& g.links@.len() == desc.links@.len()
    &&& forall|i: int|
        0 <= i < desc.links@.len() ==> (#[trigger] g.links@[i]).from == desc.links@[i].from as u64
            && g.links@[i].to == desc.links@[i].to as u64
    &&& g.next_id == desc.nodes@.len() as u64
}

fn clone_name(name: &Option<String>) -> (r: Option<String>)
    ensures
        r == *name,
{
    match name {
        Some(s) => Some(s.clone()),
        None => None,
    }
}

impl GraphHandle {
    /// Instantiates a descriptor against the engine's answer: on `Built`,
    /// the handle owns one instance per declared node and one link per
    /// declared link and sits in `Ready`; a node or link the engine could
    /// not realize is a `BuildError` naming its position, and no handle
    /// exists.
    pub fn build(desc: &GraphDescriptor, generation: u64, engine: &BuildOutcome) -> (r: Result<
        GraphHandle,
        BuildError,
    >)
        requires
            desc.wf(),
        ensures
            engine is Built ==> (r matches Ok(g) && built_from(*desc, g, generation) && g.wf()),
            (*engine matches BuildOutcome::NodeFailed(i) ==> r == Err::<GraphHandle, BuildError>(
                BuildError::Instantiate(i),
            )),
            (*engine matches BuildOutcome::LinkFailed(i) ==> r == Err::<GraphHandle, BuildError>(
                BuildError::Link(i),
            )),
    {
        match engine {
            BuildOutcome::NodeFailed(i) => Err(BuildError::Instantiate(*i)),
            BuildOutcome::LinkFailed(i) => Err(BuildError::Link(*i)),
            BuildOutcome::Built => {
                let mut nodes: Vec<NodeInst> = Vec::new();
                let mut i: usize = 0;
                while i < desc.nodes.len()
                    invariant
                        i <= desc.nodes@.len(),
                        nodes@.len() == i,
                        forall|j: int|
                            0 <= j < i ==> {
                                let n = #[trigger] nodes@[j];
                                n.id == j as u64 && n.kind == desc.nodes@[j].kind && spec_name(
                                    n.name,
                                ) == spec_name(desc.nodes@[j].name) && n.rate == desc.nodes@[j].rate
                            },
                    decreases desc.nodes@.len() - i,
                {
                    let s = &desc.nodes[i];
                    nodes.push(
                        NodeInst { id: i as u64, kind: s.kind, name: clone_name(&s.name), rate: s.rate },
                    );
                    i += 1;
                }
                let mut links: Vec<LinkInst> = Vec::new();
                let mut k: usize = 0;
                while k < desc.links.len()
                    invariant
                        k <= desc.links@.len(),
                        links@.len() == k,
                        forall|j: int|
                            0 <= j < k ==> (#[trigger] links@[j]).from == desc.links@[j].from as u64
                                && links@[j].to == desc.links@[j].to as u64,
                    decreases desc.links@.len() - k,
                {
                    let l = desc.links[k];
                    links.push(LinkInst { from: l.from as u64, to: l.to as u64 });
                    k += 1;
                }
                let g = GraphHandle {
                    generation,
                    state: GraphState::Ready,
                    nodes,
                    links,
                    next_id: desc.nodes.len() as u64,
                };
                proof {
                    assert(g.links_resolve()) by {
                        assert forall|i2: int| 0 <= i2 < g.links@.len() implies has_node_id(
                            g.nodes@,
                            (#[trigger] g.links@[i2]).from,
                        ) && has_node_id(g.nodes@, g.links@[i2].to) by {
                            let f = desc.links@[i2].from as int;
                            let t = desc.links@[i2].to as int;
                            assert(g.nodes@[f].id == g.links@[i2].from);
                            assert(g.nodes@[t].id == g.links@[i2].to);
                        }
                    }
                }
                Ok(g)
            },
        }
    }

    /// Requests the engine's state transition to `target`; `accepted` is the
    /// engine's answer. On acceptance the observable state is `target`; a
    /// refusal changes nothing and is surfaced, not swallowed.
    pub fn set_state(&mut self, target: GraphState, accepted: bool) -> (r: Result<(), StateError>)
        ensures
            accepted ==> r is Ok && *final(self) == (GraphHandle { state: target, ..*old(self) }),
            !accepted ==> r == Err::<(), StateError>(StateError) && *final(self) == *old(self),
    {
        if accepted {
            self.state = target;
            Ok(())
        } else {
            Err(StateError)
        }
    }

    /// Looks an owned instance up by its stable name; the position of the
    /// first carrier is returned.
    pub fn by_name(&self, name: &String) -> (r: Option<usize>)
        ensures
            match r {
                Some(i) => i < self.nodes@.len() && first_named(self.nodes@, name@) == Some(
                    i as int,
                ),
                None => first_named(self.nodes@, name@) is None,
            },
    {
        let mut k: usize = 0;
        while k < self.nodes.len()
            invariant
                k <= self.nodes@.len(),
                forall|j: int| 0 <= j < k ==> !named(#[trigger] self.nodes@[j], name@),
            decreases self.nodes@.len() - k,
        {
            if name_matches(&self.nodes[k].name, name) {
                proof {
                    lemma_first_named_from_found(self.nodes@, name@, 0, k as int);
                }
                return Some(k);
            }
            k += 1;
        }
        proof {
            lemma_first_named_from_none(self.nodes@, name@, 0);
        }
        None
    }
}

/// `ls` with every link touching `id` removed: the detach of an instance
/// from its upstream and downstream neighbours.
pub open spec fn detached(ls: Seq<LinkInst>, id: u64) -> Seq<LinkInst>
    decreases ls.len(),
{
    if ls.len() == 0 {
        Seq::empty()
    } else {
        let rest = detached(ls.drop_last(), id);
        if touches(ls.last(), id) {
            rest
        } else {
            rest.push(ls.last())
        }
    }
}

/// Every link the detach keeps avoids `id` and stood in the original set.
proof fn lemma_detached_props(ls: Seq<LinkInst>, id: u64)
    ensures
        forall|k: int|
            0 <= k < detached(ls, id).len() ==> !touches(#[trigger] detached(ls, id)[k], id),
        forall|k: int| 0 <= k < detached(ls, id).len() ==> ls.contains(#[trigger] detached(ls, id)[k]),
    decreases ls.len(),
{
    if ls.len() > 0 {
        let prefix = ls.drop_last();
        lemma_detached_props(prefix, id);
        if touches(ls.last(), id) {
            assert(detached(ls, id) == detached(prefix, id));
        } else {
            assert(detached(ls, id) == detached(prefix, id).push(ls.last()));
        }
        assert forall|k: int| 0 <= k < detached(ls, id).len() implies !touches(
            #[trigger] detached(ls, id)[k],
            id,
        ) && ls.contains(detached(ls, id)[k]) by {
            let x = detached(ls, id)[k];
            if !touches(ls.last(), id) && k == detached(ls, id).len() - 1 {
                assert(x == ls.last());
                assert(ls[ls.len() - 1] == x);
            } else {
                assert(x == detached(prefix, id)[k]);
                assert(prefix.contains(x));
                let j = choose|j: int| 0 <= j < prefix.len() && prefix[j] == x;
                assert(ls[j] == x);
            }
        }
    }
}

/// `ls` with every endpoint at `old_id` redirected to `new_id`.
pub open spec fn relinked(ls: Seq<LinkInst>, old_id: u64, new_id: u64) -> Seq<LinkInst> {
    Seq::new(ls.len(), |j: int| redirect(ls[j], old_id, new_id))
}

/// The whole effect of a successful live rate swap at position `i`: the old
/// instance is detached and destroyed, a fresh instance under the same
/// stable name enforcing `rate` takes exactly its position and links, and
/// nothing else of the graph — state, generation, any other instance or link
/// — changes.
pub open spec fn swap_applied(g0: GraphHandle, g1: GraphHandle, i: int, rate: u8) -> bool {
    let old_id = g0.nodes@[i].id;
    let fresh = NodeInst {
        id: g0.next_id,
        kind: NodeKind::RateFilter,
        name: g0.nodes@[i].name,
        rate: Some(rate),
    };
    &&& 0 <= i < g0.nodes@.len()
    &&& g1.nodes@ == g0.nodes@.update(i, fresh)
    &&& g1.links@ == relinked(g0.links@, old_id, g0.next_id)
    &&& g1.next_id as int == g0.next_id as int + 1
    &&& g1.generation == g0.generation
    &&& g1.state == g0.state
}

/// The whole effect of a rate swap whose replacement instantiation failed:
/// the old instance at position `i` is detached and destroyed, nothing takes
/// its place, and nothing else of the graph changes. The branch is left
/// without a rate filter rather than silently reverted.
pub open spec fn swap_failed_at(g0: GraphHandle, g1: GraphHandle, i: int) -> bool {
    let old_id = g0.nodes@[i].id;
    &&& 0 <= i < g0.nodes@.len()
    &&& g1.nodes@ == g0.nodes@.remove(i)
    &&& g1.links@ == detached(g0.links@, old_id)
    &&& g1.next_id == g0.next_id
    &&& g1.generation == g0.generation
    &&& g1.state == g0.state
}

impl GraphHandle {
    /// Changes the frame rate a branch enforces, live: locates the rate
    /// filter by its stable name, detaches and destroys it, and — if the
    /// engine could instantiate the replacement — relinks a fresh instance
    /// enforcing `rate` into the same position. Runs on the owner's single
    /// command-processing path; the graph keeps flowing, and if the engine
    /// mandates a pause for the splice the graph is resumed before this
    /// returns, so the externally observed state is unchanged either way.
    pub fn set_rate(&mut self, name: &String, rate: u8, engine: &SwapOutcome, pause_required: bool) -> (r:
        Result<(), ReconfigureError>)
        requires
            old(self).wf(),
            old(self).state == GraphState::Paused || old(self).state == GraphState::Playing,
            old(self).next_id < u64::MAX,
            name_addresses_filter(old(self).nodes@, name@),
        ensures
            final(self).wf(),
            final(self).state == old(self).state,
            final(self).generation == old(self).generation,
            first_named(old(self).nodes@, name@) is None ==> r == Err::<(), ReconfigureError>(
                ReconfigureError::NodeNotFound,
            ) && *final(self) == *old(self),
            (first_named(old(self).nodes@, name@) matches Some(i) ==> match *engine {
                SwapOutcome::Replaced => r is Ok && swap_applied(*old(self), *final(self), i, rate),
                SwapOutcome::ReplacementFailed => r == Err::<(), ReconfigureError>(
                    ReconfigureError::ReplacementFailed,
                ) && swap_failed_at(*old(self), *final(self), i),
                SwapOutcome::RelinkFailed => r == Err::<(), ReconfigureError>(
                    ReconfigureError::RelinkFailed,
                ) && swap_failed_at(*old(self), *final(self), i),
            }),
    {
        let i = match self.by_name(name) {
            None => {
                return Err(ReconfigureError::NodeNotFound);
            },
            Some(i) => i,
        };
        proof {
            lemma_first_named_props(self.nodes@, name@, 0, i as int);
        }
        let entry_state = self.state;
        if pause_required {
            // The engine mandates a pause for structural consistency; the
            // graph is resumed below, before control returns.
            self.state = GraphState::Paused;
        }
        let old_id = self.nodes[i].id;
        // Detach the old instance from both neighbours and destroy it,
        // then instantiate the replacement.
        match engine {
            SwapOutcome::Replaced => {
                let fresh_name = clone_name(&self.nodes[i].name);
                let fresh = NodeInst {
                    id: self.next_id,
                    kind: NodeKind::RateFilter,
                    name: fresh_name,
                    rate: Some(rate),
                };
                self.nodes[i] = fresh;
                let mut k: usize = 0;
                while k < self.links.len()
                    invariant
                        k <= self.links@.len(),
                        self.links@.len() == old(self).links@.len(),
                        forall|j: int|
                            0 <= j < k ==> self.links@[j] == redirect(
                                #[trigger] old(self).links@[j],
                                old_id,
                                old(self).next_id,
                            ),
                        forall|j: int|
                            k <= j < self.links@.len() ==> self.links@[j] == #[trigger] old(
                                self,
                            ).links@[j],
                        self.nodes@ == old(self).nodes@.update(
                            i as int,
                            NodeInst {
                                id: old(self).next_id,
                                kind: NodeKind::RateFilter,
                                name: old(self).nodes@[i as int].name,
                                rate: Some(rate),
                            },
                        ),
                        self.next_id == old(self).next_id,
                        self.generation == old(self).generation,
                        self.state == if pause_required {
                            GraphState::Paused
                        } else {
                            old(self).state
                        },
                        old_id == old(self).nodes@[i as int].id,
                        i < old(self).nodes@.len(),
                    decreases self.links@.len() - k,
                {
                    let l = self.links[k];
                    self.links[k] = LinkInst {
                        from: if l.from == old_id {
                            self.next_id
                        } else {
                            l.from
                        },
                        to: if l.to == old_id {
                            self.next_id
                        } else {
                            l.to
                        },
                    };
                    k += 1;
                }
                self.next_id = self.next_id + 1;
                if pause_required {
                    // Resume: the splice is complete, the graph returns to
                    // its entry state before the reconfiguration returns.
                    self.state = entry_state;
                }
                proof {
                    assert(self.links@ =~= relinked(old(self).links@, old_id, old(self).next_id));
                    assert(old(self).nodes@[i as int].kind == NodeKind::RateFilter);
                    lemma_swap_applied_wf(*old(self), *self, i as int, rate);
                }
                Ok(())
            },
            SwapOutcome::ReplacementFailed | SwapOutcome::RelinkFailed => {
                self.nodes.remove(i);
                let mut kept: Vec<LinkInst> = Vec::new();
                let mut k: usize = 0;
                while k < self.links.len()
                    invariant
                        k <= self.links@.len(),
                        kept@ == detached(self.links@.take(k as int), old_id),
                    decreases self.links@.len() - k,
                {
                    let l = self.links[k];
                    proof {
                        assert(self.links@.take(k as int + 1).drop_last() =~= self.links@.take(
                            k as int,
                        ));
                        assert(self.links@.take(k as int + 1).last() == l);
                    }
                    if !(l.from == old_id || l.to == old_id) {
                        kept.push(l);
                    }
                    k += 1;
                }
                proof {
                    assert(self.links@.take(self.links@.len() as int) =~= self.links@);
                }
                self.links = kept;
                if pause_required {
                    // Resume: the graph returns to its entry state before
                    // the failure is surfaced.
                    self.state = entry_state;
                }
                proof {
                    lemma_swap_failed_wf(*old(self), *self, i as int);
                }
                match engine {
                    SwapOutcome::RelinkFailed => Err(ReconfigureError::RelinkFailed),
                    _ => Err(ReconfigureError::ReplacementFailed),
                }
            },
        }
    }
}

/// Two instance sets whose carriers of `name` sit at the same positions
/// have the same first carrier.
pub proof fn lemma_first_named_stable(nodes0: Seq<NodeInst>, nodes1: Seq<NodeInst>, name: Seq<char>)
    requires
        nodes0.len() == nodes1.len(),
        forall|j: int|
            0 <= j < nodes0.len() ==> (named(#[trigger] nodes0[j], name) <==> named(
                #[trigger] nodes1[j],
                name,
            )),
    ensures
        first_named(nodes0, name) == first_named(nodes1, name),
{
    lemma_first_named_stable_from(nodes0, nodes1, name, 0);
}

proof fn lemma_first_named_stable_from(
    nodes0: Seq<NodeInst>,
    nodes1: Seq<NodeInst>,
    name: Seq<char>,
    k: int,
)
    requires
        nodes0.len() == nodes1.len(),
        forall|j: int|
            0 <= j < nodes0.len() ==> (named(#[trigger] nodes0[j], name) <==> named(
                #[trigger] nodes1[j],
                name,
            )),
    ensures
        first_named_from(nodes0, name, k) == first_named_from(nodes1, name, k),
    decreases nodes0.len() - k,
{
    if 0 <= k < nodes0.len() && !named(nodes0[k], name) {
        lemma_first_named_stable_from(nodes0, nodes1, name, k + 1);
    }
}

/// A swap of the instance at position `i` — which carries `swapname` — for a
/// fresh instance under the same name moves no name's first carrier.
pub proof fn lemma_swap_keeps_first_named(
    g0: GraphHandle,
    g1: GraphHandle,
    i: int,
    rate: u8,
    swapname: Seq<char>,
    other: Seq<char>,
)
    requires
        swap_applied(g0, g1, i, rate),
        named(g0.nodes@[i], swapname),
    ensures
        first_named(g1.nodes@, other) == first_named(g0.nodes@, other),
{
    assert forall|j: int|
        0 <= j < g0.nodes@.len() implies (named(#[trigger] g0.nodes@[j], other) <==> named(
        #[trigger] g1.nodes@[j],
        other,
    )) by {
        if j != i {
            assert(g1.nodes@[j] == g0.nodes@[j]);
        } else {
            assert(spec_name(g1.nodes@[i].name) == spec_name(g0.nodes@[i].name));
        }
    }
    lemma_first_named_stable(g0.nodes@, g1.nodes@, other);
}

pub proof fn lemma_first_named_props(nodes: Seq<NodeInst>, name: Seq<char>, k: int, i: int)
    requires
        0 <= k,
        first_named_from(nodes, name, k) == Some(i),
    ensures
        k <= i < nodes.len(),
        named(nodes[i], name),
        forall|j: int| k <= j < i ==> !named(#[trigger] nodes[j], name),
    decreases nodes.len() - k,
{
    if k < nodes.len() && !named(nodes[k], name) {
        lemma_first_named_props(nodes, name, k + 1, i);
    }
}

/// A successful swap preserves the graph invariants.
proof fn lemma_swap_applied_wf(g0: GraphHandle, g1: GraphHandle, i: int, rate: u8)
    requires
        g0.wf(),
        g0.next_id < u64::MAX,
        g0.nodes@[i].kind == NodeKind::RateFilter,
        swap_applied(g0, g1, i, rate),
    ensures
        g1.wf(),
{
    let old_id = g0.nodes@[i].id;
    let new_id = g0.next_id;
    assert(g1.ids_unique()) by {
        assert forall|a: int, b: int| 0 <= a < b < g1.nodes@.len() implies (
        #[trigger] g1.nodes@[a]).id != (#[trigger] g1.nodes@[b]).id by {
            assert(g0.nodes@[a].id < new_id);
            assert(g0.nodes@[b].id < new_id);
        }
    }
    assert(g1.links_resolve()) by {
        assert forall|k: int| 0 <= k < g1.links@.len() implies has_node_id(
            g1.nodes@,
            (#[trigger] g1.links@[k]).from,
        ) && has_node_id(g1.nodes@, g1.links@[k].to) by {
            let l0 = g0.links@[k];
            assert(g1.links@[k] == redirect(l0, old_id, new_id));
            assert(has_node_id(g0.nodes@, l0.from));
            assert(has_node_id(g0.nodes@, l0.to));
            assert(g1.nodes@[i].id == new_id);
            if l0.from == old_id {
                assert(g1.links@[k].from == new_id);
            } else {
                let j = choose|j: int|
                    0 <= j < g0.nodes@.len() && (#[trigger] g0.nodes@[j]).id == l0.from;
                assert(j != i);
                assert(g1.nodes@[j].id == l0.from);
            }
            if l0.to == old_id {
                assert(g1.links@[k].to == new_id);
            } else {
                let j = choose|j: int|
                    0 <= j < g0.nodes@.len() && (#[trigger] g0.nodes@[j]).id == l0.to;
                assert(j != i);
                assert(g1.nodes@[j].id == l0.to);
            }
        }
    }
    assert(g1.filters_wf()) by {
        assert forall|a: int, b: int|
            0 <= a < b < g1.nodes@.len() && (#[trigger] g1.nodes@[a]).kind == NodeKind::RateFilter
                && (#[trigger] g1.nodes@[b]).kind == NodeKind::RateFilter implies spec_name(
            g1.nodes@[a].name,
        ) != spec_name(g1.nodes@[b].name) by {
            if a != i && b != i {
                assert(g1.nodes@[a] == g0.nodes@[a]);
                assert(g1.nodes@[b] == g0.nodes@[b]);
            } else {
                assert(g1.nodes@[i].name == g0.nodes@[i].name);
            }
        }
    }
}

/// A failed swap preserves the graph invariants.
proof fn lemma_swap_failed_wf(g0: GraphHandle, g1: GraphHandle, i: int)
    requires
        g0.wf(),
        swap_failed_at(g0, g1, i),
    ensures
        g1.wf(),
{
    let old_id = g0.nodes@[i].id;
    assert forall|a: int| 0 <= a < g1.nodes@.len() implies g1.nodes@[a] == g0.nodes@[
        if a < i {
            a
        } else {
            a + 1
        }
    ] by {}
    lemma_detached_props(g0.links@, old_id);
    assert(g1.links_resolve()) by {
        assert forall|k: int| 0 <= k < g1.links@.len() implies has_node_id(
            g1.nodes@,
            (#[trigger] g1.links@[k]).from,
        ) && has_node_id(g1.nodes@, g1.links@[k].to) by {
            let l = g1.links@[k];
            assert(g0.links@.contains(l));
            let k0 = choose|k0: int| 0 <= k0 < g0.links@.len() && g0.links@[k0] == l;
            assert(has_node_id(g0.nodes@, l.from));
            assert(has_node_id(g0.nodes@, l.to));
            let jf = choose|j: int|
                0 <= j < g0.nodes@.len() && (#[trigger] g0.nodes@[j]).id == l.from;
            assert(jf != i);
            let jf1: int = if jf < i {
                jf
            } else {
                jf - 1
            };
            assert(g1.nodes@[jf1].id == l.from);
            let jt = choose|j: int| 0 <= j < g0.nodes@.len() && (#[trigger] g0.nodes@[j]).id == l.to;
            assert(jt != i);
            let jt1: int = if jt < i {
                jt
            } else {
                jt - 1
            };
            assert(g1.nodes@[jt1].id == l.to);
        }
    }
}

/// Law: after two successive successful rate swaps addressed at the same
/// stable name, exactly one rate-filter instance carries that name and it
/// enforces the second rate; the first rate is gone.
pub proof fn lemma_second_rate_wins(
    g0: GraphHandle,
    g1: GraphHandle,
    g2: GraphHandle,
    name: Seq<char>,
    r1: u8,
    r2: u8,
    i1: int,
    i2: int,
)
    requires
        g0.wf(),
        name_addresses_filter(g0.nodes@, name),
        first_named(g0.nodes@, name) == Some(i1),
        swap_applied(g0, g1, i1, r1),
        first_named(g1.nodes@, name) == Some(i2),
        swap_applied(g1, g2, i2, r2),
    ensures
        one_filter_at(g2.nodes@, name, r2),
{
    lemma_first_named_props(g0.nodes@, name, 0, i1);
    lemma_first_named_props(g1.nodes@, name, 0, i2);
    assert(g1.nodes@[i1].name == g0.nodes@[i1].name);
    assert(named(g1.nodes@[i1], name));
    if i2 < i1 {
        assert(g1.nodes@[i2] == g0.nodes@[i2]);
        assert(!named(g0.nodes@[i2], name));
        assert(false);
    }
    if i2 > i1 {
        assert(!named(g1.nodes@[i1], name));
        assert(false);
    }
    assert(i2 == i1);
    assert(named(g2.nodes@[i1], name));
    assert(g2.nodes@[i1].kind == NodeKind::RateFilter);
    assert(g2.nodes@[i1].rate == Some(r2));
    assert forall|j: int| 0 <= j < g2.nodes@.len() && named(#[trigger] g2.nodes@[j], name) implies j
        == i1 by {
        if j != i1 {
            assert(g2.nodes@[j] == g0.nodes@[j]);
            assert(named(g0.nodes@[j], name));
            assert(g0.nodes@[j].kind == NodeKind::RateFilter);
            assert(g0.nodes@[i1].kind == NodeKind::RateFilter);
            assert(spec_name(g0.nodes@[j].name) == Some(name));
            assert(spec_name(g0.nodes@[i1].name) == Some(name));
            assert(false);
        }
    }
}

/// Law: if the replacement instantiation of a rate swap fails, the branch is
/// left with no rate filter at all — never with two, and never with the old
/// instance still linked: no instance carries the stable name any more, and
/// no remaining link touches the detached instance.
pub proof fn lemma_failed_swap_leaves_none(
    g0: GraphHandle,
    g1: GraphHandle,
    name: Seq<char>,
    i: int,
)
    requires
        g0.wf(),
        name_addresses_filter(g0.nodes@, name),
        first_named(g0.nodes@, name) == Some(i),
        swap_failed_at(g0, g1, i),
    ensures
        no_filter_named(g1.nodes@, name),
        forall|k: int|
            0 <= k < g1.links@.len() ==> !touches(#[trigger] g1.links@[k], g0.nodes@[i].id),
{
    lemma_first_named_props(g0.nodes@, name, 0, i);
    let old_id = g0.nodes@[i].id;
    assert forall|j: int| 0 <= j < g1.nodes@.len() implies !named(#[trigger] g1.nodes@[j], name) by {
        let j0: int = if j < i {
            j
        } else {
            j + 1
        };
        assert(g1.nodes@[j] == g0.nodes@[j0]);
        if named(g0.nodes@[j0], name) {
            assert(g0.nodes@[j0].kind == NodeKind::RateFilter);
            assert(g0.nodes@[i].kind == NodeKind::RateFilter);
            assert(spec_name(g0.nodes@[j0].name) == Some(name));
            assert(spec_name(g0.nodes@[i].name) == Some(name));
            assert(j0 != i);
            assert(false);
        }
    }
    lemma_detached_props(g0.links@, old_id);
}

/// Instantiation carries name addressing over from the descriptor to the
/// built instance set.
pub proof fn lemma_built_addresses(
    desc: GraphDescriptor,
    g: GraphHandle,
    generation: u64,
    nm: Seq<char>,
)
    requires
        built_from(desc, g, generation),
        crate::descriptor::spec_addresses_filter(desc.nodes@, nm),
    ensures
        name_addresses_filter(g.nodes@, nm),
{
    assert forall|j: int|
        0 <= j < g.nodes@.len() && named(#[trigger] g.nodes@[j], nm) implies g.nodes@[j].kind
        == NodeKind::RateFilter by {
        assert(spec_name(desc.nodes@[j].name) == Some(nm));
    }
}

/// A successful swap keeps every stable name addressing a rate filter: the
/// replacement instance is itself a rate filter.
pub proof fn lemma_swap_preserves_addressing(
    g0: GraphHandle,
    g1: GraphHandle,
    i: int,
    rate: u8,
    nm: Seq<char>,
)
    requires
        swap_applied(g0, g1, i, rate),
        name_addresses_filter(g0.nodes@, nm),
    ensures
        name_addresses_filter(g1.nodes@, nm),
{
}

/// A failed swap keeps every stable name addressing a rate filter: the
/// surviving instances are a subset of the old ones.
pub proof fn lemma_failed_preserves_addressing(g0: GraphHandle, g1: GraphHandle, i: int, nm: Seq<char>)
    requires
        swap_failed_at(g0, g1, i),
        name_addresses_filter(g0.nodes@, nm),
    ensures
        name_addresses_filter(g1.nodes@, nm),
{
    assert forall|j: int|
        0 <= j < g1.nodes@.len() && named(#[trigger] g1.nodes@[j], nm) implies g1.nodes@[j].kind
        == NodeKind::RateFilter by {
        let j0: int = if j < i {
            j
        } else {
            j + 1
        };
        assert(g1.nodes@[j] == g0.nodes@[j0]);
    }
}

fn name_matches(n: &Option<String>, target: &String) -> (r: bool)
    ensures
        r == (spec_name(*n) == Some(target@)),
{
    match n {
        Some(s) => *s == *target,
        None => false,
    }
}

} // verus!

//! The VM-operation sink: the recursive call-depth tree that records
//! per-instruction detail, kept as an arena of nodes with child indices,
//! and the depth navigator that locates the node for the current call
//! depth by repeatedly descending into the last (most recently pushed)
//! child.
//!
//! Invariant: a node exists at depth `d` along the active path iff exactly
//! `d` enter-subtrace events have been issued and not yet matched by a
//! frame exit; a depth beyond the deepest currently-open node must never
//! be requested.

use vstd::prelude::*;

verus! {

/// One per-instruction operation record.
#[derive(Clone, Copy, Debug, PartialEq, Eq, Structural)]
pub struct VMOperation {
    /// The program counter of the executed instruction.
    pub pc: usize,
    /// The executed instruction.
    pub instruction: u8,
    /// The gas the instruction cost.
    pub gas_cost: u64,
}

/// One tree node: its operation records in execution order, and the arena
/// indices of its child nodes, one per nested frame entered during this
/// node's execution, in entry order.
#[derive(Debug, PartialEq)]
pub struct VMTraceNode {
    pub operations: Vec<VMOperation>,
    pub children: Vec<usize>,
}

/// The mathematical content of one tree node.
#[verifier::ext_equal]
pub ghost struct NodeView {
    pub operations: Seq<VMOperation>,
    pub children: Seq<int>,
}

impl View for VMTraceNode {
    type V = NodeView;

    open spec fn view(&self) -> NodeView {
        NodeView {
            operations: self.operations@,
            children: self.children@.map_values(|c: usize| c as int),
        }
    }
}

/// The node with no operations and no children yet.
pub open spec fn empty_node() -> NodeView {
    NodeView { operations: Seq::empty(), children: Seq::empty() }
}

/// The whole arena, as mathematical content. The root is node 0.
pub open spec fn arena_view(nodes: Seq<VMTraceNode>) -> Seq<NodeView> {
    nodes.map_values(|n: VMTraceNode| n@)
}

/// Arena well-formedness: every child index points into the arena, at a
/// node pushed after its parent. This makes the parent/child relation
/// acyclic.
pub open spec fn arena_wf(nodes: Seq<NodeView>) -> bool {
    forall|i: int, j: int|
        0 <= i < nodes.len() && 0 <= j < nodes[i].children.len() ==> i < #[trigger] nodes[i].children[j]
            < nodes.len()
}

/// Whether the last-child chain starting at node `i` descends at least
/// `d` steps: this is the active path while `d` frames are open below `i`.
pub open spec fn chain_ok(nodes: Seq<NodeView>, i: int, d: nat) -> bool
    decreases d,
{
    &&& 0 <= i < nodes.len()
    &&& d > 0 ==> {
        &&& nodes[i].children.len() > 0
        &&& chain_ok(nodes, nodes[i].children.last(), (d - 1) as nat)
    }
}

/// The node reached from `i` by descending into the last child `d` times:
/// the depth navigator's target.
pub open spec fn chain_node(nodes: Seq<NodeView>, i: int, d: nat) -> int
    decreases d,
{
    if d == 0 {
        i
    } else {
        chain_node(nodes, nodes[i].children.last(), (d - 1) as nat)
    }
}

/// A chain that descends `d1` steps also descends any `d2 <= d1` steps.
pub proof fn lemma_chain_prefix(nodes: Seq<NodeView>, i: int, d1: nat, d2: nat)
    requires
        chain_ok(nodes, i, d1),
        d2 <= d1,
    ensures
        chain_ok(nodes, i, d2),
    decreases d1,
{
    if d2 > 0 {
        lemma_chain_prefix(nodes, nodes[i].children.last(), (d1 - 1) as nat, (d2 - 1) as nat);
    }
}

/// In a well-formed arena, descending `d` steps moves at least `d` nodes
/// forward, and lands inside the arena.
pub proof fn lemma_chain_bound(nodes: Seq<NodeView>, i: int, d: nat)
    requires
        arena_wf(nodes),
        chain_ok(nodes, i, d),
    ensures
        i + d <= chain_node(nodes, i, d) < nodes.len(),
    decreases d,
{
    if d > 0 {
        let c = nodes[i].children.last();
        assert(nodes[i].children[nodes[i].children.len() - 1] == c);
        lemma_chain_bound(nodes, c, (d - 1) as nat);
    }
}

/// Arenas whose nodes have the same children have the same chains.
pub proof fn lemma_chain_same_children(a: Seq<NodeView>, b: Seq<NodeView>, i: int, d: nat)
    requires
        chain_ok(a, i, d),
        b.len() == a.len(),
        forall|k: int| 0 <= k < a.len() ==> (#[trigger] b[k]).children == a[k].children,
    ensures
        chain_ok(b, i, d),
        chain_node(b, i, d) == chain_node(a, i, d),
    decreases d,
{
    if d > 0 {
        lemma_chain_same_children(a, b, a[i].children.last(), (d - 1) as nat);
    }
}

/// Appending a fresh node as a new last child of the chain's end extends
/// the chain by one step, which reaches exactly the fresh node.
pub proof fn lemma_prepare_chain(nodes: Seq<NodeView>, i: int, d: nat)
    requires
        arena_wf(nodes),
        chain_ok(nodes, i, d),
    ensures
        ({
            let parent = chain_node(nodes, i, d);
            let grown = nodes.update(
                parent,
                NodeView {
                    children: nodes[parent].children.push(nodes.len() as int),
                    ..nodes[parent]
                },
            ).push(empty_node());
            &&& chain_ok(grown, i, (d + 1) as nat)
            &&& chain_node(grown, i, (d + 1) as nat) == nodes.len()
        }),
    decreases d,
{
    let parent = chain_node(nodes, i, d);
    let grown = nodes.update(
        parent,
        NodeView { children: nodes[parent].children.push(nodes.len() as int), ..nodes[parent] },
    ).push(empty_node());
    lemma_chain_bound(nodes, i, d);
    assert(0 <= parent < nodes.len());
    if d == 0 {
        assert(parent == i);
        assert(grown[i].children == nodes[i].children.push(nodes.len() as int));
        assert(grown[i].children.last() == nodes.len());
        assert(chain_ok(grown, nodes.len() as int, 0));
        assert(chain_ok(grown, i, 1));
        assert(chain_node(grown, nodes.len() as int, 0) == nodes.len());
        assert(chain_node(grown, i, 1) == nodes.len());
    } else {
        let c = nodes[i].children.last();
        assert(chain_node(nodes, i, d) == chain_node(nodes, c, (d - 1) as nat));
        lemma_prepare_chain(nodes, c, (d - 1) as nat);
        assert(chain_ok(grown, c, d));
        assert(chain_node(grown, c, d) == nodes.len());
        assert(parent >= i + d) by {
            lemma_chain_bound(nodes, i, d);
        }
        assert(i != parent);
        assert(grown[i] == nodes[i]);
        assert(grown[i].children.len() > 0);
        assert(grown[i].children.last() == c);
        assert(chain_ok(grown, i, (d + 1) as nat));
        assert(chain_node(grown, i, (d + 1) as nat) == chain_node(grown, c, d));
    }
}

/// The tree a drained VM-operation sink hands back: the arena, rooted at
/// node 0.
#[derive(Debug, PartialEq)]
pub struct VMTrace {
    pub nodes: Vec<VMTraceNode>,
}

impl View for VMTrace {
    type V = Seq<NodeView>;

    open spec fn view(&self) -> Seq<NodeView> {
        arena_view(self.nodes@)
    }
}

/// The depth navigator: from the root of `nodes`, descend into the last
/// child `d` times and return the index of the node reached. Asking for a
/// depth with no open node there is a caller fault that the contract
/// rejects.
pub fn descend_last(nodes: &Vec<VMTraceNode>, d: usize) -> (i: usize)
    requires
        chain_ok(arena_view(nodes@), 0, d as nat),
    ensures
        i as int == chain_node(arena_view(nodes@), 0, d as nat),
{
    let ghost av = arena_view(nodes@);
    let mut cur: usize = 0;
    let mut k: usize = 0;
    while k < d
        invariant
            k <= d,
            av == arena_view(nodes@),
            chain_ok(av, cur as int, (d - k) as nat),
            chain_node(av, cur as int, (d - k) as nat) == chain_node(av, 0, d as nat),
        decreases d - k,
    {
        proof {
            assert(av[cur as int].children.len() > 0);
            assert(av[cur as int].children == nodes@[cur as int]@.children);
        }
        let node = &nodes[cur];
        let c = node.children[node.children.len() - 1];
        proof {
            assert(av[cur as int].children.last() == c as int);
        }
        cur = c;
        k = k + 1;
    }
    cur
}

impl VMTrace {
    /// The depth navigator on a drained tree: the index of the node `d`
    /// last-child steps below the root. Depth 0 is the root itself.
    pub fn node_index_at_depth(&self, d: usize) -> (i: usize)
        requires
            chain_ok(self@, 0, d as nat),
        ensures
            i as int == chain_node(self@, 0, d as nat),
    {
        descend_last(&self.nodes, d)
    }
}

/// The mathematical content of the VM-operation sink: the arena and the
/// number of currently-open nested frames.
#[verifier::ext_equal]
pub ghost struct VmView {
    pub nodes: Seq<NodeView>,
    pub depth: nat,
}

/// The view a freshly started sink has: one root node, no open frames.
pub open spec fn toplevel_view() -> VmView {
    VmView { nodes: seq![empty_node()], depth: 0 }
}

/// The sink after an enter-subtrace event: a fresh node is pushed as the
/// last child of the node at the current depth, and the depth grows by
/// one; the active path now ends at the fresh node.
pub open spec fn vm_prepare(v: VmView) -> VmView {
    let parent = chain_node(v.nodes, 0, v.depth);
    VmView {
        nodes: v.nodes.update(
            parent,
            NodeView { children: v.nodes[parent].children.push(v.nodes.len() as int), ..v.nodes[parent] },
        ).push(empty_node()),
        depth: v.depth + 1,
    }
}

/// The sink after a frame exit: the deepest open frame closes.
pub open spec fn vm_done(v: VmView) -> VmView {
    VmView { depth: (v.depth - 1) as nat, ..v }
}

/// The sink after an operation-completion event: the record is appended
/// to the node at the current depth.
pub open spec fn vm_record(v: VmView, op: VMOperation) -> VmView {
    let at = chain_node(v.nodes, 0, v.depth);
    VmView {
        nodes: v.nodes.update(
            at,
            NodeView { operations: v.nodes[at].operations.push(op), ..v.nodes[at] },
        ),
        ..v
    }
}

/// The VM-operation sink: records per-instruction detail into the node at
/// the engine's current call depth.
pub struct VmOperationTracer {
    pub nodes: Vec<VMTraceNode>,
    pub depth: usize,
}

impl VmOperationTracer {
    /// The sink's mathematical content.
    pub open spec fn vmv(&self) -> VmView {
        VmView { nodes: arena_view(self.nodes@), depth: self.depth as nat }
    }

    /// Well-formedness: the arena is well-formed, a never-started sink has
    /// no open frames, and the active path descends to the current depth.
    pub open spec fn inv(&self) -> bool {
        &&& arena_wf(self.vmv().nodes)
        &&& self.nodes@.len() == 0 ==> self.depth == 0
        &&& self.nodes@.len() > 0 ==> chain_ok(self.vmv().nodes, 0, self.depth as nat)
    }

    /// A started sink: a root node at depth 0, nothing recorded yet.
    pub fn toplevel() -> (r: VmOperationTracer)
        ensures
            r.inv(),
            r.vmv() == toplevel_view(),
    {
        let mut nodes: Vec<VMTraceNode> = Vec::new();
        nodes.push(VMTraceNode { operations: Vec::new(), children: Vec::new() });
        let r = VmOperationTracer { nodes, depth: 0 };
        proof {
            assert(r.vmv().nodes =~~= seq![empty_node()]);
            assert(r.vmv() =~~= toplevel_view());
        }
        r
    }

    /// The index of the node on the active path at depth `d`: the depth
    /// navigator, bound by the invariant to currently-open depths.
    pub fn active_node_index(&self, d: usize) -> (i: usize)
        requires
            self.inv(),
            self.vmv().nodes.len() > 0,
            d <= self.depth,
        ensures
            i as int == chain_node(self.vmv().nodes, 0, d as nat),
    {
        proof {
            lemma_chain_prefix(self.vmv().nodes, 0, self.depth as nat, d as nat);
        }
        descend_last(&self.nodes, d)
    }

    /// An enter-subtrace event: push a fresh node under the node at the
    /// current depth and descend into it.
    pub fn prepare_subtrace(&mut self)
        requires
            old(self).inv(),
            old(self).vmv().nodes.len() > 0,
        ensures
            final(self).inv(),
            final(self).vmv() == vm_prepare(old(self).vmv()),
    {
        let ghost ov = old(self).vmv();
        proof {
            lemma_chain_bound(ov.nodes, 0, ov.depth);
        }
        let parent = descend_last(&self.nodes, self.depth);
        let new_idx = self.nodes.len();
        self.nodes.push(VMTraceNode { operations: Vec::new(), children: Vec::new() });
        let node = &mut self.nodes[parent];
        node.children.push(new_idx);
        self.depth = self.depth + 1;
        proof {
            let gp = chain_node(ov.nodes, 0, ov.depth);
            let grown = ov.nodes.update(
                gp,
                NodeView { children: ov.nodes[gp].children.push(ov.nodes.len() as int), ..ov.nodes[gp] },
            ).push(empty_node());
            assert(self.vmv().nodes =~~= grown);
            lemma_prepare_chain(ov.nodes, 0, ov.depth);
            assert(self.vmv() =~~= vm_prepare(ov));
            assert forall|i: int, j: int|
                0 <= i < grown.len() && 0 <= j < grown[i].children.len() implies i
                < #[trigger] grown[i].children[j] < grown.len() by {
                if i != gp {
                    assert(grown[i].children == ov.nodes[i].children);
                }
            }
        }
    }

    /// A frame-exit event: the deepest open frame closes, moving the
    /// active depth one up.
    pub fn done_subtrace(&mut self)
        requires
            old(self).inv(),
            old(self).depth > 0,
        ensures
            final(self).inv(),
            final(self).vmv() == vm_done(old(self).vmv()),
    {
        proof {
            lemma_chain_prefix(
                self.vmv().nodes,
                0,
                self.depth as nat,
                (self.depth - 1) as nat,
            );
        }
        self.depth = self.depth - 1;
        proof {
            assert(self.vmv() =~~= vm_done(old(self).vmv()));
        }
    }

    /// An operation-completion event: append the record to the node at
    /// the current depth.
    pub fn trace_executed(&mut self, op: VMOperation)
        requires
            old(self).inv(),
            old(self).vmv().nodes.len() > 0,
        ensures
            final(self).inv(),
            final(self).vmv() == vm_record(old(self).vmv(), op),
    {
        let ghost ov = old(self).vmv();
        proof {
            lemma_chain_bound(ov.nodes, 0, ov.depth);
        }
        let at = descend_last(&self.nodes, self.depth);
        let node = &mut self.nodes[at];
        node.operations.push(op);
        proof {
            let gat = chain_node(ov.nodes, 0, ov.depth);
            assert(self.vmv().nodes =~~= vm_record(ov, op).nodes);
            assert(self.vmv() =~~= vm_record(ov, op));
            lemma_chain_same_children(ov.nodes, self.vmv().nodes, 0, ov.depth);
            assert forall|i: int, j: int|
                0 <= i < self.vmv().nodes.len() && 0 <= j < self.vmv().nodes[i].children.len()
                implies i < #[trigger] self.vmv().nodes[i].children[j] < self.vmv().nodes.len() by {
                assert(self.vmv().nodes[i].children == ov.nodes[i].children);
            }
        }
    }

    /// Consumes the sink and returns the root tree, or nothing if the
    /// sink was never started.
    pub fn drain(self) -> (r: Option<VMTrace>)
        ensures
            self.vmv().nodes.len() == 0 ==> r is None,
            self.vmv().nodes.len() > 0 ==> r is Some && r->Some_0@ == self.vmv().nodes,
    {
        if self.nodes.len() == 0 {
            None
        } else {
            Some(VMTrace { nodes: self.nodes })
        }
    }
}

impl Default for VmOperationTracer {
    /// A never-started sink: no nodes, no open frames; its drain returns
    /// nothing.
    fn default() -> (r: VmOperationTracer)
        ensures
            r.inv(),
            r.vmv() == (VmView { nodes: Seq::empty(), depth: 0 }),
    {
        let r = VmOperationTracer { nodes: Vec::new(), depth: 0 };
        proof {
            assert(r.vmv() =~~= (VmView { nodes: Seq::empty(), depth: 0 }));
        }
        r
    }
}

/// The arena shape left by building along a single path with no pops:
/// node `k`'s only child is node `k + 1`, and the last node is childless.
pub open spec fn single_path(nodes: Seq<NodeView>) -> bool {
    forall|k: int|
        0 <= k < nodes.len() ==> (#[trigger] nodes[k]).children == if k + 1 < nodes.len() {
            seq![k + 1]
        } else {
            Seq::<int>::empty()
        }
}

/// Along a single path, descending `d` steps from node `i` reaches node
/// `i + d`.
pub proof fn lemma_navigator_single_path(nodes: Seq<NodeView>, i: int, d: nat)
    requires
        single_path(nodes),
        0 <= i,
        i + d < nodes.len(),
    ensures
        chain_ok(nodes, i, d),
        chain_node(nodes, i, d) == i + d,
    decreases d,
{
    if d > 0 {
        assert(nodes[i].children == seq![i + 1]);
        assert(nodes[i].children.last() == i + 1);
        lemma_navigator_single_path(nodes, i + 1, (d - 1) as nat);
    }
}

/// `n` enter-subtrace events applied in sequence to a started sink.
pub open spec fn iter_prepare(v: VmView, n: nat) -> VmView
    decreases n,
{
    if n == 0 {
        v
    } else {
        vm_prepare(iter_prepare(v, (n - 1) as nat))
    }
}

/// `n` sequential pushes from a started sink build a single path of
/// `n + 1` nodes with `n` open frames.
pub proof fn lemma_pushes_build_single_path(n: nat)
    ensures
        ({
            let v = iter_prepare(toplevel_view(), n);
            &&& single_path(v.nodes)
            &&& v.nodes.len() == n + 1
            &&& v.depth == n
        }),
    decreases n,
{
    if n == 0 {
        let v = iter_prepare(toplevel_view(), 0);
        assert(v.nodes == seq![empty_node()]);
        assert(v.nodes[0].children.len() == 0);
    } else {
        lemma_pushes_build_single_path((n - 1) as nat);
        let p = iter_prepare(toplevel_view(), (n - 1) as nat);
        let v = iter_prepare(toplevel_view(), n);
        lemma_navigator_single_path(p.nodes, 0, p.depth);
        let parent = chain_node(p.nodes, 0, p.depth);
        assert(parent == n - 1);
        assert(p.nodes[parent].children =~= Seq::<int>::empty());
        assert(v.nodes == p.nodes.update(
            parent,
            NodeView { children: p.nodes[parent].children.push(n as int), ..p.nodes[parent] },
        ).push(empty_node()));
        assert forall|k: int| 0 <= k < v.nodes.len() implies (#[trigger] v.nodes[k]).children == (
        if k + 1 < v.nodes.len() {
            seq![k + 1]
        } else {
            Seq::<int>::empty()
        }) by {
            if k == parent {
                assert(v.nodes[k].children =~= seq![k + 1]);
            } else if k == v.nodes.len() - 1 {
                assert(v.nodes[k].children =~= Seq::<int>::empty());
            } else {
                assert(v.nodes[k].children == p.nodes[k].children);
            }
        }
    }
}

/// Law: in the tree built by `n` sequential enter-subtrace pushes along a
/// single path with no pops, the navigator asked for depth `n` reaches
/// the node created by the `n`-th push, and depth 0 always returns the
/// root.
pub proof fn lemma_depth_navigator_reaches_nth_push(n: nat)
    ensures
        ({
            let v = iter_prepare(toplevel_view(), n);
            &&& chain_ok(v.nodes, 0, n)
            &&& chain_node(v.nodes, 0, n) == n
            &&& chain_node(v.nodes, 0, 0) == 0
        }),
{
    lemma_pushes_build_single_path(n);
    let v = iter_prepare(toplevel_view(), n);
    lemma_navigator_single_path(v.nodes, 0, n);
}

} // verus!

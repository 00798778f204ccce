//! The graph backend: qubits are nodes of an immutable dependency graph.
//!
//! Applying a gate appends one shared gate record to the backend's arena
//! and returns fresh qubit handles that name that record by its position;
//! the position is the record's identity, which is how inspection later
//! recognizes the two outputs of a two-qubit gate as one node. Inspection
//! flattens a qubit's history into public `GraphPublicGraph` nodes.

use std::rc::Rc;
use vstd::prelude::*;

use crate::api::{
    GateModel, NodeModel, QBackend, QBasis, QGate, QInspectable, QMultipleInspectable,
    QPublicGraph, Qubit,
};

verus! {

/// Spec view of one gate-output handle: which output slot of which gate
/// record (by arena position) the handle stands for.
pub struct GateOutputView {
    pub index: u32,
    pub node: nat,
}

/// Spec view of a qubit of the graph backend.
pub enum QubitView {
    Basis(QBasis),
    Gate(GateOutputView),
}

/// Spec shape of one gate record in the arena: a gate name and the
/// views of the qubits it consumed, in order.
#[verifier::ext_equal]
pub struct GateNodeView {
    pub name: Seq<char>,
    pub inputs: Seq<QubitView>,
}

/// The graph backend value: an append-only arena of gate records. One
/// `Graph` records the history of one circuit; qubit handles built against
/// it name records by position.
#[derive(Debug)]
pub struct Graph {
    nodes: Vec<GateNode>,
}

impl QBackend for Graph {

}

/// One gate record, as stored in the arena.
#[derive(Debug)]
enum GateNode {
    Hadamard(GraphHadamard),
    Cnot(GraphCNOT),
    Cz(GraphCZ),
}

/// A shared gate-output handle: an output slot together with the arena
/// position of its gate record. The contents are not publicly
/// accessible, so a well-formed handle can only come from a gate
/// application.
#[derive(Debug)]
pub struct GraphGateOutput {
    index: u32,
    node: usize,
}

/// A qubit of the graph backend: an initial basis value, or one output of
/// a gate application.
#[derive(Debug)]
pub enum GraphQubit {
    Basis(QBasis),
    Gate(GraphGateOutput),
}

/// The Hadamard gate: one input qubit, one output qubit. The record keeps
/// the consumed input so inspection can recurse into it.
#[derive(Debug)]
pub struct GraphHadamard {
    input: GraphQubit,
}

/// The controlled-NOT gate: two input qubits (control, target), two output
/// qubits at slots 0 and 1 sharing one record.
#[derive(Debug)]
pub struct GraphCNOT {
    input: (GraphQubit, GraphQubit),
}

/// The controlled-Z gate: structurally identical to CNOT, distinguished
/// only by its name in the public graph.
#[derive(Debug)]
pub struct GraphCZ {
    input: (GraphQubit, GraphQubit),
}

/// The public, read-only representation of inspected circuit history.
/// `Gate` is the shared record of one application; `GateOutput` is one
/// output slot's handle on such a record; `Basis` is an initial qubit.
/// When several outputs of one application are inspected together, they
/// reference one shared `Gate` allocation rather than copies.
#[derive(Debug, PartialEq)]
pub enum GraphPublicGraph {
    Gate { gate_name: String, input: Vec<Rc<GraphPublicGraph>> },
    GateOutput { index: u32, gate: Rc<GraphPublicGraph> },
    Basis(QBasis),
}

impl View for GraphGateOutput {
    type V = GateOutputView;

    closed spec fn view(&self) -> GateOutputView {
        GateOutputView { index: self.index, node: self.node as nat }
    }
}

impl View for GraphQubit {
    type V = QubitView;

    open spec fn view(&self) -> QubitView {
        match self {
            GraphQubit::Basis(b) => QubitView::Basis(*b),
            GraphQubit::Gate(o) => QubitView::Gate(o@),
        }
    }
}

/// The view of one stored gate record.
spec fn gate_node_view(n: GateNode) -> GateNodeView {
    match n {
        GateNode::Hadamard(h) => GateNodeView { name: "Hadamard"@, inputs: seq![h.input@] },
        GateNode::Cnot(c) => GateNodeView {
            name: "CNOT"@,
            inputs: seq![c.input.0@, c.input.1@],
        },
        GateNode::Cz(c) => GateNodeView { name: "CZ"@, inputs: seq![c.input.0@, c.input.1@] },
    }
}

impl View for Graph {
    type V = Seq<GateNodeView>;

    closed spec fn view(&self) -> Seq<GateNodeView> {
        self.nodes@.map_values(|n: GateNode| gate_node_view(n))
    }
}

/// A qubit view only references gate records strictly below `bound`.
pub open spec fn qubit_refs_below(q: QubitView, bound: nat) -> bool {
    match q {
        QubitView::Basis(_) => true,
        QubitView::Gate(o) => o.node < bound,
    }
}

/// The record at position `i` only consumes qubits built from records
/// strictly below `i`.
pub open spec fn node_wf(n: GateNodeView, i: nat) -> bool {
    forall|j: int| 0 <= j < n.inputs.len() ==> qubit_refs_below(#[trigger] n.inputs[j], i)
}

/// The arena is acyclic: every record only reaches strictly earlier ones.
pub open spec fn graph_wf(nodes: Seq<GateNodeView>) -> bool {
    forall|i: int| 0 <= i < nodes.len() ==> node_wf(#[trigger] nodes[i], i as nat)
}

/// Rank used to justify that inspection terminates: a basis qubit is
/// immediate, a gate output is one step above its record.
pub open spec fn qubit_rank(q: QubitView) -> nat {
    match q {
        QubitView::Basis(_) => 0,
        QubitView::Gate(o) => o.node + 1,
    }
}

/// The mathematical result of inspecting a qubit against an arena.
pub open spec fn qubit_model(nodes: Seq<GateNodeView>, q: QubitView) -> NodeModel
    decreases qubit_rank(q), 2int, 0int,
{
    match q {
        QubitView::Basis(b) => NodeModel::Basis(b),
        QubitView::Gate(o) => NodeModel::GateOutput {
            index: o.index,
            gate: node_model(nodes, o.node),
        },
    }
}

/// The mathematical gate record at position `n`: its name together with
/// the inspected models of its inputs. Out-of-range positions, which no
/// well-formed handle names, map to an empty record.
pub open spec fn node_model(nodes: Seq<GateNodeView>, n: nat) -> GateModel
    decreases n + 1, 1int, 0int,
{
    if n < nodes.len() {
        GateModel {
            name: nodes[n as int].name,
            inputs: inputs_model(nodes, n, nodes[n as int].inputs, nodes[n as int].inputs.len() as int),
        }
    } else {
        GateModel { name: Seq::empty(), inputs: Seq::empty() }
    }
}

/// Models of the first `k` inputs of the record at position `n`. Inputs
/// that would not respect the arena's order, which a well-formed arena
/// never stores, map to a basis leaf.
pub open spec fn inputs_model(nodes: Seq<GateNodeView>, n: nat, inputs: Seq<QubitView>, k: int) -> Seq<NodeModel>
    decreases n + 1, 0int, k,
{
    if 0 < k <= inputs.len() {
        inputs_model(nodes, n, inputs, k - 1).push(
            if qubit_rank(inputs[k - 1]) <= n {
                qubit_model(nodes, inputs[k - 1])
            } else {
                NodeModel::Basis(QBasis::Zero)
            },
        )
    } else {
        Seq::empty()
    }
}

/// The mathematical value of a public graph node.
pub open spec fn public_model(p: GraphPublicGraph) -> NodeModel
    decreases p, 1int, 0int,
{
    match p {
        GraphPublicGraph::Basis(b) => NodeModel::Basis(b),
        GraphPublicGraph::Gate { .. } => NodeModel::Gate(public_gate_record(p)),
        GraphPublicGraph::GateOutput { index, gate } => NodeModel::GateOutput {
            index,
            gate: public_gate_record(*gate),
        },
    }
}

/// A public `Gate` node's record; on any other node,
/// which no gate-output handle points at, an empty record.
pub open spec fn public_gate_record(p: GraphPublicGraph) -> GateModel
    decreases p, 0int, 0int,
{
    match p {
        GraphPublicGraph::Gate { gate_name, input } => GateModel {
            name: gate_name@,
            inputs: public_inputs(input, input@.len() as int),
        },
        _ => GateModel { name: Seq::empty(), inputs: Seq::empty() },
    }
}

/// Models of the first `k` inspected inputs held by a public `Gate` node.
pub open spec fn public_inputs(input: Vec<Rc<GraphPublicGraph>>, k: int) -> Seq<NodeModel>
    decreases input, 0int, k,
    via public_inputs_dec
{
    if 0 < k <= input@.len() {
        public_inputs(input, k - 1).push(public_model(*input@[k - 1]))
    } else {
        Seq::empty()
    }
}

#[via_fn]
proof fn public_inputs_dec(input: Vec<Rc<GraphPublicGraph>>, k: int) {
    broadcast use vstd::std_specs::vec::axiom_vec_decreases_to_view;
    broadcast use vstd::seq::axiom_seq_index_decreases;

    if 0 < k <= input@.len() {
        assert(decreases_to!(input => input@));
        assert(decreases_to!(input@ => input@[k - 1]));
    }
}

impl Graph {
    /// A fresh, empty circuit: no gate has been applied yet.
    pub fn new() -> (g: Graph)
        ensures
            g@ == Seq::<GateNodeView>::empty(),
            graph_wf(g@),
    {
        let g = Graph { nodes: Vec::new() };
        proof {
            assert(g@ =~= Seq::<GateNodeView>::empty());
        }
        g
    }
}

/// Create an initial, un-gated qubit carrying the given basis value.
pub fn init_graph_qubit(b: QBasis) -> (q: GraphQubit)
    ensures
        q@ == QubitView::Basis(b),
{
    GraphQubit::Basis(b)
}

/// Relies on std's `Rc::clone`: the returned handle refers to the same
/// allocation as the argument and carries the same value.
#[verifier::external_body]
fn rc_dup(p: &Rc<GraphPublicGraph>) -> (r: Rc<GraphPublicGraph>)
    ensures
        r == *p,
{
    Rc::clone(p)
}

/// The conversion table of one traversal: position `i` is either empty
/// or holds the one public node of record `i`.
pub open spec fn memo_wf(nodes: Seq<GateNodeView>, memo: Seq<Option<Rc<GraphPublicGraph>>>) -> bool {
    forall|i: int|
        0 <= i < memo.len() ==> ((#[trigger] memo[i]) matches Some(rc) ==> {
            &&& public_gate_record(*rc) == node_model(nodes, i as nat)
            &&& (*rc) matches GraphPublicGraph::Gate { .. }
        })
}

/// A fresh conversion table with one empty slot per gate record.
fn new_memo(g: &Graph) -> (m: Vec<Option<Rc<GraphPublicGraph>>>)
    ensures
        m@.len() == g@.len(),
        memo_wf(g@, m@),
{
    let len = g.nodes.len();
    let mut m: Vec<Option<Rc<GraphPublicGraph>>> = Vec::new();
    while m.len() < len
        invariant
            m@.len() <= len,
            forall|i: int| 0 <= i < m@.len() ==> (#[trigger] m@[i]) is None,
        decreases len - m@.len(),
    {
        m.push(None);
    }
    m
}

/// Build the public `Gate` node for the record at arena position `n` by
/// delegating to that record's own inspection. A record that was already
/// converted during this traversal is not rebuilt: the one existing
/// conversion is handed out again.
fn inspect_node(
    g: &Graph,
    n: usize,
    memo: &mut Vec<Option<Rc<GraphPublicGraph>>>,
) -> (r: Rc<GraphPublicGraph>)
    requires
        graph_wf(g@),
        n < g@.len(),
        old(memo)@.len() == g@.len(),
        memo_wf(g@, old(memo)@),
    ensures
        final(memo)@.len() == g@.len(),
        memo_wf(g@, final(memo)@),
        public_gate_record(*r) == node_model(g@, n as nat),
        (*r) matches GraphPublicGraph::Gate { .. },
    decreases n, 2int,
{
    if let Some(rc) = &memo[n] {
        return rc_dup(rc);
    }
    proof {
        assert(g@[n as int] == gate_node_view(g.nodes@[n as int]));
    }
    let r = match &g.nodes[n] {
        GateNode::Hadamard(h) => {
            proof {
                assert(g.nodes@[n as int] == GateNode::Hadamard(*h));
            }
            h.inspect(g, Ghost(n as nat), memo)
        },
        GateNode::Cnot(c) => {
            proof {
                assert(g.nodes@[n as int] == GateNode::Cnot(*c));
            }
            c.inspect(g, Ghost(n as nat), memo)
        },
        GateNode::Cz(c) => {
            proof {
                assert(g.nodes@[n as int] == GateNode::Cz(*c));
            }
            c.inspect(g, Ghost(n as nat), memo)
        },
    };
    memo.set(n, Some(rc_dup(&r)));
    r
}

impl GraphHadamard {
    /// Inspection of this Hadamard record, stored at arena position `n`:
    /// inspect the one retained input and wrap it under the name
    /// "Hadamard".
    fn inspect(
        &self,
        g: &Graph,
        Ghost(n): Ghost<nat>,
        memo: &mut Vec<Option<Rc<GraphPublicGraph>>>,
    ) -> (r: Rc<GraphPublicGraph>)
        requires
            graph_wf(g@),
            n < g@.len(),
            g@[n as int] == (GateNodeView { name: "Hadamard"@, inputs: seq![self.input@] }),
            old(memo)@.len() == g@.len(),
            memo_wf(g@, old(memo)@),
        ensures
            final(memo)@.len() == g@.len(),
            memo_wf(g@, final(memo)@),
            public_gate_record(*r) == node_model(g@, n),
            (*r) matches GraphPublicGraph::Gate { .. },
        decreases n, 1int,
    {
        proof {
            assert(node_wf(g@[n as int], n));
            assert(g@[n as int].inputs[0] == self.input@);
            assert(qubit_refs_below(self.input@, n));
        }
        let c0 = inspect_input(g, &self.input, Ghost(n), memo);
        let mut input: Vec<Rc<GraphPublicGraph>> = Vec::new();
        input.push(c0);
        let r = Rc::new(GraphPublicGraph::Gate { gate_name: String::from_str("Hadamard"), input });
        proof {
            reveal_with_fuel(public_inputs, 3);
            reveal_with_fuel(inputs_model, 3);
            assert(public_gate_record(*r) =~~= node_model(g@, n));
        }
        r
    }
}

impl GraphCNOT {
    /// Inspection of this CNOT record, stored at arena position `n`:
    /// inspect the retained pair in order, control first, and wrap the
    /// results under the name "CNOT".
    fn inspect(
        &self,
        g: &Graph,
        Ghost(n): Ghost<nat>,
        memo: &mut Vec<Option<Rc<GraphPublicGraph>>>,
    ) -> (r: Rc<GraphPublicGraph>)
        requires
            graph_wf(g@),
            n < g@.len(),
            g@[n as int] == (GateNodeView {
                name: "CNOT"@,
                inputs: seq![self.input.0@, self.input.1@],
            }),
            old(memo)@.len() == g@.len(),
            memo_wf(g@, old(memo)@),
        ensures
            final(memo)@.len() == g@.len(),
            memo_wf(g@, final(memo)@),
            public_gate_record(*r) == node_model(g@, n),
            (*r) matches GraphPublicGraph::Gate { .. },
        decreases n, 1int,
    {
        proof {
            assert(node_wf(g@[n as int], n));
            assert(g@[n as int].inputs[0] == self.input.0@);
            assert(g@[n as int].inputs[1] == self.input.1@);
        }
        let c0 = inspect_input(g, &self.input.0, Ghost(n), memo);
        let c1 = inspect_input(g, &self.input.1, Ghost(n), memo);
        let mut input: Vec<Rc<GraphPublicGraph>> = Vec::new();
        input.push(c0);
        input.push(c1);
        proof {
            reveal_with_fuel(public_inputs, 3);
            reveal_with_fuel(inputs_model, 3);
            let gi = g@[n as int].inputs;
            assert(input@[0] == c0);
            assert(input@[1] == c1);
            assert(public_inputs(input, 2) =~= seq![public_model(*c0), public_model(*c1)]);
            assert(inputs_model(g@, n, gi, 2) =~= seq![
                qubit_model(g@, gi[0]),
                qubit_model(g@, gi[1]),
            ]);
        }
        let r = Rc::new(GraphPublicGraph::Gate { gate_name: String::from_str("CNOT"), input });
        proof {
            assert(public_gate_record(*r) =~~= node_model(g@, n));
        }
        r
    }
}

impl GraphCZ {
    /// Inspection of this CZ record, stored at arena position `n`: the
    /// same construction as for CNOT, under the name "CZ".
    fn inspect(
        &self,
        g: &Graph,
        Ghost(n): Ghost<nat>,
        memo: &mut Vec<Option<Rc<GraphPublicGraph>>>,
    ) -> (r: Rc<GraphPublicGraph>)
        requires
            graph_wf(g@),
            n < g@.len(),
            g@[n as int] == (GateNodeView {
                name: "CZ"@,
                inputs: seq![self.input.0@, self.input.1@],
            }),
            old(memo)@.len() == g@.len(),
            memo_wf(g@, old(memo)@),
        ensures
            final(memo)@.len() == g@.len(),
            memo_wf(g@, final(memo)@),
            public_gate_record(*r) == node_model(g@, n),
            (*r) matches GraphPublicGraph::Gate { .. },
        decreases n, 1int,
    {
        proof {
            assert(node_wf(g@[n as int], n));
            assert(g@[n as int].inputs[0] == self.input.0@);
            assert(g@[n as int].inputs[1] == self.input.1@);
        }
        let c0 = inspect_input(g, &self.input.0, Ghost(n), memo);
        let c1 = inspect_input(g, &self.input.1, Ghost(n), memo);
        let mut input: Vec<Rc<GraphPublicGraph>> = Vec::new();
        input.push(c0);
        input.push(c1);
        proof {
            reveal_with_fuel(public_inputs, 3);
            reveal_with_fuel(inputs_model, 3);
            let gi = g@[n as int].inputs;
            assert(input@[0] == c0);
            assert(input@[1] == c1);
            assert(public_inputs(input, 2) =~= seq![public_model(*c0), public_model(*c1)]);
            assert(inputs_model(g@, n, gi, 2) =~= seq![
                qubit_model(g@, gi[0]),
                qubit_model(g@, gi[1]),
            ]);
        }
        let r = Rc::new(GraphPublicGraph::Gate { gate_name: String::from_str("CZ"), input });
        proof {
            assert(public_gate_record(*r) =~~= node_model(g@, n));
        }
        r
    }
}

/// Inspect one retained input of a gate record. `bound` is the position of
/// the record whose input this is; the arena's order guarantees the input
/// only reaches records below it, which is what makes the recursion
/// terminate.
fn inspect_input(
    g: &Graph,
    q: &GraphQubit,
    Ghost(bound): Ghost<nat>,
    memo: &mut Vec<Option<Rc<GraphPublicGraph>>>,
) -> (r: Rc<GraphPublicGraph>)
    requires
        graph_wf(g@),
        bound <= g@.len(),
        qubit_refs_below(q@, bound),
        old(memo)@.len() == g@.len(),
        memo_wf(g@, old(memo)@),
    ensures
        final(memo)@.len() == g@.len(),
        memo_wf(g@, final(memo)@),
        public_model(*r) == qubit_model(g@, q@),
    decreases bound, 0int,
{
    match q {
        GraphQubit::Basis(b) => Rc::new(GraphPublicGraph::Basis(*b)),
        GraphQubit::Gate(o) => {
            let gate = inspect_node(g, o.node, memo);
            Rc::new(GraphPublicGraph::GateOutput { index: o.index, gate })
        },
    }
}

impl QInspectable<Graph> for GraphQubit {
    type Public = GraphPublicGraph;

    open spec fn valid(&self, backend: &Graph) -> bool {
        graph_wf(backend@) && qubit_refs_below(self@, backend@.len())
    }

    open spec fn inspect_model(&self, backend: &Graph) -> NodeModel {
        qubit_model(backend@, self@)
    }

    /// Flatten this qubit's history: a basis qubit is a terminal leaf; a
    /// gate output wraps its shared record's public node, tagged with the
    /// output slot this qubit represents.
    fn inspect(&self, backend: &Graph) -> (r: GraphPublicGraph) {
        match self {
            GraphQubit::Basis(b) => GraphPublicGraph::Basis(*b),
            GraphQubit::Gate(o) => {
                let mut memo = new_memo(backend);
                GraphPublicGraph::GateOutput {
                    index: o.index,
                    gate: inspect_node(backend, o.node, &mut memo),
                }
            },
        }
    }
}

impl Qubit<Graph> for GraphQubit {

}

impl QMultipleInspectable<Graph> for GraphQubit {
    /// Inspect several qubits in one traversal. Each result equals what
    /// single inspection of that qubit would produce, but a gate record
    /// reachable from several of the qubits is converted once and the one
    /// conversion is shared between the results.
    fn inspect_vec(backend: &Graph, qs: &Vec<GraphQubit>) -> (r: Vec<GraphPublicGraph>) {
        let mut memo = new_memo(backend);
        let mut r: Vec<GraphPublicGraph> = Vec::new();
        let mut idx: usize = 0;
        while idx < qs.len()
            invariant
                idx <= qs@.len(),
                r@.len() == idx,
                memo@.len() == backend@.len(),
                memo_wf(backend@, memo@),
                forall|i: int| 0 <= i < qs@.len() ==> (#[trigger] qs@[i]).valid(backend),
                forall|i: int|
                    0 <= i < idx ==> (#[trigger] r@[i]).model() == qs@[i].inspect_model(backend),
            decreases qs@.len() - idx,
        {
            let q = &qs[idx];
            proof {
                assert(qs@[idx as int].valid(backend));
            }
            let node = match q {
                GraphQubit::Basis(b) => GraphPublicGraph::Basis(*b),
                GraphQubit::Gate(o) => GraphPublicGraph::GateOutput {
                    index: o.index,
                    gate: inspect_node(backend, o.node, &mut memo),
                },
            };
            r.push(node);
            idx = idx + 1;
        }
        r
    }
}

impl QGate<Graph> for GraphHadamard {
    type Input = GraphQubit;

    type Output = GraphQubit;

    open spec fn apply_requires(backend: Graph, input: GraphQubit) -> bool {
        graph_wf(backend@) && qubit_refs_below(input@, backend@.len())
    }

    open spec fn apply_ensures(pre: Graph, post: Graph, input: GraphQubit, output: GraphQubit) -> bool {
        &&& post@ == pre@.push(GateNodeView { name: "Hadamard"@, inputs: seq![input@] })
        &&& output@ == QubitView::Gate(GateOutputView { index: 0, node: pre@.len() })
        &&& graph_wf(post@)
    }

    /// Apply Hadamard: append one record retaining the consumed input and
    /// return that record's single output qubit, at slot 0.
    fn apply(backend: &mut Graph, input: GraphQubit) -> (output: GraphQubit) {
        let n = backend.nodes.len();
        let ghost iv = input@;
        backend.nodes.push(GateNode::Hadamard(GraphHadamard { input }));
        proof {
            let node = GateNodeView { name: "Hadamard"@, inputs: seq![iv] };
            assert(backend@ =~= old(backend)@.push(node));
            assert forall|i: int| 0 <= i < backend@.len() implies node_wf(
                #[trigger] backend@[i],
                i as nat,
            ) by {
                if i < n {
                    assert(backend@[i] == old(backend)@[i]);
                } else {
                    assert(backend@[i] == node);
                    assert(node.inputs[0] == iv);
                }
            }
        }
        GraphQubit::Gate(GraphGateOutput { index: 0, node: n })
    }
}

impl QGate<Graph> for GraphCNOT {
    type Input = (GraphQubit, GraphQubit);

    type Output = (GraphQubit, GraphQubit);

    open spec fn apply_requires(backend: Graph, input: (GraphQubit, GraphQubit)) -> bool {
        &&& graph_wf(backend@)
        &&& qubit_refs_below(input.0@, backend@.len())
        &&& qubit_refs_below(input.1@, backend@.len())
    }

    open spec fn apply_ensures(
        pre: Graph,
        post: Graph,
        input: (GraphQubit, GraphQubit),
        output: (GraphQubit, GraphQubit),
    ) -> bool {
        &&& post@ == pre@.push(GateNodeView { name: "CNOT"@, inputs: seq![input.0@, input.1@] })
        &&& output.0@ == QubitView::Gate(GateOutputView { index: 0, node: pre@.len() })
        &&& output.1@ == QubitView::Gate(GateOutputView { index: 1, node: pre@.len() })
        &&& graph_wf(post@)
    }

    /// Apply CNOT to (control, target): append one shared record retaining
    /// the consumed pair, and return two outputs that both name that
    /// record, the control side at slot 0 and the target side at slot 1.
    fn apply(backend: &mut Graph, input: (GraphQubit, GraphQubit)) -> (output: (
        GraphQubit,
        GraphQubit,
    )) {
        let n = backend.nodes.len();
        let ghost iv0 = input.0@;
        let ghost iv1 = input.1@;
        backend.nodes.push(GateNode::Cnot(GraphCNOT { input }));
        proof {
            let node = GateNodeView { name: "CNOT"@, inputs: seq![iv0, iv1] };
            assert(backend@ =~= old(backend)@.push(node));
            assert forall|i: int| 0 <= i < backend@.len() implies node_wf(
                #[trigger] backend@[i],
                i as nat,
            ) by {
                if i < n {
                    assert(backend@[i] == old(backend)@[i]);
                } else {
                    assert(backend@[i] == node);
                    assert(node.inputs[0] == iv0);
                    assert(node.inputs[1] == iv1);
                }
            }
        }
        (
            GraphQubit::Gate(GraphGateOutput { index: 0, node: n }),
            GraphQubit::Gate(GraphGateOutput { index: 1, node: n }),
        )
    }
}

impl QGate<Graph> for GraphCZ {
    type Input = (GraphQubit, GraphQubit);

    type Output = (GraphQubit, GraphQubit);

    open spec fn apply_requires(backend: Graph, input: (GraphQubit, GraphQubit)) -> bool {
        &&& graph_wf(backend@)
        &&& qubit_refs_below(input.0@, backend@.len())
        &&& qubit_refs_below(input.1@, backend@.len())
    }

    open spec fn apply_ensures(
        pre: Graph,
        post: Graph,
        input: (GraphQubit, GraphQubit),
        output: (GraphQubit, GraphQubit),
    ) -> bool {
        &&& post@ == pre@.push(GateNodeView { name: "CZ"@, inputs: seq![input.0@, input.1@] })
        &&& output.0@ == QubitView::Gate(GateOutputView { index: 0, node: pre@.len() })
        &&& output.1@ == QubitView::Gate(GateOutputView { index: 1, node: pre@.len() })
        &&& graph_wf(post@)
    }

    /// Apply CZ: the same shared-record construction as CNOT; only the
    /// recorded name differs, since this backend computes no semantics.
    fn apply(backend: &mut Graph, input: (GraphQubit, GraphQubit)) -> (output: (
        GraphQubit,
        GraphQubit,
    )) {
        let n = backend.nodes.len();
        let ghost iv0 = input.0@;
        let ghost iv1 = input.1@;
        backend.nodes.push(GateNode::Cz(GraphCZ { input }));
        proof {
            let node = GateNodeView { name: "CZ"@, inputs: seq![iv0, iv1] };
            assert(backend@ =~= old(backend)@.push(node));
            assert forall|i: int| 0 <= i < backend@.len() implies node_wf(
                #[trigger] backend@[i],
                i as nat,
            ) by {
                if i < n {
                    assert(backend@[i] == old(backend)@[i]);
                } else {
                    assert(backend@[i] == node);
                    assert(node.inputs[0] == iv0);
                    assert(node.inputs[1] == iv1);
                }
            }
        }
        (
            GraphQubit::Gate(GraphGateOutput { index: 0, node: n }),
            GraphQubit::Gate(GraphGateOutput { index: 1, node: n }),
        )
    }
}

impl QPublicGraph<Graph> for GraphPublicGraph {
    open spec fn model(&self) -> NodeModel {
        public_model(*self)
    }

    open spec fn measure_model(&self) -> Option<QBasis> {
        None
    }

    /// The graph backend records shape only; it cannot answer a
    /// measurement question, so `measure` reports that it is unsupported.
    fn measure(&self) -> (r: Option<QBasis>) {
        None
    }
}

} // verus!

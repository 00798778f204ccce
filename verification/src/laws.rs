//! Proved laws of the graph backend: what inspection reports for basis
//! qubits and for the outputs of each gate, that the two outputs of a
//! two-qubit gate share one record, and that later gate applications never
//! change what an existing qubit inspects to.

use vstd::prelude::*;

use crate::api::{NodeModel, QBasis, QGate, QInspectable};
use crate::graph::{
    graph_wf, inputs_model, node_model, node_wf, qubit_model, qubit_rank, qubit_refs_below,
    GateNodeView, Graph, GraphCNOT, GraphCZ, GraphHadamard, GraphQubit, QubitView,
};

verus! {

/// Basis round-trip: a qubit holding basis value `b` inspects to exactly
/// the `Basis(b)` leaf, whatever the backend holds.
pub proof fn lemma_basis_roundtrip(backend: Graph, q: GraphQubit, b: QBasis)
    requires
        q@ == QubitView::Basis(b),
    ensures
        q.inspect_model(&backend) == NodeModel::Basis(b),
{
}

proof fn lemma_qubit_model_frame(pre: Seq<GateNodeView>, post: Seq<GateNodeView>, q: QubitView)
    requires
        graph_wf(pre),
        pre.len() <= post.len(),
        forall|i: int| 0 <= i < pre.len() ==> post[i] == pre[i],
        qubit_refs_below(q, pre.len()),
    ensures
        qubit_model(post, q) == qubit_model(pre, q),
    decreases qubit_rank(q), 2int, 0int,
{
    match q {
        QubitView::Basis(_) => {
        },
        QubitView::Gate(o) => {
            lemma_node_model_frame(pre, post, o.node);
        },
    }
}

proof fn lemma_node_model_frame(pre: Seq<GateNodeView>, post: Seq<GateNodeView>, n: nat)
    requires
        graph_wf(pre),
        n < pre.len(),
        pre.len() <= post.len(),
        forall|i: int| 0 <= i < pre.len() ==> post[i] == pre[i],
    ensures
        node_model(post, n) == node_model(pre, n),
    decreases n + 1, 1int, 0int,
{
    assert(post[n as int] == pre[n as int]);
    assert(node_wf(pre[n as int], n));
    lemma_inputs_model_frame(pre, post, n, pre[n as int].inputs, pre[n as int].inputs.len() as int);
}

proof fn lemma_inputs_model_frame(
    pre: Seq<GateNodeView>,
    post: Seq<GateNodeView>,
    n: nat,
    inputs: Seq<QubitView>,
    k: int,
)
    requires
        graph_wf(pre),
        n < pre.len(),
        pre.len() <= post.len(),
        forall|i: int| 0 <= i < pre.len() ==> post[i] == pre[i],
        forall|j: int| 0 <= j < inputs.len() ==> qubit_refs_below(#[trigger] inputs[j], n),
    ensures
        inputs_model(post, n, inputs, k) == inputs_model(pre, n, inputs, k),
    decreases n + 1, 0int, k,
{
    if 0 < k <= inputs.len() {
        lemma_inputs_model_frame(pre, post, n, inputs, k - 1);
        if qubit_rank(inputs[k - 1]) <= n {
            lemma_qubit_model_frame(pre, post, inputs[k - 1]);
        }
    }
}

/// Inspection is stable under later gate applications: extending the
/// backend with further records never changes what an existing qubit
/// inspects to.
pub proof fn lemma_inspection_frame(pre: Graph, post: Graph, q: GraphQubit)
    requires
        graph_wf(pre@),
        pre@.len() <= post@.len(),
        forall|i: int| 0 <= i < pre@.len() ==> post@[i] == pre@[i],
        qubit_refs_below(q@, pre@.len()),
    ensures
        q.inspect_model(&post) == q.inspect_model(&pre),
{
    lemma_qubit_model_frame(pre@, post@, q@);
}

/// Output indexing for Hadamard: the returned qubit is always output slot
/// 0 of the new record, whose name is "Hadamard" and whose one
/// reconstructed input is what the consumed qubit inspected to before the
/// application.
pub proof fn lemma_hadamard_apply(pre: Graph, post: Graph, input: GraphQubit, output: GraphQubit)
    requires
        GraphHadamard::apply_requires(pre, input),
        GraphHadamard::apply_ensures(pre, post, input, output),
    ensures
        output.inspect_model(&post) == (NodeModel::GateOutput {
            index: 0u32,
            gate: node_model(post@, pre@.len()),
        }),
        node_model(post@, pre@.len()).name == "Hadamard"@,
        node_model(post@, pre@.len()).inputs == seq![input.inspect_model(&pre)],
{
    reveal_with_fuel(inputs_model, 3);
    let n = pre@.len();
    let node = post@[n as int];
    assert(node.inputs[0] == input@);
    lemma_qubit_model_frame(pre@, post@, input@);
    assert(inputs_model(post@, n, node.inputs, 1) =~= seq![qubit_model(pre@, input@)]);
}

/// Shared-node identity and output indexing for CNOT: the two returned
/// qubits are output slots 0 (control side) and 1 (target side) of one
/// shared record, whatever was applied before; the record's name is
/// "CNOT" and its reconstructed inputs are the prior inspections of the
/// consumed pair, control first.
pub proof fn lemma_cnot_apply(
    pre: Graph,
    post: Graph,
    input: (GraphQubit, GraphQubit),
    output: (GraphQubit, GraphQubit),
)
    requires
        GraphCNOT::apply_requires(pre, input),
        GraphCNOT::apply_ensures(pre, post, input, output),
    ensures
        output.0.inspect_model(&post) == (NodeModel::GateOutput {
            index: 0u32,
            gate: node_model(post@, pre@.len()),
        }),
        output.1.inspect_model(&post) == (NodeModel::GateOutput {
            index: 1u32,
            gate: node_model(post@, pre@.len()),
        }),
        node_model(post@, pre@.len()).name == "CNOT"@,
        node_model(post@, pre@.len()).inputs == seq![
            input.0.inspect_model(&pre),
            input.1.inspect_model(&pre),
        ],
{
    reveal_with_fuel(inputs_model, 3);
    let n = pre@.len();
    let node = post@[n as int];
    assert(node.inputs[0] == input.0@);
    assert(node.inputs[1] == input.1@);
    lemma_qubit_model_frame(pre@, post@, input.0@);
    lemma_qubit_model_frame(pre@, post@, input.1@);
    assert(inputs_model(post@, n, node.inputs, 2) =~= seq![
        qubit_model(pre@, input.0@),
        qubit_model(pre@, input.1@),
    ]);
}

/// Shared-node identity and output indexing for CZ, exactly as for CNOT:
/// one shared record, output slots 0 and 1, name "CZ", reconstructed
/// inputs in application order.
pub proof fn lemma_cz_apply(
    pre: Graph,
    post: Graph,
    input: (GraphQubit, GraphQubit),
    output: (GraphQubit, GraphQubit),
)
    requires
        GraphCZ::apply_requires(pre, input),
        GraphCZ::apply_ensures(pre, post, input, output),
    ensures
        output.0.inspect_model(&post) == (NodeModel::GateOutput {
            index: 0u32,
            gate: node_model(post@, pre@.len()),
        }),
        output.1.inspect_model(&post) == (NodeModel::GateOutput {
            index: 1u32,
            gate: node_model(post@, pre@.len()),
        }),
        node_model(post@, pre@.len()).name == "CZ"@,
        node_model(post@, pre@.len()).inputs == seq![
            input.0.inspect_model(&pre),
            input.1.inspect_model(&pre),
        ],
{
    reveal_with_fuel(inputs_model, 3);
    let n = pre@.len();
    let node = post@[n as int];
    assert(node.inputs[0] == input.0@);
    assert(node.inputs[1] == input.1@);
    lemma_qubit_model_frame(pre@, post@, input.0@);
    lemma_qubit_model_frame(pre@, post@, input.1@);
    assert(inputs_model(post@, n, node.inputs, 2) =~= seq![
        qubit_model(pre@, input.0@),
        qubit_model(pre@, input.1@),
    ]);
}

} // verus!

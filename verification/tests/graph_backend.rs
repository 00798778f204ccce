//! Behavioural tests of the graph backend: basis round-trips, output
//! indexing, shared-record identity, deduplication under fan-out, and a
//! full teleportation-style circuit.

use std::rc::Rc;

use qgraph::api::{QBasis, QGate, QInspectable, QMultipleInspectable, QPublicGraph};
use qgraph::graph::{
    init_graph_qubit, Graph, GraphCNOT, GraphCZ, GraphHadamard, GraphPublicGraph, GraphQubit,
};

/// The name and inspected inputs of the record behind a `GateOutput` node.
fn gate_parts(p: &GraphPublicGraph) -> (u32, &Rc<GraphPublicGraph>) {
    match p {
        GraphPublicGraph::GateOutput { index, gate } => (*index, gate),
        _ => panic!("expected a gate output node"),
    }
}

fn gate_name(p: &GraphPublicGraph) -> &str {
    match p {
        GraphPublicGraph::Gate { gate_name, .. } => gate_name.as_str(),
        _ => panic!("expected a gate record node"),
    }
}

fn gate_inputs(p: &GraphPublicGraph) -> &Vec<Rc<GraphPublicGraph>> {
    match p {
        GraphPublicGraph::Gate { input, .. } => input,
        _ => panic!("expected a gate record node"),
    }
}

#[test]
fn basis_roundtrip_zero() {
    let g = Graph::new();
    let q = init_graph_qubit(QBasis::Zero);
    assert_eq!(q.inspect(&g), GraphPublicGraph::Basis(QBasis::Zero));
}

#[test]
fn basis_roundtrip_one() {
    let g = Graph::new();
    let q = init_graph_qubit(QBasis::One);
    assert_eq!(q.inspect(&g), GraphPublicGraph::Basis(QBasis::One));
}

#[test]
fn measure_is_unsupported_on_graph_backend() {
    let g = Graph::new();
    let q = init_graph_qubit(QBasis::Zero);
    let p = q.inspect(&g);
    assert_eq!(p.measure(), None);
}

#[test]
fn hadamard_output_is_slot_zero() {
    let mut g = Graph::new();
    let q = init_graph_qubit(QBasis::Zero);
    let q1 = GraphHadamard::apply(&mut g, q);
    let expected = GraphPublicGraph::GateOutput {
        index: 0,
        gate: Rc::new(GraphPublicGraph::Gate {
            gate_name: "Hadamard".to_string(),
            input: vec![Rc::new(GraphPublicGraph::Basis(QBasis::Zero))],
        }),
    };
    assert_eq!(q1.inspect(&g), expected);
}

#[test]
fn cnot_output_indexing_is_stable() {
    // The slots stay 0 and 1 however many earlier applications of the
    // same gate type the program holds.
    let mut g = Graph::new();
    let a = init_graph_qubit(QBasis::Zero);
    let b = init_graph_qubit(QBasis::One);
    let (x, y) = GraphCNOT::apply(&mut g, (a, b));
    let (ix, _) = gate_parts(&x.inspect(&g));
    let (iy, _) = gate_parts(&y.inspect(&g));
    assert_eq!(ix, 0);
    assert_eq!(iy, 1);
    let (x2, y2) = GraphCNOT::apply(&mut g, (x, y));
    let (ix2, _) = gate_parts(&x2.inspect(&g));
    let (iy2, _) = gate_parts(&y2.inspect(&g));
    assert_eq!(ix2, 0);
    assert_eq!(iy2, 1);
}

#[test]
fn cz_output_indexing_is_stable() {
    let mut g = Graph::new();
    let a = init_graph_qubit(QBasis::Zero);
    let b = init_graph_qubit(QBasis::Zero);
    let (x, y) = GraphCZ::apply(&mut g, (a, b));
    let px = x.inspect(&g);
    let py = y.inspect(&g);
    let (ix, gx) = gate_parts(&px);
    let (iy, gy) = gate_parts(&py);
    assert_eq!(ix, 0);
    assert_eq!(iy, 1);
    assert_eq!(gate_name(gx), "CZ");
    assert_eq!(gate_name(gy), "CZ");
}

#[test]
fn two_outputs_report_one_shared_record() {
    // Inspecting both outputs of one CNOT application reports the same
    // gate name and the same inputs: both `Gate` payloads of the two
    // inspections are structurally equal.
    let mut g = Graph::new();
    let a = init_graph_qubit(QBasis::Zero);
    let b = init_graph_qubit(QBasis::One);
    let (x, y) = GraphCNOT::apply(&mut g, (a, b));
    let px = x.inspect(&g);
    let py = y.inspect(&g);
    let (_, gx) = gate_parts(&px);
    let (_, gy) = gate_parts(&py);
    assert_eq!(**gx, **gy);
    assert_eq!(gate_name(gx), "CNOT");
    assert_eq!(
        gate_inputs(gx).as_slice(),
        &[
            Rc::new(GraphPublicGraph::Basis(QBasis::Zero)),
            Rc::new(GraphPublicGraph::Basis(QBasis::One)),
        ],
    );
}

#[test]
fn structurally_equal_applications_are_distinct_nodes() {
    // Two separate applications with identical shapes are different
    // nodes: their conversions are equal structurally but not shared.
    let mut g = Graph::new();
    let a = init_graph_qubit(QBasis::Zero);
    let b = init_graph_qubit(QBasis::Zero);
    let (x1, _y1) = GraphCNOT::apply(&mut g, (a, b));
    let c = init_graph_qubit(QBasis::Zero);
    let d = init_graph_qubit(QBasis::Zero);
    let (x2, _y2) = GraphCNOT::apply(&mut g, (c, d));
    let qs = vec![x1, x2];
    let ps = GraphQubit::inspect_vec(&g, &qs);
    let (_, g1) = gate_parts(&ps[0]);
    let (_, g2) = gate_parts(&ps[1]);
    assert_eq!(**g1, **g2);
    assert!(!Rc::ptr_eq(g1, g2));
}

#[test]
fn deduplication_under_fan_out() {
    // Fan a CNOT's two outputs into a second CNOT and inspect both final
    // qubits together: the shared records must come out as one shared
    // allocation each, not as copies, and each result must equal what
    // single inspection produces.
    let mut g = Graph::new();
    let q1 = init_graph_qubit(QBasis::Zero);
    let q2 = init_graph_qubit(QBasis::Zero);
    let q1h = GraphHadamard::apply(&mut g, q1);
    let (q1a, q2a) = GraphCNOT::apply(&mut g, (q1h, q2));
    let (q1b, q2b) = GraphCNOT::apply(&mut g, (q1a, q2a));

    let singles = [q1b.inspect(&g), q2b.inspect(&g)];
    let qs = vec![q1b, q2b];
    let ps = GraphQubit::inspect_vec(&g, &qs);
    assert_eq!(ps.len(), 2);
    assert_eq!(ps[0], singles[0]);
    assert_eq!(ps[1], singles[1]);

    // Both final qubits are outputs of the last CNOT: one record.
    let (i0, last0) = gate_parts(&ps[0]);
    let (i1, last1) = gate_parts(&ps[1]);
    assert_eq!((i0, i1), (0, 1));
    assert!(Rc::ptr_eq(last0, last1));

    // The middle CNOT, reached through both inputs of the last record,
    // was converted once and shared.
    let inputs = gate_inputs(last0);
    let (m0, middle0) = gate_parts(&inputs[0]);
    let (m1, middle1) = gate_parts(&inputs[1]);
    assert_eq!((m0, m1), (0, 1));
    assert_eq!(gate_name(middle0), "CNOT");
    assert!(Rc::ptr_eq(middle0, middle1));

    // And below it, the Hadamard and the two basis leaves.
    let middle_inputs = gate_inputs(middle0);
    let (hi, h) = gate_parts(&middle_inputs[0]);
    assert_eq!(hi, 0);
    assert_eq!(gate_name(h), "Hadamard");
    assert_eq!(
        *gate_inputs(h)[0],
        GraphPublicGraph::Basis(QBasis::Zero),
    );
    assert_eq!(*middle_inputs[1], GraphPublicGraph::Basis(QBasis::Zero));
}

#[test]
fn inspect_vec_on_no_qubits_is_empty() {
    let g = Graph::new();
    let qs: Vec<GraphQubit> = vec![];
    let ps = GraphQubit::inspect_vec(&g, &qs);
    assert!(ps.is_empty());
}

#[test]
fn teleportation_circuit_reproduces_gate_sequence() {
    // basis Zero,Zero,Zero; H on qubit 1; CNOT(1,2); CNOT(0,1); H on 0;
    // CNOT(1,2); CZ(0,2).
    let mut g = Graph::new();
    let q0_0 = init_graph_qubit(QBasis::Zero);
    let q1_0 = init_graph_qubit(QBasis::Zero);
    let q2_0 = init_graph_qubit(QBasis::Zero);

    let q1_1 = GraphHadamard::apply(&mut g, q1_0);
    let (q1_2, q2_2) = GraphCNOT::apply(&mut g, (q1_1, q2_0));
    let (q0_3, q1_3) = GraphCNOT::apply(&mut g, (q0_0, q1_2));
    let q0_4 = GraphHadamard::apply(&mut g, q0_3);
    let (q1_5, q2_5) = GraphCNOT::apply(&mut g, (q1_3, q2_2));
    let (q0_6, q2_6) = GraphCZ::apply(&mut g, (q0_4, q2_5));

    let qs = vec![q0_6, q1_5, q2_6];
    let ps = GraphQubit::inspect_vec(&g, &qs);
    assert_eq!(ps.len(), 3);

    // Qubit 0 ends on the CZ's first output; its first input traces
    // through Hadamard, then CNOT, then Basis(Zero).
    let (cz_slot, cz) = gate_parts(&ps[0]);
    assert_eq!(cz_slot, 0);
    assert_eq!(gate_name(cz), "CZ");
    let (h_slot, h) = gate_parts(&gate_inputs(cz)[0]);
    assert_eq!(h_slot, 0);
    assert_eq!(gate_name(h), "Hadamard");
    let (cnot_slot, cnot) = gate_parts(&gate_inputs(h)[0]);
    assert_eq!(cnot_slot, 0);
    assert_eq!(gate_name(cnot), "CNOT");
    assert_eq!(
        *gate_inputs(cnot)[0],
        GraphPublicGraph::Basis(QBasis::Zero),
    );

    // Qubit 1 ends on the measurement-phase CNOT's first output.
    let (q1_slot, q1_gate) = gate_parts(&ps[1]);
    assert_eq!(q1_slot, 0);
    assert_eq!(gate_name(q1_gate), "CNOT");

    // Qubit 2 ends on the CZ's second output, sharing the record that
    // qubit 0's path ends on.
    let (q2_slot, q2_gate) = gate_parts(&ps[2]);
    assert_eq!(q2_slot, 1);
    assert_eq!(gate_name(q2_gate), "CZ");
    assert!(Rc::ptr_eq(cz, q2_gate));

    // The CZ's second input is the measurement-phase CNOT's second
    // output, and that CNOT record is shared with qubit 1's path.
    let (mid_slot, mid) = gate_parts(&gate_inputs(cz)[1]);
    assert_eq!(mid_slot, 1);
    assert_eq!(gate_name(mid), "CNOT");
    assert!(Rc::ptr_eq(mid, q1_gate));
}

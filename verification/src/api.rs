//! The backend-independent vocabulary: capability traits for backends,
//! qubits, gates and public graph nodes, together with the mathematical
//! model that their contracts are stated over.

use vstd::prelude::*;

verus! {

/// A backend is one family of qubit and gate implementations (a graph
/// builder, a numeric simulator, ...). The trait has no methods: its only
/// role is to parameterize the other traits, so that qubits, gates and
/// public graphs of distinct families cannot be mixed at compile time.
pub trait QBackend {}

/// A computational-basis value, used both to seed an initial qubit and as
/// the result type of a measurement.
#[derive(Clone, Copy, PartialEq, Eq, Structural, Debug)]
pub enum QBasis {
    Zero,
    One,
}

/// Mathematical shape of one gate record: a gate name and the
/// inspected shapes of the qubits it consumed, in order.
#[verifier::ext_equal]
pub struct GateModel {
    pub name: Seq<char>,
    pub inputs: Seq<NodeModel>,
}

/// Mathematical, backend-erased shape of a public graph node: a basis
/// leaf, a bare gate record, or one output slot of a gate record.
#[verifier::ext_equal]
pub enum NodeModel {
    Basis(QBasis),
    Gate(GateModel),
    GateOutput { index: u32, gate: GateModel },
}

/// A public graph node: the externally visible, read-only representation
/// of a piece of circuit history, owned by whoever requested inspection.
pub trait QPublicGraph<T: QBackend>: Sized {
    /// The mathematical value this node represents.
    spec fn model(&self) -> NodeModel;

    /// What `measure` returns on this node.
    spec fn measure_model(&self) -> Option<QBasis>;

    /// Measure the qubit this node stands for. A backend that only records
    /// the circuit's shape cannot answer a measurement question and returns
    /// `None`; an execution backend is expected to return `Some`.
    fn measure(&self) -> (r: Option<QBasis>)
        ensures
            r == self.measure_model(),
    ;
}

/// A value whose circuit history can be flattened into a public graph node.
pub trait QInspectable<T: QBackend>: Sized {
    /// The public node type this value flattens to.
    type Public: QPublicGraph<T>;

    /// Whether this value belongs to (is fully resolvable against) the
    /// given backend value.
    spec fn valid(&self, backend: &T) -> bool;

    /// The mathematical result of inspecting this value.
    spec fn inspect_model(&self, backend: &T) -> NodeModel;

    /// Flatten this value's history into a freshly built public node.
    /// Inspection is total: it cannot fail on a valid value.
    fn inspect(&self, backend: &T) -> (r: Self::Public)
        requires
            self.valid(backend),
        ensures
            r.model() == self.inspect_model(backend),
    ;
}

/// Inspection of several values at once. The result is one public node per
/// input, each equal (as a mathematical value) to what single inspection
/// would produce; an implementation is expected to convert a gate record
/// that is reachable from several of the inputs only once and share that
/// conversion.
pub trait QMultipleInspectable<T: QBackend>: QInspectable<T> {
    fn inspect_vec(backend: &T, qs: &Vec<Self>) -> (r: Vec<Self::Public>)
        requires
            forall|i: int| 0 <= i < qs@.len() ==> (#[trigger] qs@[i]).valid(backend),
        ensures
            r@.len() == qs@.len(),
            forall|i: int|
                0 <= i < qs@.len() ==> (#[trigger] r@[i]).model() == qs@[i].inspect_model(
                    backend,
                ),
    ;
}

/// A qubit: an inspectable value that is otherwise opaque. Qubits are
/// move-only tokens; applying a gate takes them by value, so a consumed
/// qubit cannot be used again.
pub trait Qubit<T: QBackend>: QInspectable<T> {}

/// A quantum gate for one backend: a pure construction step from input
/// qubit(s) to output qubit(s). `Input` and `Output` are gate-specific
/// shapes (a single qubit for a one-qubit gate, a pair for a two-qubit
/// gate).
pub trait QGate<T: QBackend>: Sized {
    type Input;

    type Output;

    /// What `apply` asks of the backend value and its input qubit(s).
    spec fn apply_requires(backend: T, input: Self::Input) -> bool;

    /// How `apply` relates the backend value before and after, the consumed
    /// input qubit(s) and the returned output qubit(s).
    spec fn apply_ensures(pre: T, post: T, input: Self::Input, output: Self::Output) -> bool;

    /// Apply this gate: the input qubit(s) are consumed, and the output
    /// qubit(s) handed back are bound to one shared record of this
    /// application.
    fn apply(backend: &mut T, input: Self::Input) -> (output: Self::Output)
        requires
            Self::apply_requires(*old(backend), input),
        ensures
            Self::apply_ensures(*old(backend), *final(backend), input, output),
    ;
}

} // verus!

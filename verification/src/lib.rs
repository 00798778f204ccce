//! Quantum circuits as an immutable dependency graph.
//!
//! A circuit is built by applying gates to qubit handles. Applying a gate
//! consumes its input qubits and returns fresh handles that reference a
//! shared record of the application; no amplitudes are computed. The graph
//! can later be inspected, which flattens it into a public, backend-erased
//! representation in which the two outputs of a two-qubit gate are
//! recognized as one shared node.

pub mod api;
pub mod graph;
pub mod laws;

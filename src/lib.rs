//! Incrementally proved batches of signatures: a step circuit that enforces a
//! caller-supplied verdict flag per entry and counts the entries, the
//! allocation of a batch into circuit variables, and a driver that advances
//! step after step and keeps its state when a step fails.
pub mod circuit;
pub mod curve;
pub mod field;
pub mod input;
pub mod ivc;

pub use circuit::FoldSigsStepCircuit;
pub use input::{ExtInp, ExtInpVar, VecExtInp, VecExtInpVar};

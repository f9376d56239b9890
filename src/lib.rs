//! Orchestration of a zero-knowledge eligibility proof: the staged pipeline
//! that drives the circuit executor and the prover, and the interactive
//! session that collects its inputs and reports its outcome.

pub mod pipeline;
pub mod prover;
pub mod response;
pub mod session;
pub mod text;

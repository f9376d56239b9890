//! The request that one pipeline run serves and the response it ends with.

use vstd::prelude::*;
use crate::text::{is_prefixed_hex};

verus! {

/// The two numbers that a client supplies: age in whole years and the body
/// mass index multiplied by ten.
#[derive(Clone, Copy, Debug, PartialEq, Eq, Structural)]
pub struct ProofRequest {
    pub age: u32,
    pub bmi_multiplied: u32,
}

/// Why a run did not produce a proof.
#[derive(Clone, Copy, Debug, PartialEq, Eq, Structural)]
pub enum Failure {
    /// The circuit executor exited unsuccessfully: the inputs violate the
    /// circuit's constraints.
    ConstraintViolation,
    /// The prover exited unsuccessfully.
    ProverFailure,
    /// A stage that should have produced an artifact left none.
    MissingArtifact,
    /// An external program could not be started.
    ToolInvocation,
    /// A file could not be written or read.
    Io,
}

/// The outcome of one pipeline run.
#[derive(Debug)]
pub struct ProofResponse {
    pub proof_hex: String,
    pub public_inputs: String,
    pub success: bool,
    pub message: String,
    pub failure: Option<Failure>,
}

/// The mathematical value of a [`ProofResponse`].
pub struct ResponseView {
    pub success: bool,
    pub proof_hex: Seq<char>,
    pub public_inputs: Seq<char>,
    pub message: Seq<char>,
    pub failure: Option<Failure>,
}

impl View for ProofResponse {
    type V = ResponseView;

    open spec fn view(&self) -> ResponseView {
        ResponseView {
            success: self.success,
            proof_hex: self.proof_hex@,
            public_inputs: self.public_inputs@,
            message: self.message@,
            failure: self.failure,
        }
    }
}

impl ResponseView {
    /// Either a success with a `0x`-prefixed hexadecimal proof and non-empty
    /// public inputs, or a classified failure with both of them empty.
    pub open spec fn wf(self) -> bool {
        if self.success {
            &&& self.failure is None
            &&& is_prefixed_hex(self.proof_hex)
            &&& self.public_inputs.len() > 0
        } else {
            &&& self.failure is Some
            &&& self.proof_hex.len() == 0
            &&& self.public_inputs.len() == 0
        }
    }
}

pub open spec fn success_message() -> Seq<char> {
    "Proof generated successfully! The user is eligible for insurance discount."@
}

/// The response of a run that failed for `kind`, explained by `message`.
pub open spec fn failed_view(kind: Failure, message: Seq<char>) -> ResponseView {
    ResponseView {
        success: false,
        proof_hex: Seq::empty(),
        public_inputs: Seq::empty(),
        message,
        failure: Some(kind),
    }
}

/// The response of a run that produced a proof.
pub open spec fn succeeded_view(proof_hex: Seq<char>, public_inputs: Seq<char>) -> ResponseView {
    ResponseView {
        success: true,
        proof_hex,
        public_inputs,
        message: success_message(),
        failure: None,
    }
}

impl ProofResponse {
    pub fn failed(kind: Failure, message: String) -> (r: ProofResponse)
        ensures
            r@ == failed_view(kind, message@),
            r@.wf(),
    {
        ProofResponse {
            proof_hex: String::new(),
            public_inputs: String::new(),
            success: false,
            message,
            failure: Some(kind),
        }
    }

    pub fn succeeded(proof_hex: String, public_inputs: String) -> (r: ProofResponse)
        requires
            is_prefixed_hex(proof_hex@),
            public_inputs@.len() > 0,
        ensures
            r@ == succeeded_view(proof_hex@, public_inputs@),
            r@.wf(),
    {
        ProofResponse {
            proof_hex,
            public_inputs,
            success: true,
            message: String::from_str("Proof generated successfully! The user is eligible for insurance discount."),
            failure: None,
        }
    }
}

} // verus!

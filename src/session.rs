//! The interactive exchange with one client, as a state machine.
//!
//! A [`Session`] never reads or writes the connection itself. Each call
//! returns a [`Reply`]: the text to send, then what to do next (read a line,
//! run the pipeline, save the results or close). The caller does it and
//! hands back what happened as a [`SessionEvent`].

use vstd::prelude::*;
use crate::response::{ProofRequest, ProofResponse, ResponseView};
use crate::text::{parse_u32, parse_unsigned, push_signed_decimal, signed_decimal, trim_text, trimmed};

verus! {

/// Where a session stands.
#[derive(Clone, Copy, Debug, PartialEq, Eq, Structural)]
pub enum Phase {
    AwaitingAge,
    AwaitingBmi { age: u32 },
    Proving,
    Saving { stamp: i64 },
    Closed,
}

/// What happened when the caller did what the last reply asked.
#[derive(Debug)]
pub enum SessionEvent {
    /// The client sent a line (empty at the end of the stream).
    Line { line: String },
    /// The pipeline ended with `response`, at `stamp` seconds since the
    /// Unix epoch.
    Proved { response: ProofResponse, stamp: i64 },
    /// The results were saved.
    Saved,
    /// The results could not be saved.
    SaveFailed { detail: String },
}

pub enum SessionEventView {
    Line { line: Seq<char> },
    Proved { response: ResponseView, stamp: i64 },
    Saved,
    SaveFailed { detail: Seq<char> },
}

impl View for SessionEvent {
    type V = SessionEventView;

    open spec fn view(&self) -> SessionEventView {
        match self {
            SessionEvent::Line { line } => SessionEventView::Line { line: line@ },
            SessionEvent::Proved { response, stamp } => SessionEventView::Proved {
                response: response@,
                stamp: *stamp,
            },
            SessionEvent::Saved => SessionEventView::Saved,
            SessionEvent::SaveFailed { detail } => SessionEventView::SaveFailed { detail: detail@ },
        }
    }
}

/// What the caller is to do once the reply's text has been sent.
#[derive(Debug)]
pub enum Next {
    ReadLine,
    Prove { request: ProofRequest },
    /// Write `proof_hex` to the file `proof_file` and `public_inputs` to the
    /// file `inputs_file`.
    Save { proof_file: String, proof_hex: String, inputs_file: String, public_inputs: String },
    Close,
}

pub enum NextView {
    ReadLine,
    Prove { request: ProofRequest },
    Save {
        proof_file: Seq<char>,
        proof_hex: Seq<char>,
        inputs_file: Seq<char>,
        public_inputs: Seq<char>,
    },
    Close,
}

/// Text for the client, then the next thing to do.
#[derive(Debug)]
pub struct Reply {
    pub output: String,
    pub next: Next,
}

pub struct ReplyView {
    pub output: Seq<char>,
    pub next: NextView,
}

impl View for Reply {
    type V = ReplyView;

    open spec fn view(&self) -> ReplyView {
        ReplyView {
            output: self.output@,
            next: match &self.next {
                Next::ReadLine => NextView::ReadLine,
                Next::Prove { request } => NextView::Prove { request: *request },
                Next::Save { proof_file, proof_hex, inputs_file, public_inputs } => NextView::Save {
                    proof_file: proof_file@,
                    proof_hex: proof_hex@,
                    inputs_file: inputs_file@,
                    public_inputs: public_inputs@,
                },
                Next::Close => NextView::Close,
            },
        }
    }
}

pub open spec fn reply(output: Seq<char>, next: NextView) -> ReplyView {
    ReplyView { output, next }
}

pub open spec fn greeting_text() -> Seq<char> {
    "ZK Insurance Verifier Server\n============================\nEnter age (10-25): "@
}

pub open spec fn bmi_prompt_text() -> Seq<char> {
    "Enter BMI multiplied by 10 (185-249): "@
}

pub open spec fn progress_text() -> Seq<char> {
    "\nGenerating proof...\nStep 1: Writing inputs to Prover.toml...\nStep 2: Executing circuit to generate witness (nargo execute)...\nStep 3: Generating proof with Barretenberg (bb prove)...\nStep 4: Converting proof to hex format...\n"@
}

pub open spec fn age_error_text() -> Seq<char> {
    "Error: Invalid age input\n"@
}

pub open spec fn bmi_error_text() -> Seq<char> {
    "Error: Invalid BMI input\n"@
}

pub open spec fn closing_text() -> Seq<char> {
    "\nConnection will close. Thanks for using ZK Insurance Verifier!\n"@
}

pub open spec fn bool_text(b: bool) -> Seq<char> {
    if b {
        "true"@
    } else {
        "false"@
    }
}

/// The banner of a pipeline's outcome.
pub open spec fn result_text(r: ResponseView) -> Seq<char> {
    "\n=== PROOF GENERATION RESULT ===\nSuccess: "@ + bool_text(r.success) + "\nMessage: "@
        + r.message + "\n"@
}

/// The proof and the public inputs of a successful outcome.
pub open spec fn proof_text(r: ResponseView) -> Seq<char> {
    "\n=== PROOF (HEX FORMAT) ===\n"@ + r.proof_hex + "\n"@ + "\n=== PUBLIC INPUTS ===\n"@
        + r.public_inputs + "\n"@
}

/// The explanation of a failed outcome.
pub open spec fn error_text(r: ResponseView) -> Seq<char> {
    "\n=== ERROR DETAILS ===\n"@ + r.message + "\n"@
}

pub open spec fn proof_file_name(stamp: i64) -> Seq<char> {
    "proof_"@ + signed_decimal(stamp as int) + ".hex"@
}

pub open spec fn inputs_file_name(stamp: i64) -> Seq<char> {
    "public_inputs_"@ + signed_decimal(stamp as int) + ".txt"@
}

/// Where the results were saved, and how to check them.
pub open spec fn saved_text(stamp: i64) -> Seq<char> {
    "\nFiles saved:\n  - Proof: "@ + proof_file_name(stamp) + "\n  - Public Inputs: "@
        + inputs_file_name(stamp) + "\n"@
        + "\n=== VERIFICATION ===\nTo verify this proof, use the proof hex and public inputs displayed above.\nThe proof has been generated using the correct bb command format.\n"@
}

pub open spec fn save_error_text(detail: Seq<char>) -> Seq<char> {
    "Error saving files: "@ + detail + "\n"@
}

/// The reply that opens a session.
pub open spec fn opening() -> (Phase, ReplyView) {
    (Phase::AwaitingAge, reply(greeting_text(), NextView::ReadLine))
}

/// One transition of a session: from its phase and what happened, the next
/// phase and the reply.
pub open spec fn session_step(ph: Phase, e: SessionEventView) -> (Phase, ReplyView) {
    match ph {
        Phase::AwaitingAge => match e {
            SessionEventView::Line { line } => match parse_unsigned(trimmed(line)) {
                Some(age) => (
                    Phase::AwaitingBmi { age },
                    reply(bmi_prompt_text(), NextView::ReadLine),
                ),
                None => (Phase::Closed, reply(age_error_text(), NextView::Close)),
            },
            _ => (Phase::Closed, reply(Seq::empty(), NextView::Close)),
        },
        Phase::AwaitingBmi { age } => match e {
            SessionEventView::Line { line } => match parse_unsigned(trimmed(line)) {
                Some(bmi) => (
                    Phase::Proving,
                    reply(
                        progress_text(),
                        NextView::Prove { request: ProofRequest { age, bmi_multiplied: bmi } },
                    ),
                ),
                None => (Phase::Closed, reply(bmi_error_text(), NextView::Close)),
            },
            _ => (Phase::Closed, reply(Seq::empty(), NextView::Close)),
        },
        Phase::Proving => match e {
            SessionEventView::Proved { response, stamp } => if response.success {
                (
                    Phase::Saving { stamp },
                    reply(
                        result_text(response) + proof_text(response),
                        NextView::Save {
                            proof_file: proof_file_name(stamp),
                            proof_hex: response.proof_hex,
                            inputs_file: inputs_file_name(stamp),
                            public_inputs: response.public_inputs,
                        },
                    ),
                )
            } else {
                (
                    Phase::Closed,
                    reply(
                        result_text(response) + error_text(response) + closing_text(),
                        NextView::Close,
                    ),
                )
            },
            _ => (Phase::Closed, reply(Seq::empty(), NextView::Close)),
        },
        Phase::Saving { stamp } => match e {
            SessionEventView::Saved => (
                Phase::Closed,
                reply(saved_text(stamp) + closing_text(), NextView::Close),
            ),
            SessionEventView::SaveFailed { detail } => (
                Phase::Closed,
                reply(save_error_text(detail) + closing_text(), NextView::Close),
            ),
            _ => (Phase::Closed, reply(Seq::empty(), NextView::Close)),
        },
        Phase::Closed => (Phase::Closed, reply(Seq::empty(), NextView::Close)),
    }
}


fn file_name(prefix: &str, stamp: i64, suffix: &str) -> (r: String)
    ensures
        r@ == prefix@ + signed_decimal(stamp as int) + suffix@,
{
    let mut out = String::from_str(prefix);
    push_signed_decimal(&mut out, stamp);
    out.append(suffix);
    out
}

fn push_result(out: &mut String, r: &ProofResponse)
    ensures
        final(out)@ =~= old(out)@ + result_text(r@),
{
    out.append("\n=== PROOF GENERATION RESULT ===\nSuccess: ");
    if r.success {
        out.append("true");
    } else {
        out.append("false");
    }
    out.append("\nMessage: ");
    out.append(r.message.as_str());
    out.append("\n");
}

/// A session with one client.
pub struct Session {
    phase: Phase,
}

impl View for Session {
    type V = Phase;

    closed spec fn view(&self) -> Phase {
        self.phase
    }
}

impl Session {
    /// Opens a session: greets the client and asks for the age.
    pub fn new() -> (r: (Session, Reply))
        ensures
            (r.0@, r.1@) == opening(),
    {
        let output = String::from_str(
            "ZK Insurance Verifier Server\n============================\nEnter age (10-25): ",
        );
        (Session { phase: Phase::AwaitingAge }, Reply { output, next: Next::ReadLine })
    }

    pub fn phase(&self) -> (r: Phase)
        ensures
            r == self@,
    {
        self.phase
    }

    fn close_with(&mut self, output: String) -> (r: Reply)
        ensures
            final(self)@ == Phase::Closed,
            r@ == reply(output@, NextView::Close),
    {
        self.phase = Phase::Closed;
        Reply { output, next: Next::Close }
    }

    /// Takes what happened and returns the next reply.
    pub fn handle(&mut self, e: SessionEvent) -> (r: Reply)
        ensures
            (final(self)@, r@) == session_step(old(self)@, e@),
    {
        match self.phase {
            Phase::AwaitingAge => match e {
                SessionEvent::Line { line } => {
                    let t = trim_text(line.as_str());
                    match parse_u32(t.as_str()) {
                        Some(age) => {
                            self.phase = Phase::AwaitingBmi { age };
                            let output = String::from_str("Enter BMI multiplied by 10 (185-249): ");
                            Reply { output, next: Next::ReadLine }
                        },
                        None => self.close_with(String::from_str("Error: Invalid age input\n")),
                    }
                },
                _ => self.close_with(String::new()),
            },
            Phase::AwaitingBmi { age } => match e {
                SessionEvent::Line { line } => {
                    let t = trim_text(line.as_str());
                    match parse_u32(t.as_str()) {
                        Some(bmi) => {
                            self.phase = Phase::Proving;
                            let output = String::from_str(
                                "\nGenerating proof...\nStep 1: Writing inputs to Prover.toml...\nStep 2: Executing circuit to generate witness (nargo execute)...\nStep 3: Generating proof with Barretenberg (bb prove)...\nStep 4: Converting proof to hex format...\n",
                            );
                            let request = ProofRequest { age, bmi_multiplied: bmi };
                            Reply { output, next: Next::Prove { request } }
                        },
                        None => self.close_with(String::from_str("Error: Invalid BMI input\n")),
                    }
                },
                _ => self.close_with(String::new()),
            },
            Phase::Proving => match e {
                SessionEvent::Proved { response, stamp } => {
                    let mut output = String::new();
                    push_result(&mut output, &response);
                    if response.success {
                        output.append("\n=== PROOF (HEX FORMAT) ===\n");
                        output.append(response.proof_hex.as_str());
                        output.append("\n");
                        output.append("\n=== PUBLIC INPUTS ===\n");
                        output.append(response.public_inputs.as_str());
                        output.append("\n");
                        assert(output@ =~= result_text(response@) + proof_text(response@));
                        self.phase = Phase::Saving { stamp };
                        let next = Next::Save {
                            proof_file: file_name("proof_", stamp, ".hex"),
                            proof_hex: response.proof_hex,
                            inputs_file: file_name("public_inputs_", stamp, ".txt"),
                            public_inputs: response.public_inputs,
                        };
                        Reply { output, next }
                    } else {
                        output.append("\n=== ERROR DETAILS ===\n");
                        output.append(response.message.as_str());
                        output.append("\n");
                        output.append(
                            "\nConnection will close. Thanks for using ZK Insurance Verifier!\n",
                        );
                        assert(output@ =~= result_text(response@) + error_text(response@)
                            + closing_text());
                        self.close_with(output)
                    }
                },
                _ => self.close_with(String::new()),
            },
            Phase::Saving { stamp } => match e {
                SessionEvent::Saved => {
                    let mut output = String::from_str("\nFiles saved:\n  - Proof: ");
                    let proof_file = file_name("proof_", stamp, ".hex");
                    output.append(proof_file.as_str());
                    output.append("\n  - Public Inputs: ");
                    let inputs_file = file_name("public_inputs_", stamp, ".txt");
                    output.append(inputs_file.as_str());
                    output.append("\n");
                    output.append(
                        "\n=== VERIFICATION ===\nTo verify this proof, use the proof hex and public inputs displayed above.\nThe proof has been generated using the correct bb command format.\n",
                    );
                    output.append(
                        "\nConnection will close. Thanks for using ZK Insurance Verifier!\n",
                    );
                    assert(output@ =~= saved_text(stamp) + closing_text());
                    self.close_with(output)
                },
                SessionEvent::SaveFailed { detail } => {
                    let mut output = String::from_str("Error saving files: ");
                    output.append(detail.as_str());
                    output.append("\n");
                    output.append(
                        "\nConnection will close. Thanks for using ZK Insurance Verifier!\n",
                    );
                    assert(output@ =~= save_error_text(detail@) + closing_text());
                    self.close_with(output)
                },
                _ => self.close_with(String::new()),
            },
            Phase::Closed => self.close_with(String::new()),
        }
    }
}

/// Malformed input ends the session with an error line: the session closes
/// and no proof is started.
pub proof fn lemma_malformed_input_closes(ph: Phase, line: Seq<char>)
    requires
        ph is AwaitingAge || ph is AwaitingBmi,
        parse_unsigned(trimmed(line)) is None,
    ensures
        ({
            let (next, r) = session_step(ph, SessionEventView::Line { line });
            &&& next == Phase::Closed
            &&& r.next == NextView::Close
            &&& r.output == if ph is AwaitingAge {
                age_error_text()
            } else {
                bmi_error_text()
            }
        }),
{
}

/// A closed session stays closed and sends nothing more.
pub proof fn lemma_closed_stays_closed(e: SessionEventView)
    ensures
        session_step(Phase::Closed, e) == (Phase::Closed, reply(Seq::empty(), NextView::Close)),
{
}

} // verus!

//! The staged proof pipeline, as a state machine.
//!
//! A [`ProofRun`] never touches a file or a process itself. Each call of
//! [`ProofRun::step`] takes the outcome of the previous [`Action`] and names
//! the next one; the caller performs it and hands back what happened as an
//! [`Event`]. The run ends with [`Action::Finish`], when its response is ready.

use vstd::prelude::*;
use crate::response::{
    failed_view, succeeded_view, Failure, ProofRequest, ProofResponse, ResponseView,
};
use crate::text::{
    decimal, hex_encode, hex_of, is_prefixed_hex, lemma_prefixed_hex, lossy_decode, lossy_text,
    push_decimal, trim_text, trimmed,
};

verus! {

/// The smallest age that the circuit accepts.
pub const MIN_AGE: u64 = 10;

/// The largest age that the circuit accepts.
pub const MAX_AGE: u64 = 25;

/// The smallest body mass index, times ten, that the circuit accepts.
pub const MIN_BMI: u64 = 185;

/// The largest body mass index, times ten, that the circuit accepts.
pub const MAX_BMI: u64 = 249;


/// The private-input artifact: the two numbers of the request and the four
/// bounds, one `key = "value"` line each.
pub open spec fn prover_inputs(req: ProofRequest) -> Seq<char> {
    "age = \""@ + decimal(req.age as nat) + "\"\nbmi = \""@ + decimal(req.bmi_multiplied as nat)
        + "\"\nmin_age = \""@ + decimal(MIN_AGE as nat) + "\"\nmax_age = \""@ + decimal(
        MAX_AGE as nat,
    ) + "\"\nmin_bmi = \""@ + decimal(MIN_BMI as nat) + "\"\nmax_bmi = \""@ + decimal(
        MAX_BMI as nat,
    ) + "\""@
}

/// Renders the private-input artifact of a request.
pub fn prover_inputs_text(req: ProofRequest) -> (r: String)
    ensures
        r@ == prover_inputs(req),
{
    let mut out = String::from_str("age = \"");
    push_decimal(&mut out, req.age as u64);
    out.append("\"\nbmi = \"");
    push_decimal(&mut out, req.bmi_multiplied as u64);
    out.append("\"\nmin_age = \"");
    push_decimal(&mut out, MIN_AGE);
    out.append("\"\nmax_age = \"");
    push_decimal(&mut out, MAX_AGE);
    out.append("\"\nmin_bmi = \"");
    push_decimal(&mut out, MIN_BMI);
    out.append("\"\nmax_bmi = \"");
    push_decimal(&mut out, MAX_BMI);
    out.append("\"");
    out
}

/// The path of the artifact `name` under the directory `dir`.
pub open spec fn artifact_path(dir: Seq<char>, name: Seq<char>) -> Seq<char> {
    dir + seq!['/'] + name
}

fn join_path(dir: &String, name: &str) -> (r: String)
    ensures
        r@ == artifact_path(dir@, name@),
{
    proof {
        reveal_strlit("/");
    }
    let mut out = dir.clone();
    out.append("/");
    out.append(name);
    out
}

/// Two texts, one after the other.
fn joined(a: &str, b: &str) -> (r: String)
    ensures
        r@ == a@ + b@,
{
    let mut out = String::from_str(a);
    out.append(b);
    out
}

/// Four texts, one after the other.
fn joined4(a: &str, b: &str, c: &str, d: &str) -> (r: String)
    ensures
        r@ == a@ + b@ + c@ + d@,
{
    let mut out = String::from_str(a);
    out.append(b);
    out.append(c);
    out.append(d);
    out
}

/// The views of a sequence of strings.
pub open spec fn texts(v: Seq<String>) -> Seq<Seq<char>> {
    v.map_values(|s: String| s@)
}

pub open spec fn field_quote(h: Seq<char>) -> Seq<char> {
    "\"0x"@ + h + "\""@
}

/// The first `k` field elements of the hexadecimal text `h`, 64 digits each,
/// quoted, `0x`-prefixed and separated by commas.
pub open spec fn field_elements(h: Seq<char>, k: nat) -> Seq<char>
    decreases k,
{
    if k == 0 {
        Seq::empty()
    } else if k == 1 {
        field_quote(h.subrange(0, 64))
    } else {
        field_elements(h, (k - 1) as nat) + ","@ + field_quote(
            h.subrange(64 * (k - 1), (64 * k) as int),
        )
    }
}

/// Public inputs kept in binary form: a bracketed list of 32-byte field
/// elements where the bytes split evenly into them, else `0x` before the
/// hexadecimal rendering of all the bytes.
pub open spec fn binary_public_inputs(b: Seq<u8>) -> Seq<char> {
    let h = hex_of(b);
    if h.len() > 0 && h.len() % 64 == 0 {
        "["@ + field_elements(h, (h.len() / 64) as nat) + "]"@
    } else {
        "0x"@ + h
    }
}

/// Renders public inputs that were kept in binary form.
pub fn binary_public_inputs_text(b: &[u8]) -> (r: String)
    ensures
        r@ == binary_public_inputs(b@),
{
    let h = hex_encode(b);
    let n = h.as_str().unicode_len();
    if n == 0 || n % 64 != 0 {
        return joined("0x", h.as_str());
    }
    let mut out = String::from_str("[");
    let mut i: usize = 0;
    let mut k: usize = 0;
    while i < n
        invariant
            n == h@.len(),
            h@ == hex_of(b@),
            n % 64 == 0,
            i == 64 * k,
            i <= n,
            out@ == "["@ + field_elements(h@, k as nat),
        decreases n - i,
    {
        if k > 0 {
            out.append(",");
        }
        out.append("\"0x");
        let part = h.as_str().substring_char(i, i + 64);
        out.append(part);
        out.append("\"");
        proof {
            let fk = field_elements(h@, (k + 1) as nat);
            if k == 0 {
                assert(fk == field_quote(h@.subrange(0, 64)));
                assert(out@ =~= "["@ + fk);
            } else {
                assert(out@ =~= "["@ + fk);
            }
        }
        i = i + 64;
        k = k + 1;
    }
    out.append("]");
    assert(k == n / 64);
    out
}

/// Where a run stands: the outcome it waits for, or `Done`.
#[derive(Clone, Copy, Debug, PartialEq, Eq, Structural)]
pub enum Stage {
    Preparing,
    WritingInputs,
    ExecutingCircuit,
    CheckingWitness,
    GeneratingProof,
    CheckingProof,
    ReadingProof,
    CheckingFields,
    ReadingFields,
    CheckingRawInputs,
    ReadingRawInputs,
    Done,
}

/// The stages that come after the proof has been read.
pub open spec fn holds_proof(s: Stage) -> bool {
    ||| s == Stage::CheckingFields
    ||| s == Stage::ReadingFields
    ||| s == Stage::CheckingRawInputs
    ||| s == Stage::ReadingRawInputs
}

/// What happened when the caller performed the last action.
#[derive(Debug)]
pub enum Event {
    /// The working directory was prepared, or the file was written.
    Completed,
    /// A file operation failed, or a program could not be started.
    Failed { detail: String },
    /// A program ran to completion.
    Exited { success: bool, stderr: Vec<u8> },
    /// Whether any of the probed paths exists.
    Probed { present: bool },
    /// The bytes of a file that was read, where they were not UTF-8 text or
    /// bytes were asked for.
    Bytes { bytes: Vec<u8> },
    /// The text of a file that was read.
    Text { text: String },
}

pub enum EventView {
    Completed,
    Failed { detail: Seq<char> },
    Exited { success: bool, stderr: Seq<u8> },
    Probed { present: bool },
    Bytes { bytes: Seq<u8> },
    Text { text: Seq<char> },
}

impl View for Event {
    type V = EventView;

    open spec fn view(&self) -> EventView {
        match self {
            Event::Completed => EventView::Completed,
            Event::Failed { detail } => EventView::Failed { detail: detail@ },
            Event::Exited { success, stderr } => EventView::Exited {
                success: *success,
                stderr: stderr@,
            },
            Event::Probed { present } => EventView::Probed { present: *present },
            Event::Bytes { bytes } => EventView::Bytes { bytes: bytes@ },
            Event::Text { text } => EventView::Text { text: text@ },
        }
    }
}

/// What the caller is to do next.
#[derive(Debug)]
pub enum Action {
    /// Create the directory `target` afresh and copy into it the listed
    /// entries of the directory `source`.
    Prepare { source: String, target: String, entries: Vec<String> },
    /// Write `content` to the file `path`, replacing it.
    Write { path: String, content: String },
    /// Run `program` with `args` in the directory `dir`, capturing its exit
    /// status and its error output.
    Run { program: String, args: Vec<String>, dir: String },
    /// Tell whether any of `paths` exists.
    Probe { paths: Vec<String> },
    /// Read the file `path` as bytes.
    ReadBytes { path: String },
    /// Read the file `path` as UTF-8 text.
    ReadText { path: String },
    /// Read the file `path` as UTF-8 text, or as bytes where it is not text.
    ReadTextOrBytes { path: String },
    /// The run is over: its response is ready.
    Finish,
}

pub enum ActionView {
    Prepare { source: Seq<char>, target: Seq<char>, entries: Seq<Seq<char>> },
    Write { path: Seq<char>, content: Seq<char> },
    Run { program: Seq<char>, args: Seq<Seq<char>>, dir: Seq<char> },
    Probe { paths: Seq<Seq<char>> },
    ReadBytes { path: Seq<char> },
    ReadText { path: Seq<char> },
    ReadTextOrBytes { path: Seq<char> },
    Finish,
}

impl View for Action {
    type V = ActionView;

    open spec fn view(&self) -> ActionView {
        match self {
            Action::Prepare { source, target, entries } => ActionView::Prepare {
                source: source@,
                target: target@,
                entries: texts(entries@),
            },
            Action::Write { path, content } => ActionView::Write {
                path: path@,
                content: content@,
            },
            Action::Run { program, args, dir } => ActionView::Run {
                program: program@,
                args: texts(args@),
                dir: dir@,
            },
            Action::Probe { paths } => ActionView::Probe { paths: texts(paths@) },
            Action::ReadBytes { path } => ActionView::ReadBytes { path: path@ },
            Action::ReadText { path } => ActionView::ReadText { path: path@ },
            Action::ReadTextOrBytes { path } => ActionView::ReadTextOrBytes { path: path@ },
            Action::Finish => ActionView::Finish,
        }
    }
}


pub open spec fn inputs_name() -> Seq<char> {
    "Prover.toml"@
}

pub open spec fn witness_names() -> Seq<Seq<char>> {
    seq!["target/insurance_verifier.gz"@, "target/insurance_verifier"@]
}

pub open spec fn proof_name() -> Seq<char> {
    "target/proof"@
}

pub open spec fn fields_name() -> Seq<char> {
    "target/public_inputs_fields.json"@
}

pub open spec fn raw_inputs_name() -> Seq<char> {
    "target/public_inputs"@
}

/// The arguments of the circuit executor.
pub open spec fn executor_args() -> Seq<Seq<char>> {
    seq!["execute"@]
}

/// The arguments of the prover: circuit definition, witness, output
/// directory, hash oracle and output encoding.
pub open spec fn prover_args() -> Seq<Seq<char>> {
    seq![
        "prove"@,
        "-b"@,
        "./target/insurance_verifier.json"@,
        "-w"@,
        "./target/insurance_verifier"@,
        "-o"@,
        "./target"@,
        "--oracle_hash"@,
        "keccak"@,
        "--output_format"@,
        "bytes_and_fields"@,
    ]
}

/// The state of one run.
pub struct ProofRun {
    dir: String,
    request: ProofRequest,
    stage: Stage,
    proof_hex: String,
    outcome: Option<ProofResponse>,
}

pub struct RunView {
    /// The working directory that the run owns.
    pub dir: Seq<char>,
    pub request: ProofRequest,
    pub stage: Stage,
    /// The rendered proof, once it has been read.
    pub proof_hex: Seq<char>,
    /// The response, once the run is over.
    pub outcome: Option<ResponseView>,
}

impl View for ProofRun {
    type V = RunView;

    closed spec fn view(&self) -> RunView {
        RunView {
            dir: self.dir@,
            request: self.request,
            stage: self.stage,
            proof_hex: self.proof_hex@,
            outcome: match self.outcome {
                Some(r) => Some(r@),
                None => None,
            },
        }
    }
}

impl RunView {
    /// A run has a response exactly when it is over, and the response is
    /// well formed; past the proof stages it holds a rendered proof.
    pub open spec fn wf(self) -> bool {
        &&& (self.stage == Stage::Done) == (self.outcome is Some)
        &&& self.outcome matches Some(r) ==> r.wf()
        &&& holds_proof(self.stage) ==> is_prefixed_hex(self.proof_hex)
    }
}

/// The run ends with the response `r`.
pub open spec fn finish(p: RunView, r: ResponseView) -> (RunView, ActionView) {
    (RunView { stage: Stage::Done, outcome: Some(r), ..p }, ActionView::Finish)
}

/// The run ends with a failure of kind `kind`.
pub open spec fn fail(p: RunView, kind: Failure, message: Seq<char>) -> (RunView, ActionView) {
    finish(p, failed_view(kind, message))
}

/// The run moves to `stage` and asks for `a`.
pub open spec fn advance(p: RunView, stage: Stage, a: ActionView) -> (RunView, ActionView) {
    (RunView { stage, ..p }, a)
}

pub open spec fn unexpected_message() -> Seq<char> {
    "Unexpected outcome of a pipeline step"@
}

/// An event that does not answer the action asked for ends the run.
pub open spec fn unexpected(p: RunView) -> (RunView, ActionView) {
    fail(p, Failure::Io, unexpected_message())
}

pub open spec fn read_failed_message(what: Seq<char>, path: Seq<char>, detail: Seq<char>) -> Seq<
    char,
> {
    "Failed to read "@ + what + " at "@ + path + ": "@ + detail
}

/// The end of a run that has read public-input text `t`: trimmed, it must
/// not be empty.
pub open spec fn with_text_inputs(p: RunView, path: Seq<char>, t: Seq<char>) -> (
    RunView,
    ActionView,
) {
    if trimmed(t).len() == 0 {
        fail(p, Failure::MissingArtifact, "Public inputs are empty at "@ + path)
    } else {
        finish(p, succeeded_view(p.proof_hex, trimmed(t)))
    }
}

/// One transition of a run: from its state and the outcome of the last
/// action, the next state and the next action.
pub open spec fn step_spec(p: RunView, e: EventView) -> (RunView, ActionView) {
    let dir = p.dir;
    match p.stage {
        Stage::Preparing => match e {
            EventView::Completed => advance(
                p,
                Stage::WritingInputs,
                ActionView::Write {
                    path: artifact_path(dir, inputs_name()),
                    content: prover_inputs(p.request),
                },
            ),
            EventView::Failed { detail } => fail(
                p,
                Failure::Io,
                "Failed to prepare working directory "@ + dir + ": "@ + detail,
            ),
            _ => unexpected(p),
        },
        Stage::WritingInputs => match e {
            EventView::Completed => advance(
                p,
                Stage::ExecutingCircuit,
                ActionView::Run { program: "nargo"@, args: executor_args(), dir },
            ),
            EventView::Failed { detail } => fail(
                p,
                Failure::Io,
                "Failed to write "@ + artifact_path(dir, inputs_name()) + ": "@ + detail,
            ),
            _ => unexpected(p),
        },
        Stage::ExecutingCircuit => match e {
            EventView::Exited { success, stderr } => if success {
                advance(
                    p,
                    Stage::CheckingWitness,
                    ActionView::Probe {
                        paths: seq![
                            artifact_path(dir, witness_names()[0]),
                            artifact_path(dir, witness_names()[1]),
                        ],
                    },
                )
            } else {
                fail(
                    p,
                    Failure::ConstraintViolation,
                    "Circuit execution failed. The inputs don't satisfy the constraints: "@
                        + lossy_text(stderr),
                )
            },
            EventView::Failed { detail } => fail(
                p,
                Failure::ToolInvocation,
                "Failed to execute circuit: "@ + detail,
            ),
            _ => unexpected(p),
        },
        Stage::CheckingWitness => match e {
            EventView::Probed { present } => if present {
                advance(
                    p,
                    Stage::GeneratingProof,
                    ActionView::Run { program: "bb"@, args: prover_args(), dir },
                )
            } else {
                fail(
                    p,
                    Failure::MissingArtifact,
                    "Witness file was not generated after circuit execution"@,
                )
            },
            _ => unexpected(p),
        },
        Stage::GeneratingProof => match e {
            EventView::Exited { success, stderr } => if success {
                advance(
                    p,
                    Stage::CheckingProof,
                    ActionView::Probe { paths: seq![artifact_path(dir, proof_name())] },
                )
            } else {
                fail(p, Failure::ProverFailure, "Proof generation failed: "@ + lossy_text(stderr))
            },
            EventView::Failed { detail } => fail(
                p,
                Failure::ToolInvocation,
                "Failed to generate proof with bb: "@ + detail,
            ),
            _ => unexpected(p),
        },
        Stage::CheckingProof => match e {
            EventView::Probed { present } => if present {
                advance(
                    p,
                    Stage::ReadingProof,
                    ActionView::ReadBytes { path: artifact_path(dir, proof_name()) },
                )
            } else {
                fail(
                    p,
                    Failure::MissingArtifact,
                    "Proof file was not generated at path: "@ + artifact_path(dir, proof_name()),
                )
            },
            _ => unexpected(p),
        },
        Stage::ReadingProof => match e {
            EventView::Bytes { bytes } => if bytes.len() == 0 {
                fail(
                    p,
                    Failure::MissingArtifact,
                    "Proof file is empty at path: "@ + artifact_path(dir, proof_name()),
                )
            } else {
                (
                    RunView {
                        stage: Stage::CheckingFields,
                        proof_hex: "0x"@ + hex_of(bytes),
                        ..p
                    },
                    ActionView::Probe { paths: seq![artifact_path(dir, fields_name())] },
                )
            },
            EventView::Failed { detail } => fail(
                p,
                Failure::Io,
                read_failed_message("proof file"@, artifact_path(dir, proof_name()), detail),
            ),
            _ => unexpected(p),
        },
        Stage::CheckingFields => match e {
            EventView::Probed { present } => if present {
                advance(
                    p,
                    Stage::ReadingFields,
                    ActionView::ReadText { path: artifact_path(dir, fields_name()) },
                )
            } else {
                advance(
                    p,
                    Stage::CheckingRawInputs,
                    ActionView::Probe { paths: seq![artifact_path(dir, raw_inputs_name())] },
                )
            },
            _ => unexpected(p),
        },
        Stage::ReadingFields => match e {
            EventView::Text { text } => with_text_inputs(p, artifact_path(dir, fields_name()), text),
            EventView::Failed { detail } => fail(
                p,
                Failure::Io,
                read_failed_message(
                    "public inputs fields JSON"@,
                    artifact_path(dir, fields_name()),
                    detail,
                ),
            ),
            _ => unexpected(p),
        },
        Stage::CheckingRawInputs => match e {
            EventView::Probed { present } => if present {
                advance(
                    p,
                    Stage::ReadingRawInputs,
                    ActionView::ReadTextOrBytes { path: artifact_path(dir, raw_inputs_name()) },
                )
            } else {
                fail(
                    p,
                    Failure::MissingArtifact,
                    "Neither public_inputs_fields.json nor public_inputs file was generated at "@
                        + dir + "/target"@,
                )
            },
            _ => unexpected(p),
        },
        Stage::ReadingRawInputs => match e {
            EventView::Text { text } => with_text_inputs(
                p,
                artifact_path(dir, raw_inputs_name()),
                text,
            ),
            EventView::Bytes { bytes } => finish(
                p,
                succeeded_view(p.proof_hex, binary_public_inputs(bytes)),
            ),
            EventView::Failed { detail } => fail(
                p,
                Failure::Io,
                read_failed_message(
                    "public inputs file"@,
                    artifact_path(dir, raw_inputs_name()),
                    detail,
                ),
            ),
            _ => unexpected(p),
        },
        Stage::Done => (p, ActionView::Finish),
    }
}


/// The state of a run that has just been started in `dir` for `req`.
pub open spec fn start_view(dir: Seq<char>, req: ProofRequest) -> RunView {
    RunView { dir, request: req, stage: Stage::Preparing, proof_hex: Seq::empty(), outcome: None }
}

/// The state of a run after it has taken `events` in order.
pub open spec fn run(p: RunView, events: Seq<EventView>) -> RunView
    decreases events.len(),
{
    if events.len() == 0 {
        p
    } else {
        run(step_spec(p, events[0]).0, events.drop_first())
    }
}

/// Every transition keeps a run well formed: a response, once there, is
/// either a full success or a failure with no proof and no public inputs.
pub proof fn lemma_step_keeps_wf(p: RunView, e: EventView)
    requires
        p.wf(),
    ensures
        step_spec(p, e).0.wf(),
{
    reveal_strlit("0x");
    assert("0x"@ =~= seq!['0', 'x']);
    match e {
        EventView::Bytes { bytes } => {
            lemma_binary_public_inputs_nonempty(bytes);
            if bytes.len() > 0 {
                lemma_prefixed_hex(bytes);
            }
        },
        _ => {},
    }
}

/// A run stays well formed whatever outcomes it sees.
pub proof fn lemma_run_keeps_wf(p: RunView, events: Seq<EventView>)
    requires
        p.wf(),
    ensures
        run(p, events).wf(),
    decreases events.len(),
{
    if events.len() > 0 {
        lemma_step_keeps_wf(p, events[0]);
        lemma_run_keeps_wf(step_spec(p, events[0]).0, events.drop_first());
    }
}

/// A run in which both tools succeed and leave their artifacts ends in
/// success, after it has handed the circuit the request and the four bounds:
/// the proof is `0x` and the lowercase hexadecimal rendering of the proof
/// file, and the public inputs are the trimmed fields artifact.
pub proof fn lemma_successful_tools_give_proof(
    dir: Seq<char>,
    req: ProofRequest,
    executor_err: Seq<u8>,
    prover_err: Seq<u8>,
    proof: Seq<u8>,
    fields: Seq<char>,
)
    requires
        proof.len() > 0,
        trimmed(fields).len() > 0,
    ensures
        ({
            let s1 = step_spec(start_view(dir, req), EventView::Completed);
            let s2 = step_spec(s1.0, EventView::Completed);
            let s3 = step_spec(s2.0, EventView::Exited { success: true, stderr: executor_err });
            let s4 = step_spec(s3.0, EventView::Probed { present: true });
            let s5 = step_spec(s4.0, EventView::Exited { success: true, stderr: prover_err });
            let s6 = step_spec(s5.0, EventView::Probed { present: true });
            let s7 = step_spec(s6.0, EventView::Bytes { bytes: proof });
            let s8 = step_spec(s7.0, EventView::Probed { present: true });
            let s9 = step_spec(s8.0, EventView::Text { text: fields });
            &&& s1.1 == ActionView::Write {
                path: artifact_path(dir, inputs_name()),
                content: prover_inputs(req),
            }
            &&& s9.1 == ActionView::Finish
            &&& s9.0.outcome == Some(succeeded_view("0x"@ + hex_of(proof), trimmed(fields)))
            &&& is_prefixed_hex("0x"@ + hex_of(proof))
        }),
{
    reveal_strlit("0x");
    assert("0x"@ =~= seq!['0', 'x']);
    lemma_prefixed_hex(proof);
}

/// When the circuit executor exits unsuccessfully, as it does for inputs
/// outside the circuit's bounds, the run fails as a constraint violation,
/// with no proof and no public inputs, and its message ends with the
/// executor's error output.
pub proof fn lemma_rejected_inputs_fail(dir: Seq<char>, req: ProofRequest, err: Seq<u8>)
    ensures
        ({
            let s1 = step_spec(start_view(dir, req), EventView::Completed);
            let s2 = step_spec(s1.0, EventView::Completed);
            let s3 = step_spec(s2.0, EventView::Exited { success: false, stderr: err });
            &&& s3.1 == ActionView::Finish
            &&& s3.0.outcome matches Some(r) && {
                &&& !r.success
                &&& r.failure == Some(Failure::ConstraintViolation)
                &&& r.proof_hex.len() == 0
                &&& r.public_inputs.len() == 0
                &&& r.message.len() >= err_len(err)
                &&& r.message.subrange(r.message.len() - err_len(err), r.message.len() as int)
                    == lossy_text(err)
            }
        }),
{
    let m = "Circuit execution failed. The inputs don't satisfy the constraints: "@ + lossy_text(err);
    assert(m.subrange(m.len() - err_len(err), m.len() as int) =~= lossy_text(err));
}

/// The length of the decoded error output `err`.
pub open spec fn err_len(err: Seq<u8>) -> int {
    lossy_text(err).len() as int
}

/// A witness that is missing after the executor exited successfully ends
/// the run as a missing artifact, never as a success.
pub proof fn lemma_missing_witness_fails(dir: Seq<char>, req: ProofRequest, err: Seq<u8>)
    ensures
        ({
            let s1 = step_spec(start_view(dir, req), EventView::Completed);
            let s2 = step_spec(s1.0, EventView::Completed);
            let s3 = step_spec(s2.0, EventView::Exited { success: true, stderr: err });
            let s4 = step_spec(s3.0, EventView::Probed { present: false });
            &&& s4.1 == ActionView::Finish
            &&& s4.0.outcome == Some(
                failed_view(
                    Failure::MissingArtifact,
                    "Witness file was not generated after circuit execution"@,
                ),
            )
        }),
{
}

/// A proof file that is missing after the prover exited successfully ends
/// the run as a missing artifact.
pub proof fn lemma_missing_proof_fails(
    dir: Seq<char>,
    req: ProofRequest,
    executor_err: Seq<u8>,
    prover_err: Seq<u8>,
)
    ensures
        ({
            let s1 = step_spec(start_view(dir, req), EventView::Completed);
            let s2 = step_spec(s1.0, EventView::Completed);
            let s3 = step_spec(s2.0, EventView::Exited { success: true, stderr: executor_err });
            let s4 = step_spec(s3.0, EventView::Probed { present: true });
            let s5 = step_spec(s4.0, EventView::Exited { success: true, stderr: prover_err });
            let s6 = step_spec(s5.0, EventView::Probed { present: false });
            &&& s6.1 == ActionView::Finish
            &&& s6.0.outcome == Some(
                failed_view(
                    Failure::MissingArtifact,
                    "Proof file was not generated at path: "@ + artifact_path(dir, proof_name()),
                ),
            )
        }),
{
}

/// Two runs that stand at the same stage of the same request, with the same
/// proof so far, and whose responses (if any) agree on all but the message.
pub open spec fn alike(p: RunView, q: RunView) -> bool {
    &&& p.request == q.request
    &&& p.stage == q.stage
    &&& p.proof_hex == q.proof_hex
    &&& match (p.outcome, q.outcome) {
        (None, None) => true,
        (Some(r), Some(s)) => {
            &&& r.success == s.success
            &&& r.proof_hex == s.proof_hex
            &&& r.public_inputs == s.public_inputs
            &&& r.failure == s.failure
        },
        _ => false,
    }
}

proof fn lemma_run_alike(p: RunView, q: RunView, events: Seq<EventView>)
    requires
        alike(p, q),
    ensures
        alike(run(p, events), run(q, events)),
    decreases events.len(),
{
    if events.len() > 0 {
        let e = events[0];
        assert(alike(step_spec(p, e).0, step_spec(q, e).0));
        lemma_run_alike(step_spec(p, e).0, step_spec(q, e).0, events.drop_first());
    }
}

/// Runs of the same request in two working directories that see the same
/// outcomes from the tools and the files end alike: both unfinished, or both
/// with the same success, proof and public inputs.
pub proof fn lemma_runs_reproducible(
    dir1: Seq<char>,
    dir2: Seq<char>,
    req: ProofRequest,
    events: Seq<EventView>,
)
    ensures
        ({
            let r1 = run(start_view(dir1, req), events).outcome;
            let r2 = run(start_view(dir2, req), events).outcome;
            &&& r1 is Some == r2 is Some
            &&& r1 matches Some(a) ==> r2 matches Some(b) && a.success == b.success
                && a.proof_hex == b.proof_hex && a.public_inputs == b.public_inputs
        }),
{
    lemma_run_alike(start_view(dir1, req), start_view(dir2, req), events);
}

/// The public inputs kept in binary form are never empty.
proof fn lemma_binary_public_inputs_nonempty(b: Seq<u8>)
    ensures
        binary_public_inputs(b).len() > 0,
{
    reveal_strlit("[");
    reveal_strlit("0x");
}

fn read_failed(what: &str, path: &str, detail: &str) -> (r: String)
    ensures
        r@ == read_failed_message(what@, path@, detail@),
{
    let mut out = String::from_str("Failed to read ");
    out.append(what);
    out.append(" at ");
    out.append(path);
    out.append(": ");
    out.append(detail);
    out
}

fn one_text(a: String) -> (r: Vec<String>)
    ensures
        texts(r@) == seq![a@],
{
    let mut v: Vec<String> = Vec::new();
    v.push(a);
    assert(texts(v@) =~= seq![a@]);
    v
}

fn two_texts(a: String, b: String) -> (r: Vec<String>)
    ensures
        texts(r@) == seq![a@, b@],
{
    let mut v: Vec<String> = Vec::new();
    v.push(a);
    v.push(b);
    assert(texts(v@) =~= seq![a@, b@]);
    v
}

fn prover_arg_list() -> (r: Vec<String>)
    ensures
        texts(r@) == prover_args(),
{
    let mut v: Vec<String> = Vec::new();
    v.push(String::from_str("prove"));
    v.push(String::from_str("-b"));
    v.push(String::from_str("./target/insurance_verifier.json"));
    v.push(String::from_str("-w"));
    v.push(String::from_str("./target/insurance_verifier"));
    v.push(String::from_str("-o"));
    v.push(String::from_str("./target"));
    v.push(String::from_str("--oracle_hash"));
    v.push(String::from_str("keccak"));
    v.push(String::from_str("--output_format"));
    v.push(String::from_str("bytes_and_fields"));
    assert(texts(v@) =~= prover_args());
    v
}

impl ProofRun {
    /// A run of `request` in the working directory `dir`, waiting for that
    /// directory to be prepared.
    pub fn new(dir: String, request: ProofRequest) -> (r: ProofRun)
        ensures
            r@ == (RunView {
                dir: dir@,
                request,
                stage: Stage::Preparing,
                proof_hex: Seq::empty(),
                outcome: None,
            }),
            r@.wf(),
    {
        ProofRun { dir, request, stage: Stage::Preparing, proof_hex: String::new(), outcome: None }
    }

    pub fn stage(&self) -> (r: Stage)
        ensures
            r == self@.stage,
    {
        self.stage
    }

    /// The response of the run, once it is over.
    pub fn into_response(self) -> (r: Option<ProofResponse>)
        ensures
            match r {
                Some(x) => self@.outcome == Some(x@),
                None => self@.outcome is None,
            },
    {
        self.outcome
    }

    fn path_of(&self, name: &str) -> (r: String)
        ensures
            r@ == artifact_path(self@.dir, name@),
    {
        join_path(&self.dir, name)
    }

    fn finish_failed(&mut self, kind: Failure, message: String) -> (a: Action)
        requires
            old(self)@.wf(),
        ensures
            (final(self)@, a@) == fail(old(self)@, kind, message@),
            final(self)@.wf(),
    {
        self.stage = Stage::Done;
        self.outcome = Some(ProofResponse::failed(kind, message));
        Action::Finish
    }

    fn finish_unexpected(&mut self) -> (a: Action)
        requires
            old(self)@.wf(),
        ensures
            (final(self)@, a@) == unexpected(old(self)@),
            final(self)@.wf(),
    {
        self.finish_failed(Failure::Io, String::from_str("Unexpected outcome of a pipeline step"))
    }

    fn finish_succeeded(&mut self, public_inputs: String) -> (a: Action)
        requires
            old(self)@.wf(),
            holds_proof(old(self)@.stage),
            public_inputs@.len() > 0,
        ensures
            (final(self)@, a@) == finish(
                old(self)@,
                succeeded_view(old(self)@.proof_hex, public_inputs@),
            ),
            final(self)@.wf(),
    {
        let proof_hex = self.proof_hex.clone();
        self.stage = Stage::Done;
        self.outcome = Some(ProofResponse::succeeded(proof_hex, public_inputs));
        Action::Finish
    }

    fn finish_with_text(&mut self, path: String, t: String) -> (a: Action)
        requires
            old(self)@.wf(),
            holds_proof(old(self)@.stage),
        ensures
            (final(self)@, a@) == with_text_inputs(old(self)@, path@, t@),
            final(self)@.wf(),
    {
        let v = trim_text(t.as_str());
        if v.as_str().unicode_len() == 0 {
            let m = joined("Public inputs are empty at ", path.as_str());
            self.finish_failed(Failure::MissingArtifact, m)
        } else {
            self.finish_succeeded(v)
        }
    }

    fn advance_to(&mut self, stage: Stage, a: Action) -> (r: Action)
        requires
            old(self)@.wf(),
            old(self)@.stage != Stage::Done,
            stage != Stage::Done,
            holds_proof(stage) ==> is_prefixed_hex(old(self)@.proof_hex),
        ensures
            (final(self)@, r@) == advance(old(self)@, stage, a@),
            final(self)@.wf(),
    {
        self.stage = stage;
        a
    }

    /// Takes the outcome of the last action and returns the next one.
    pub fn step(&mut self, e: Event) -> (a: Action)
        requires
            old(self)@.wf(),
        ensures
            final(self)@.wf(),
            (final(self)@, a@) == step_spec(old(self)@, e@),
    {
        match self.stage {
            Stage::Preparing => match e {
                Event::Completed => {
                    let path = self.path_of("Prover.toml");
                    let content = prover_inputs_text(self.request);
                    self.advance_to(Stage::WritingInputs, Action::Write { path, content })
                },
                Event::Failed { detail } => {
                    let m = joined4(
                        "Failed to prepare working directory ",
                        self.dir.as_str(),
                        ": ",
                        detail.as_str(),
                    );
                    self.finish_failed(Failure::Io, m)
                },
                _ => self.finish_unexpected(),
            },
            Stage::WritingInputs => match e {
                Event::Completed => {
                    let program = String::from_str("nargo");
                    let args = one_text(String::from_str("execute"));
                    let dir = self.dir.clone();
                    self.advance_to(Stage::ExecutingCircuit, Action::Run { program, args, dir })
                },
                Event::Failed { detail } => {
                    let path = self.path_of("Prover.toml");
                    let m = joined4("Failed to write ", path.as_str(), ": ", detail.as_str());
                    self.finish_failed(Failure::Io, m)
                },
                _ => self.finish_unexpected(),
            },
            Stage::ExecutingCircuit => match e {
                Event::Exited { success, stderr } => {
                    if success {
                        let paths = two_texts(
                            self.path_of("target/insurance_verifier.gz"),
                            self.path_of("target/insurance_verifier"),
                        );
                        self.advance_to(Stage::CheckingWitness, Action::Probe { paths })
                    } else {
                        let err = lossy_decode(stderr.as_slice());
                        let m = joined(
                            "Circuit execution failed. The inputs don't satisfy the constraints: ",
                            err.as_str(),
                        );
                        self.finish_failed(Failure::ConstraintViolation, m)
                    }
                },
                Event::Failed { detail } => {
                    let m = joined("Failed to execute circuit: ", detail.as_str());
                    self.finish_failed(Failure::ToolInvocation, m)
                },
                _ => self.finish_unexpected(),
            },
            Stage::CheckingWitness => match e {
                Event::Probed { present } => {
                    if present {
                        let program = String::from_str("bb");
                        let args = prover_arg_list();
                        let dir = self.dir.clone();
                        self.advance_to(Stage::GeneratingProof, Action::Run { program, args, dir })
                    } else {
                        let m = String::from_str(
                            "Witness file was not generated after circuit execution",
                        );
                        self.finish_failed(Failure::MissingArtifact, m)
                    }
                },
                _ => self.finish_unexpected(),
            },
            Stage::GeneratingProof => match e {
                Event::Exited { success, stderr } => {
                    if success {
                        let paths = one_text(self.path_of("target/proof"));
                        self.advance_to(Stage::CheckingProof, Action::Probe { paths })
                    } else {
                        let err = lossy_decode(stderr.as_slice());
                        let m = joined("Proof generation failed: ", err.as_str());
                        self.finish_failed(Failure::ProverFailure, m)
                    }
                },
                Event::Failed { detail } => {
                    let m = joined("Failed to generate proof with bb: ", detail.as_str());
                    self.finish_failed(Failure::ToolInvocation, m)
                },
                _ => self.finish_unexpected(),
            },
            Stage::CheckingProof => match e {
                Event::Probed { present } => {
                    let path = self.path_of("target/proof");
                    if present {
                        self.advance_to(Stage::ReadingProof, Action::ReadBytes { path })
                    } else {
                        let m = joined("Proof file was not generated at path: ", path.as_str());
                        self.finish_failed(Failure::MissingArtifact, m)
                    }
                },
                _ => self.finish_unexpected(),
            },
            Stage::ReadingProof => match e {
                Event::Bytes { bytes } => {
                    let path = self.path_of("target/proof");
                    if bytes.len() == 0 {
                        let m = joined("Proof file is empty at path: ", path.as_str());
                        self.finish_failed(Failure::MissingArtifact, m)
                    } else {
                        let h = hex_encode(bytes.as_slice());
                        let proof_hex = joined("0x", h.as_str());
                        proof {
                            reveal_strlit("0x");
                            lemma_prefixed_hex(bytes@);
                            assert("0x"@ =~= seq!['0', 'x']);
                        }
                        self.proof_hex = proof_hex;
                        let paths = one_text(self.path_of("target/public_inputs_fields.json"));
                        self.advance_to(Stage::CheckingFields, Action::Probe { paths })
                    }
                },
                Event::Failed { detail } => {
                    let path = self.path_of("target/proof");
                    let m = read_failed("proof file", path.as_str(), detail.as_str());
                    self.finish_failed(Failure::Io, m)
                },
                _ => self.finish_unexpected(),
            },
            Stage::CheckingFields => match e {
                Event::Probed { present } => {
                    if present {
                        let path = self.path_of("target/public_inputs_fields.json");
                        self.advance_to(Stage::ReadingFields, Action::ReadText { path })
                    } else {
                        let paths = one_text(self.path_of("target/public_inputs"));
                        self.advance_to(Stage::CheckingRawInputs, Action::Probe { paths })
                    }
                },
                _ => self.finish_unexpected(),
            },
            Stage::ReadingFields => match e {
                Event::Text { text } => {
                    let path = self.path_of("target/public_inputs_fields.json");
                    self.finish_with_text(path, text)
                },
                Event::Failed { detail } => {
                    let path = self.path_of("target/public_inputs_fields.json");
                    let m = read_failed("public inputs fields JSON", path.as_str(), detail.as_str());
                    self.finish_failed(Failure::Io, m)
                },
                _ => self.finish_unexpected(),
            },
            Stage::CheckingRawInputs => match e {
                Event::Probed { present } => {
                    if present {
                        let path = self.path_of("target/public_inputs");
                        self.advance_to(Stage::ReadingRawInputs, Action::ReadTextOrBytes { path })
                    } else {
                        let mut m = joined(
                            "Neither public_inputs_fields.json nor public_inputs file was generated at ",
                            self.dir.as_str(),
                        );
                        m.append("/target");
                        self.finish_failed(Failure::MissingArtifact, m)
                    }
                },
                _ => self.finish_unexpected(),
            },
            Stage::ReadingRawInputs => match e {
                Event::Text { text } => {
                    let path = self.path_of("target/public_inputs");
                    self.finish_with_text(path, text)
                },
                Event::Bytes { bytes } => {
                    let v = binary_public_inputs_text(bytes.as_slice());
                    proof {
                        lemma_binary_public_inputs_nonempty(bytes@);
                    }
                    self.finish_succeeded(v)
                },
                Event::Failed { detail } => {
                    let path = self.path_of("target/public_inputs");
                    let m = read_failed("public inputs file", path.as_str(), detail.as_str());
                    self.finish_failed(Failure::Io, m)
                },
                _ => self.finish_unexpected(),
            },
            Stage::Done => Action::Finish,
        }
    }
}

} // verus!

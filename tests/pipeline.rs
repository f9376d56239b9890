use insurance_prover::pipeline::{Action, Event, ProofRun, Stage};
use insurance_prover::prover::{NoirProver, RunIds};
use insurance_prover::response::{Failure, ProofRequest, ProofResponse};

fn request(age: u32, bmi_multiplied: u32) -> ProofRequest {
    ProofRequest { age, bmi_multiplied }
}

fn started(id: u64, req: ProofRequest) -> ProofRun {
    let prover = NoirProver::new(false);
    let (run, _) = prover.generate_proof(id, req);
    run
}

fn exited(success: bool, stderr: &str) -> Event {
    Event::Exited { success, stderr: stderr.as_bytes().to_vec() }
}

fn probed(present: bool) -> Event {
    Event::Probed { present }
}

/// Drives a run through both tools up to the point where the proof file
/// has been read.
fn through_proof(run: &mut ProofRun, proof: &[u8]) {
    run.step(Event::Completed);
    run.step(Event::Completed);
    run.step(exited(true, ""));
    run.step(probed(true));
    run.step(exited(true, ""));
    run.step(probed(true));
    run.step(Event::Bytes { bytes: proof.to_vec() });
}

fn finish(mut run: ProofRun, e: Event) -> ProofResponse {
    match run.step(e) {
        Action::Finish => {}
        other => panic!("expected the run to finish, got {:?}", other),
    }
    run.into_response().expect("a finished run has a response")
}

#[test]
fn prover_picks_circuit_directory() {
    assert_eq!(NoirProver::new(true).circuit_path, "/app/noir-circuit");
    assert_eq!(NoirProver::new(false).circuit_path, "../noir-circuit");
}

#[test]
fn run_starts_by_preparing_its_own_directory() {
    let prover = NoirProver::new(false);
    let (run, action) = prover.generate_proof(7, request(15, 200));
    assert_eq!(run.stage(), Stage::Preparing);
    match action {
        Action::Prepare { source, target, entries } => {
            assert_eq!(source, "../noir-circuit");
            assert_eq!(target, "../noir-circuit.run-7");
            assert_eq!(entries, vec!["Nargo.toml", "src", "target/insurance_verifier.json"]);
        }
        other => panic!("unexpected action {:?}", other),
    }
}

#[test]
fn concurrent_runs_get_distinct_directories() {
    let prover = NoirProver::with_circuit_path("/srv/circuit".to_string());
    assert_eq!(prover.run_dir(1), "/srv/circuit.run-1");
    assert_ne!(prover.run_dir(1), prover.run_dir(12));
    let mut a = started(1, request(15, 200));
    let mut b = started(2, request(16, 190));
    let wa = a.step(Event::Completed);
    let wb = b.step(Event::Completed);
    match (wa, wb) {
        (Action::Write { path: pa, content: ca }, Action::Write { path: pb, content: cb }) => {
            assert_eq!(pa, "../noir-circuit.run-1/Prover.toml");
            assert_eq!(pb, "../noir-circuit.run-2/Prover.toml");
            assert!(ca.contains("age = \"15\""));
            assert!(cb.contains("age = \"16\""));
        }
        other => panic!("unexpected actions {:?}", other),
    }
}

#[test]
fn valid_request_runs_every_stage_in_order() {
    let mut run = started(3, request(15, 200));
    match run.step(Event::Completed) {
        Action::Write { path, content } => {
            assert_eq!(path, "../noir-circuit.run-3/Prover.toml");
            assert!(content.starts_with("age = \"15\"\nbmi = \"200\"\n"));
        }
        other => panic!("unexpected action {:?}", other),
    }
    match run.step(Event::Completed) {
        Action::Run { program, args, dir } => {
            assert_eq!(program, "nargo");
            assert_eq!(args, vec!["execute"]);
            assert_eq!(dir, "../noir-circuit.run-3");
        }
        other => panic!("unexpected action {:?}", other),
    }
    match run.step(exited(true, "")) {
        Action::Probe { paths } => assert_eq!(
            paths,
            vec![
                "../noir-circuit.run-3/target/insurance_verifier.gz",
                "../noir-circuit.run-3/target/insurance_verifier"
            ]
        ),
        other => panic!("unexpected action {:?}", other),
    }
    match run.step(probed(true)) {
        Action::Run { program, args, .. } => {
            assert_eq!(program, "bb");
            assert_eq!(
                args,
                vec![
                    "prove",
                    "-b",
                    "./target/insurance_verifier.json",
                    "-w",
                    "./target/insurance_verifier",
                    "-o",
                    "./target",
                    "--oracle_hash",
                    "keccak",
                    "--output_format",
                    "bytes_and_fields"
                ]
            );
        }
        other => panic!("unexpected action {:?}", other),
    }
    match run.step(exited(true, "")) {
        Action::Probe { paths } => assert_eq!(paths, vec!["../noir-circuit.run-3/target/proof"]),
        other => panic!("unexpected action {:?}", other),
    }
    match run.step(probed(true)) {
        Action::ReadBytes { path } => assert_eq!(path, "../noir-circuit.run-3/target/proof"),
        other => panic!("unexpected action {:?}", other),
    }
    match run.step(Event::Bytes { bytes: vec![0xde, 0xad, 0x0b] }) {
        Action::Probe { paths } => {
            assert_eq!(paths, vec!["../noir-circuit.run-3/target/public_inputs_fields.json"])
        }
        other => panic!("unexpected action {:?}", other),
    }
    match run.step(probed(true)) {
        Action::ReadText { path } => {
            assert_eq!(path, "../noir-circuit.run-3/target/public_inputs_fields.json")
        }
        other => panic!("unexpected action {:?}", other),
    }
    let response = finish(run, Event::Text { text: "  [\"0x0a\",\"0xf9\"]\n".to_string() });
    assert!(response.success);
    assert_eq!(response.proof_hex, "0xdead0b");
    assert_eq!(response.public_inputs, "[\"0x0a\",\"0xf9\"]");
    assert_eq!(response.failure, None);
    assert_eq!(
        response.message,
        "Proof generated successfully! The user is eligible for insurance discount."
    );
}

#[test]
fn age_out_of_bounds_is_a_constraint_failure() {
    let mut run = started(4, request(30, 200));
    run.step(Event::Completed);
    run.step(Event::Completed);
    let response = finish(run, exited(false, "error: Failed constraint\n"));
    assert!(!response.success);
    assert_eq!(response.failure, Some(Failure::ConstraintViolation));
    assert!(response.proof_hex.is_empty());
    assert!(response.public_inputs.is_empty());
    assert!(response.message.contains("constraint"));
    assert!(response.message.ends_with("error: Failed constraint\n"));
}

#[test]
fn missing_witness_is_a_missing_artifact() {
    let mut run = started(5, request(15, 200));
    run.step(Event::Completed);
    run.step(Event::Completed);
    run.step(exited(true, ""));
    let response = finish(run, probed(false));
    assert!(!response.success);
    assert_eq!(response.failure, Some(Failure::MissingArtifact));
    assert_eq!(response.message, "Witness file was not generated after circuit execution");
}

#[test]
fn missing_proof_is_a_missing_artifact() {
    let mut run = started(6, request(15, 200));
    run.step(Event::Completed);
    run.step(Event::Completed);
    run.step(exited(true, ""));
    run.step(probed(true));
    run.step(exited(true, ""));
    let response = finish(run, probed(false));
    assert!(!response.success);
    assert_eq!(response.failure, Some(Failure::MissingArtifact));
    assert_eq!(
        response.message,
        "Proof file was not generated at path: ../noir-circuit.run-6/target/proof"
    );
}

#[test]
fn prover_failure_embeds_its_error_output() {
    let mut run = started(8, request(15, 200));
    run.step(Event::Completed);
    run.step(Event::Completed);
    run.step(exited(true, ""));
    run.step(probed(true));
    let response = finish(run, exited(false, "bb: bad witness"));
    assert_eq!(response.failure, Some(Failure::ProverFailure));
    assert_eq!(response.message, "Proof generation failed: bb: bad witness");
}

#[test]
fn tool_that_cannot_start_is_an_invocation_failure() {
    let mut run = started(9, request(15, 200));
    run.step(Event::Completed);
    run.step(Event::Completed);
    let response = finish(run, Event::Failed { detail: "not found".to_string() });
    assert_eq!(response.failure, Some(Failure::ToolInvocation));
    assert_eq!(response.message, "Failed to execute circuit: not found");
}

#[test]
fn write_failure_is_an_io_failure() {
    let mut run = started(10, request(15, 200));
    run.step(Event::Completed);
    let response = finish(run, Event::Failed { detail: "read-only".to_string() });
    assert_eq!(response.failure, Some(Failure::Io));
    assert_eq!(
        response.message,
        "Failed to write ../noir-circuit.run-10/Prover.toml: read-only"
    );
}

#[test]
fn unexpected_event_ends_the_run() {
    let run = started(11, request(15, 200));
    let response = finish(run, probed(true));
    assert_eq!(response.failure, Some(Failure::Io));
    assert!(!response.success);
}

#[test]
fn empty_proof_file_is_a_missing_artifact() {
    let mut run = started(12, request(15, 200));
    through_proof(&mut run, &[]);
    assert_eq!(run.stage(), Stage::Done);
    let response = run.into_response().unwrap();
    assert_eq!(response.failure, Some(Failure::MissingArtifact));
    assert!(response.proof_hex.is_empty());
}

#[test]
fn raw_text_inputs_are_the_fallback() {
    let mut run = started(13, request(15, 200));
    through_proof(&mut run, &[1, 2]);
    match run.step(probed(false)) {
        Action::Probe { paths } => assert_eq!(paths, vec!["../noir-circuit.run-13/target/public_inputs"]),
        other => panic!("unexpected action {:?}", other),
    }
    match run.step(probed(true)) {
        Action::ReadTextOrBytes { path } => {
            assert_eq!(path, "../noir-circuit.run-13/target/public_inputs")
        }
        other => panic!("unexpected action {:?}", other),
    }
    let response = finish(run, Event::Text { text: "\n0x0a 0x19\n".to_string() });
    assert!(response.success);
    assert_eq!(response.proof_hex, "0x0102");
    assert_eq!(response.public_inputs, "0x0a 0x19");
}

#[test]
fn binary_inputs_are_the_last_fallback() {
    let mut run = started(14, request(15, 200));
    through_proof(&mut run, &[0xff]);
    run.step(probed(false));
    run.step(probed(true));
    let mut bytes = vec![0u8; 31];
    bytes.push(0x0a);
    let response = finish(run, Event::Bytes { bytes });
    assert!(response.success);
    assert_eq!(response.proof_hex, "0xff");
    assert_eq!(response.public_inputs, format!("[\"0x{}0a\"]", "00".repeat(31)));
}

#[test]
fn absent_public_inputs_are_a_missing_artifact() {
    let mut run = started(15, request(15, 200));
    through_proof(&mut run, &[0xff]);
    run.step(probed(false));
    let response = finish(run, probed(false));
    assert_eq!(response.failure, Some(Failure::MissingArtifact));
    assert!(response.proof_hex.is_empty());
    assert_eq!(
        response.message,
        "Neither public_inputs_fields.json nor public_inputs file was generated at ../noir-circuit.run-15/target"
    );
}

#[test]
fn blank_public_inputs_are_a_missing_artifact() {
    let mut run = started(16, request(15, 200));
    through_proof(&mut run, &[0xff]);
    run.step(probed(true));
    let response = finish(run, Event::Text { text: " \n".to_string() });
    assert!(!response.success);
    assert_eq!(response.failure, Some(Failure::MissingArtifact));
}

#[test]
fn identical_runs_in_distinct_directories_agree() {
    let mut a = started(21, request(15, 200));
    let mut b = started(22, request(15, 200));
    through_proof(&mut a, &[0x12, 0x34]);
    through_proof(&mut b, &[0x12, 0x34]);
    a.step(probed(true));
    b.step(probed(true));
    let ra = finish(a, Event::Text { text: "[\"0x1\"]".to_string() });
    let rb = finish(b, Event::Text { text: "[\"0x1\"]".to_string() });
    assert!(ra.success && rb.success);
    assert_eq!(ra.proof_hex, rb.proof_hex);
    assert_eq!(ra.public_inputs, rb.public_inputs);
}

#[test]
fn finished_run_stays_finished() {
    let run = started(23, request(15, 200));
    let mut run = run;
    run.step(Event::Failed { detail: "no space".to_string() });
    assert!(matches!(run.step(Event::Completed), Action::Finish));
    let response = run.into_response().unwrap();
    assert_eq!(
        response.message,
        "Failed to prepare working directory ../noir-circuit.run-23: no space"
    );
}

#[test]
fn run_ids_are_handed_out_once() {
    let mut ids = RunIds::new(5);
    assert_eq!(ids.allocate(), Some(5));
    assert_eq!(ids.allocate(), Some(6));
    let mut last = RunIds::new(u64::MAX - 1);
    assert_eq!(last.allocate(), Some(u64::MAX - 1));
    assert_eq!(last.allocate(), None);
    assert_eq!(last.allocate(), None);
}

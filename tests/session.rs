use insurance_prover::response::{Failure, ProofRequest, ProofResponse};
use insurance_prover::session::{Next, Phase, Session, SessionEvent};

fn line(s: &str) -> SessionEvent {
    SessionEvent::Line { line: s.to_string() }
}

fn succeeded() -> ProofResponse {
    ProofResponse {
        proof_hex: "0xab".to_string(),
        public_inputs: "[\"0x1\"]".to_string(),
        success: true,
        message: "done".to_string(),
        failure: None,
    }
}

#[test]
fn session_greets_and_asks_for_age() {
    let (session, reply) = Session::new();
    assert_eq!(session.phase(), Phase::AwaitingAge);
    assert_eq!(
        reply.output,
        "ZK Insurance Verifier Server\n============================\nEnter age (10-25): "
    );
    assert!(matches!(reply.next, Next::ReadLine));
}

#[test]
fn session_collects_both_numbers() {
    let (mut session, _) = Session::new();
    let reply = session.handle(line("15\n"));
    assert_eq!(reply.output, "Enter BMI multiplied by 10 (185-249): ");
    assert!(matches!(reply.next, Next::ReadLine));
    let reply = session.handle(line(" 200 \r\n"));
    assert!(reply.output.starts_with("\nGenerating proof...\n"));
    assert_eq!(reply.output.lines().filter(|l| l.starts_with("Step ")).count(), 4);
    match reply.next {
        Next::Prove { request } => {
            assert_eq!(request, ProofRequest { age: 15, bmi_multiplied: 200 })
        }
        other => panic!("unexpected next step {:?}", other),
    }
    assert_eq!(session.phase(), Phase::Proving);
}

#[test]
fn malformed_age_closes_without_proving() {
    let (mut session, _) = Session::new();
    let reply = session.handle(line("abc\n"));
    assert_eq!(reply.output, "Error: Invalid age input\n");
    assert!(matches!(reply.next, Next::Close));
    assert_eq!(session.phase(), Phase::Closed);
}

#[test]
fn malformed_bmi_closes_without_proving() {
    let (mut session, _) = Session::new();
    session.handle(line("15"));
    let reply = session.handle(line("18.5"));
    assert_eq!(reply.output, "Error: Invalid BMI input\n");
    assert!(matches!(reply.next, Next::Close));
}

#[test]
fn end_of_stream_is_malformed_input() {
    let (mut session, _) = Session::new();
    let reply = session.handle(line(""));
    assert_eq!(reply.output, "Error: Invalid age input\n");
    assert!(matches!(reply.next, Next::Close));
}

#[test]
fn success_is_shown_then_saved() {
    let (mut session, _) = Session::new();
    session.handle(line("15"));
    session.handle(line("200"));
    let reply = session.handle(SessionEvent::Proved { response: succeeded(), stamp: 1700000000 });
    assert_eq!(
        reply.output,
        "\n=== PROOF GENERATION RESULT ===\nSuccess: true\nMessage: done\n\n=== PROOF (HEX FORMAT) ===\n0xab\n\n=== PUBLIC INPUTS ===\n[\"0x1\"]\n"
    );
    match reply.next {
        Next::Save { proof_file, proof_hex, inputs_file, public_inputs } => {
            assert_eq!(proof_file, "proof_1700000000.hex");
            assert_eq!(proof_hex, "0xab");
            assert_eq!(inputs_file, "public_inputs_1700000000.txt");
            assert_eq!(public_inputs, "[\"0x1\"]");
        }
        other => panic!("unexpected next step {:?}", other),
    }
    let reply = session.handle(SessionEvent::Saved);
    assert!(reply.output.starts_with(
        "\nFiles saved:\n  - Proof: proof_1700000000.hex\n  - Public Inputs: public_inputs_1700000000.txt\n"
    ));
    assert!(reply.output.contains("=== VERIFICATION ==="));
    assert!(reply
        .output
        .ends_with("\nConnection will close. Thanks for using ZK Insurance Verifier!\n"));
    assert!(matches!(reply.next, Next::Close));
}

#[test]
fn failure_is_explained_then_closed() {
    let (mut session, _) = Session::new();
    session.handle(line("30"));
    session.handle(line("200"));
    let response = ProofResponse {
        proof_hex: String::new(),
        public_inputs: String::new(),
        success: false,
        message: "Circuit execution failed. The inputs don't satisfy the constraints: x".to_string(),
        failure: Some(Failure::ConstraintViolation),
    };
    let reply = session.handle(SessionEvent::Proved { response, stamp: 1700000000 });
    assert_eq!(
        reply.output,
        "\n=== PROOF GENERATION RESULT ===\nSuccess: false\nMessage: Circuit execution failed. The inputs don't satisfy the constraints: x\n\n=== ERROR DETAILS ===\nCircuit execution failed. The inputs don't satisfy the constraints: x\n\nConnection will close. Thanks for using ZK Insurance Verifier!\n"
    );
    assert!(matches!(reply.next, Next::Close));
    assert_eq!(session.phase(), Phase::Closed);
}

#[test]
fn save_failure_ends_with_an_error_line() {
    let (mut session, _) = Session::new();
    session.handle(line("15"));
    session.handle(line("200"));
    session.handle(SessionEvent::Proved { response: succeeded(), stamp: -5 });
    let reply = session.handle(SessionEvent::SaveFailed { detail: "disk full".to_string() });
    assert_eq!(
        reply.output,
        "Error saving files: disk full\n\nConnection will close. Thanks for using ZK Insurance Verifier!\n"
    );
    assert!(matches!(reply.next, Next::Close));
}

#[test]
fn closed_session_sends_nothing_more() {
    let (mut session, _) = Session::new();
    session.handle(line("x"));
    let reply = session.handle(line("15"));
    assert_eq!(reply.output, "");
    assert!(matches!(reply.next, Next::Close));
}

#[test]
fn unicode_white_space_around_input_is_ignored() {
    let (mut session, _) = Session::new();
    let reply = session.handle(line("\u{3000}15\u{a0}\n"));
    assert!(matches!(reply.next, Next::ReadLine));
    let reply = session.handle(line("\t200\u{2028}"));
    match reply.next {
        Next::Prove { request } => {
            assert_eq!(request, ProofRequest { age: 15, bmi_multiplied: 200 })
        }
        other => panic!("unexpected next step {:?}", other),
    }
}

#[test]
fn negative_stamp_names_files() {
    let (mut session, _) = Session::new();
    session.handle(line("15"));
    session.handle(line("200"));
    let reply = session.handle(SessionEvent::Proved { response: succeeded(), stamp: -5 });
    match reply.next {
        Next::Save { proof_file, inputs_file, .. } => {
            assert_eq!(proof_file, "proof_-5.hex");
            assert_eq!(inputs_file, "public_inputs_-5.txt");
        }
        other => panic!("unexpected next step {:?}", other),
    }
}

use prover_service::handler::{
    health_checker_handler, prove_handler, prove_session_step, prove_and_push_handler,
    push_session_step, Action, Event, ProveAndPushRequest, ProveRequest,
};
use prover_service::server::{
    api_key_middleware, cors_policy, create_router, listening_port, AuthDecision, HttpMethod,
    RouteKind,
};
use prover_service::wire::parse_proof;

fn request(blueprint: &str, proof: &str, input: &str) -> ProveRequest {
    ProveRequest {
        blueprint_id: blueprint.to_string(),
        proof_id: proof.to_string(),
        input: input.to_string(),
        zkey_download_url: "https://example.com/zkey.zip".to_string(),
        circuit_cpp_download_url: "https://example.com/circuit_cpp.zip".to_string(),
    }
}

const PROOF_TEXT: &str = "{\"pi_a\":[\"11\",\"22\",\"1\"],\"pi_b\":[[\"1\",\"2\"],[\"3\",\"4\"]],\"pi_c\":[\"5\",\"6\"],\"protocol\":\"groth16\",\"curve\":\"bn128\"}";
const PUBLIC_TEXT: &str = "[\"123\",\"456\"]";

#[test]
fn health_check_is_always_the_same_success_payload() {
    let (status, body) = health_checker_handler();
    assert_eq!(status, 200);
    assert_eq!(body, "{\"status\":\"success\",\"message\":\"Hello from ZK Email!\"}");
}

#[test]
fn router_serves_health_unprotected_and_proving_protected() {
    let routes = create_router();
    assert_eq!(routes.len(), 3);
    assert_eq!(routes[0].method, HttpMethod::Get);
    assert_eq!(routes[0].path, "/api/healthz");
    assert!(!routes[0].protected);
    assert_eq!(routes[0].kind, RouteKind::HealthCheck);
    assert_eq!(routes[1].method, HttpMethod::Post);
    assert_eq!(routes[1].path, "/api/prove");
    assert!(routes[1].protected);
    assert_eq!(routes[1].kind, RouteKind::Prove);
    assert_eq!(routes[2].method, HttpMethod::Post);
    assert_eq!(routes[2].path, "/api/prove-and-push");
    assert!(routes[2].protected);
    assert_eq!(routes[2].kind, RouteKind::ProveAndPush);
}

#[test]
fn listening_port_defaults_to_3000() {
    assert_eq!(listening_port(None), "3000");
    assert_eq!(listening_port(Some("8080".to_string())), "8080");
}

#[test]
fn cors_policy_allows_the_fixed_set() {
    let policy = cors_policy();
    assert!(policy.allow_any_origin);
    assert_eq!(policy.methods, vec![HttpMethod::Get, HttpMethod::Post]);
    assert_eq!(
        policy.headers,
        vec![
            "Authorization".to_string(),
            "Accept".to_string(),
            "Content-Type".to_string(),
        ]
    );
}

#[test]
fn api_key_gate_rejects_missing_and_wrong_keys() {
    match api_key_middleware("s3cret", None) {
        AuthDecision::Reject { status, body } => {
            assert_eq!(status, 401);
            assert_eq!(body, "Invalid or missing API key");
        }
        AuthDecision::Proceed => panic!("missing key must be rejected"),
    }
    match api_key_middleware("s3cret", Some("wrong")) {
        AuthDecision::Reject { status, .. } => assert_eq!(status, 401),
        AuthDecision::Proceed => panic!("wrong key must be rejected"),
    }
    match api_key_middleware("s3cret", Some("s3cret")) {
        AuthDecision::Proceed => {}
        AuthDecision::Reject { .. } => panic!("correct key must proceed"),
    }
}

#[test]
fn prove_flow_first_request_downloads_extracts_and_responds() {
    let (s, a) = prove_handler(request("bp1", "p1", "{\"a\":1,\"b\":2}"));
    match &a {
        Action::CheckDir { path } => assert_eq!(path, "artifacts/bp1"),
        _ => panic!("expected a directory check"),
    }
    let (s, a) = prove_session_step(s, Event::DirExists { exists: false }).unwrap();
    match &a {
        Action::CreateDir { path } => assert_eq!(path, "artifacts/bp1"),
        _ => panic!("expected directory creation"),
    }
    let (s, a) = prove_session_step(s, Event::Done).unwrap();
    match &a {
        Action::Download { url, dest } => {
            assert_eq!(url, "https://example.com/circuit_cpp.zip");
            assert_eq!(dest, "artifacts/bp1/circuit_cpp.zip");
        }
        _ => panic!("expected the circuit download"),
    }
    let (s, a) = prove_session_step(s, Event::Done).unwrap();
    match &a {
        Action::Download { url, dest } => {
            assert_eq!(url, "https://example.com/zkey.zip");
            assert_eq!(dest, "artifacts/bp1/zkey.zip");
        }
        _ => panic!("expected the keys download"),
    }
    let (s, a) = prove_session_step(s, Event::Done).unwrap();
    match &a {
        Action::Run { command } => {
            assert_eq!(command.program, "unzip");
            assert_eq!(command.args, vec!["-o".to_string(), "circuit_cpp.zip".to_string()]);
            assert_eq!(command.cwd, Some("artifacts/bp1".to_string()));
        }
        _ => panic!("expected the circuit extraction"),
    }
    let (s, a) = prove_session_step(s, Event::Done).unwrap();
    match &a {
        Action::Run { command } => {
            assert_eq!(command.args, vec!["-o".to_string(), "zkey.zip".to_string()]);
        }
        _ => panic!("expected the keys extraction"),
    }
    let (s, a) = prove_session_step(s, Event::Done).unwrap();
    match &a {
        Action::WriteFile { path, contents } => {
            assert_eq!(path, "artifacts/bp1/input_p1.json");
            assert_eq!(contents, "{\"a\":1,\"b\":2}");
        }
        _ => panic!("expected the input write"),
    }
    let (s, a) = prove_session_step(s, Event::Done).unwrap();
    match &a {
        Action::Run { command } => {
            assert_eq!(command.program, "./circuit");
            assert_eq!(
                command.args,
                vec!["input_p1.json".to_string(), "witness_p1.wtns".to_string()]
            );
        }
        _ => panic!("expected witness generation"),
    }
    let (s, a) = prove_session_step(s, Event::Done).unwrap();
    match &a {
        Action::Run { command } => {
            assert_eq!(command.program, "prover");
            assert_eq!(
                command.args,
                vec![
                    "circuit.zkey".to_string(),
                    "witness_p1.wtns".to_string(),
                    "proof_p1.json".to_string(),
                    "public_p1.json".to_string(),
                ]
            );
        }
        _ => panic!("expected proving"),
    }
    let (s, a) = prove_session_step(s, Event::Done).unwrap();
    match &a {
        Action::ReadFile { path } => assert_eq!(path, "artifacts/bp1/proof_p1.json"),
        _ => panic!("expected the proof read"),
    }
    let (s, a) =
        prove_session_step(s, Event::FileRead { contents: PROOF_TEXT.to_string() }).unwrap();
    match &a {
        Action::ReadFile { path } => assert_eq!(path, "artifacts/bp1/public_p1.json"),
        _ => panic!("expected the public read"),
    }
    let (s, a) =
        prove_session_step(s, Event::FileRead { contents: PUBLIC_TEXT.to_string() }).unwrap();
    match &a {
        Action::RemoveFile { path } => assert_eq!(path, "artifacts/bp1/input_p1.json"),
        _ => panic!("expected cleanup of the input"),
    }
    let (s, a) = prove_session_step(s, Event::Done).unwrap();
    match &a {
        Action::RemoveFile { path } => assert_eq!(path, "artifacts/bp1/witness_p1.wtns"),
        _ => panic!("expected cleanup of the witness"),
    }
    let (s, a) = prove_session_step(s, Event::Done).unwrap();
    match &a {
        Action::RemoveFile { path } => assert_eq!(path, "artifacts/bp1/proof_p1.json"),
        _ => panic!("expected cleanup of the proof file"),
    }
    let (s, a) = prove_session_step(s, Event::Done).unwrap();
    match &a {
        Action::RemoveFile { path } => assert_eq!(path, "artifacts/bp1/public_p1.json"),
        _ => panic!("expected cleanup of the public file"),
    }
    let (_, a) = prove_session_step(s, Event::Done).unwrap();
    match a {
        Action::Respond { status, body } => {
            assert_eq!(status, 200);
            let expected = format!(
                "{{\"proof\":{},\"publicOutputs\":{}}}",
                PROOF_TEXT, PUBLIC_TEXT
            );
            assert_eq!(body, expected);
            let embedded = parse_proof(PROOF_TEXT).unwrap();
            assert!(!embedded.pi_a.is_empty());
            assert!(!embedded.pi_c.is_empty());
            assert_eq!(embedded.pi_b.len(), 2);
        }
        _ => panic!("expected the success response"),
    }
}

#[test]
fn prove_flow_cached_blueprint_skips_downloads() {
    let (s, _) = prove_handler(request("bp1", "p2", "{\"a\":1}"));
    let (mut s, a) = prove_session_step(s, Event::DirExists { exists: true }).unwrap();
    match &a {
        Action::WriteFile { path, .. } => assert_eq!(path, "artifacts/bp1/input_p2.json"),
        _ => panic!("a cached blueprint must go straight to the input write"),
    }
    // Drive the session to its response; a cached blueprint is never
    // downloaded, created or extracted again.
    let script = vec![
        Event::Done,
        Event::Done,
        Event::Done,
        Event::FileRead { contents: PROOF_TEXT.to_string() },
        Event::FileRead { contents: PUBLIC_TEXT.to_string() },
        Event::Done,
        Event::Done,
        Event::Done,
        Event::Done,
    ];
    let mut last = None;
    for event in script {
        let (next, a) = prove_session_step(s, event).unwrap();
        match &a {
            Action::Download { .. } => panic!("a cached blueprint must not be downloaded again"),
            Action::CreateDir { .. } => panic!("a cached blueprint must not be recreated"),
            Action::Run { command } => assert_ne!(command.program, "unzip"),
            _ => {}
        }
        s = next;
        last = Some(a);
    }
    match last.unwrap() {
        Action::Respond { status, .. } => assert_eq!(status, 200),
        _ => panic!("the cached flow must end in a response"),
    }
}

#[test]
fn cleanup_failure_yields_500() {
    let (s, _) = prove_handler(request("bp1", "p1", "{}"));
    let (s, _) = prove_session_step(s, Event::DirExists { exists: true }).unwrap();
    let (s, _) = prove_session_step(s, Event::Done).unwrap();
    let (s, _) = prove_session_step(s, Event::Done).unwrap();
    let (s, _) = prove_session_step(s, Event::Done).unwrap();
    let (s, _) =
        prove_session_step(s, Event::FileRead { contents: PROOF_TEXT.to_string() }).unwrap();
    let (s, _) =
        prove_session_step(s, Event::FileRead { contents: PUBLIC_TEXT.to_string() }).unwrap();
    let (_, a) = prove_session_step(s, Event::Failed { cause: "busy".to_string() }).unwrap();
    match a {
        Action::Respond { status, body } => {
            assert_eq!(status, 500);
            assert_eq!(
                body,
                "{\"status\":\"error\",\"message\":\"Failed to clean up: busy\"}"
            );
        }
        _ => panic!("a failed cleanup must end the request"),
    }
}

#[test]
fn distinct_proof_ids_use_distinct_files() {
    let (s1, _) = prove_handler(request("bp1", "p1", "{}"));
    let (s2, _) = prove_handler(request("bp1", "p2", "{}"));
    let (_, a1) = prove_session_step(s1, Event::DirExists { exists: true }).unwrap();
    let (_, a2) = prove_session_step(s2, Event::DirExists { exists: true }).unwrap();
    match (a1, a2) {
        (Action::WriteFile { path: p1, .. }, Action::WriteFile { path: p2, .. }) => {
            assert_ne!(p1, p2);
        }
        _ => panic!("both cached requests must write their own input"),
    }
}

#[test]
fn malformed_input_document_is_rejected_with_400() {
    let (_, a) = prove_handler(request("bp1", "p1", "{\"a\":1,"));
    match a {
        Action::Respond { status, body } => {
            assert_eq!(status, 400);
            assert_eq!(
                body,
                "{\"status\":\"error\",\"message\":\"Failed to parse JSON: invalid input document\"}"
            );
        }
        _ => panic!("malformed input must be rejected at once"),
    }
}

#[test]
fn unreachable_circuit_url_yields_400_and_no_later_steps() {
    let (s, _) = prove_handler(request("bp1", "p1", "{}"));
    let (s, _) = prove_session_step(s, Event::DirExists { exists: false }).unwrap();
    let (s, _) = prove_session_step(s, Event::Done).unwrap();
    let (s, a) =
        prove_session_step(s, Event::Failed { cause: "connection refused".to_string() }).unwrap();
    match a {
        Action::Respond { status, body } => {
            assert_eq!(status, 400);
            assert_eq!(
                body,
                "{\"status\":\"error\",\"message\":\"Failed to download compiled circuit: connection refused\"}"
            );
        }
        _ => panic!("a failed download must end the request"),
    }
    assert!(prove_session_step(s, Event::Done).is_none());
}

#[test]
fn unreachable_keys_url_yields_400() {
    let (s, _) = prove_handler(request("bp1", "p1", "{}"));
    let (s, _) = prove_session_step(s, Event::DirExists { exists: false }).unwrap();
    let (s, _) = prove_session_step(s, Event::Done).unwrap();
    let (s, _) = prove_session_step(s, Event::Done).unwrap();
    let (_, a) = prove_session_step(s, Event::Failed { cause: "404".to_string() }).unwrap();
    match a {
        Action::Respond { status, body } => {
            assert_eq!(status, 400);
            assert_eq!(
                body,
                "{\"status\":\"error\",\"message\":\"Failed to download keys: 404\"}"
            );
        }
        _ => panic!("a failed download must end the request"),
    }
}

#[test]
fn witness_generator_failure_yields_500() {
    let (s, _) = prove_handler(request("bp1", "p1", "{}"));
    let (s, _) = prove_session_step(s, Event::DirExists { exists: true }).unwrap();
    let (s, _) = prove_session_step(s, Event::Done).unwrap();
    let (_, a) =
        prove_session_step(s, Event::Failed { cause: "exit status: 1".to_string() }).unwrap();
    match a {
        Action::Respond { status, body } => {
            assert_eq!(status, 500);
            assert_eq!(
                body,
                "{\"status\":\"error\",\"message\":\"Failed to generate proof: exit status: 1\"}"
            );
        }
        _ => panic!("a failed witness generation must end the request"),
    }
}

#[test]
fn prover_failure_yields_500() {
    let (s, _) = prove_handler(request("bp1", "p1", "{}"));
    let (s, _) = prove_session_step(s, Event::DirExists { exists: true }).unwrap();
    let (s, _) = prove_session_step(s, Event::Done).unwrap();
    let (s, _) = prove_session_step(s, Event::Done).unwrap();
    let (_, a) =
        prove_session_step(s, Event::Failed { cause: "exit status: 2".to_string() }).unwrap();
    match a {
        Action::Respond { status, .. } => assert_eq!(status, 500),
        _ => panic!("a failed proving step must end the request"),
    }
}

#[test]
fn malformed_prover_output_yields_500() {
    let (s, _) = prove_handler(request("bp1", "p1", "{}"));
    let (s, _) = prove_session_step(s, Event::DirExists { exists: true }).unwrap();
    let (s, _) = prove_session_step(s, Event::Done).unwrap();
    let (s, _) = prove_session_step(s, Event::Done).unwrap();
    let (s, _) = prove_session_step(s, Event::Done).unwrap();
    let (s, _) =
        prove_session_step(s, Event::FileRead { contents: "not json".to_string() }).unwrap();
    let (_, a) =
        prove_session_step(s, Event::FileRead { contents: PUBLIC_TEXT.to_string() }).unwrap();
    match a {
        Action::Respond { status, body } => {
            assert_eq!(status, 500);
            assert_eq!(
                body,
                "{\"status\":\"error\",\"message\":\"Failed to read proof and public data: malformed proof or public data\"}"
            );
        }
        _ => panic!("malformed prover output must end the request"),
    }
}

#[test]
fn push_flow_uploads_both_results_and_removes_the_directory() {
    let req = ProveAndPushRequest {
        blueprint_id: "bp9".to_string(),
        input_download_url: "https://example.com/input.json".to_string(),
        zkey_download_url: "https://example.com/keys.zip".to_string(),
        circuit_cpp_download_url: "https://example.com/circuit.zip".to_string(),
        proof_destination_url: "https://sink.example.com/proof".to_string(),
        public_destination_url: "https://sink.example.com/public".to_string(),
    };
    let (s, a) = prove_and_push_handler(req);
    match &a {
        Action::CreateDir { path } => assert_eq!(path, "artifacts/bp9"),
        _ => panic!("expected directory creation"),
    }
    let (s, a) = push_session_step(s, Event::Done).unwrap();
    match &a {
        Action::Download { url, dest } => {
            assert_eq!(url, "https://example.com/input.json");
            assert_eq!(dest, "artifacts/bp9/input.json");
        }
        _ => panic!("expected the input download"),
    }
    let (s, a) = push_session_step(s, Event::Done).unwrap();
    match &a {
        Action::Download { dest, .. } => assert_eq!(dest, "artifacts/bp9/compiled_circuit.zip"),
        _ => panic!("expected the circuit download"),
    }
    let (s, a) = push_session_step(s, Event::Done).unwrap();
    match &a {
        Action::Download { dest, .. } => assert_eq!(dest, "artifacts/bp9/keys.zip"),
        _ => panic!("expected the keys download"),
    }
    let (s, a) = push_session_step(s, Event::Done).unwrap();
    match &a {
        Action::Run { command } => {
            assert_eq!(command.args, vec!["-o".to_string(), "keys.zip".to_string()])
        }
        _ => panic!("expected the keys extraction"),
    }
    let (s, a) = push_session_step(s, Event::Done).unwrap();
    match &a {
        Action::Run { command } => {
            assert_eq!(
                command.args,
                vec!["-o".to_string(), "compiled_circuit.zip".to_string()]
            )
        }
        _ => panic!("expected the circuit extraction"),
    }
    let (s, a) = push_session_step(s, Event::Done).unwrap();
    match &a {
        Action::Run { command } => {
            assert_eq!(command.program, "./circuit");
            assert_eq!(command.args, vec!["input.json".to_string(), "witness.wtns".to_string()]);
        }
        _ => panic!("expected witness generation"),
    }
    let (s, a) = push_session_step(s, Event::Done).unwrap();
    match &a {
        Action::Run { command } => assert_eq!(command.program, "prover"),
        _ => panic!("expected proving"),
    }
    let (s, a) = push_session_step(s, Event::Done).unwrap();
    match &a {
        Action::Upload { url, source } => {
            assert_eq!(url, "https://sink.example.com/proof");
            assert_eq!(source, "artifacts/bp9/proof.json");
        }
        _ => panic!("expected the proof upload"),
    }
    let (s, a) = push_session_step(s, Event::Done).unwrap();
    match &a {
        Action::Upload { url, source } => {
            assert_eq!(url, "https://sink.example.com/public");
            assert_eq!(source, "artifacts/bp9/public.json");
        }
        _ => panic!("expected the public upload"),
    }
    let (s, a) = push_session_step(s, Event::Done).unwrap();
    match &a {
        Action::RemoveDirAll { path } => assert_eq!(path, "artifacts/bp9"),
        _ => panic!("expected whole-directory cleanup"),
    }
    let (_, a) = push_session_step(s, Event::Done).unwrap();
    match a {
        Action::Respond { status, body } => {
            assert_eq!(status, 200);
            assert_eq!(
                body,
                "{\"status\":\"success\",\"message\":\"Proof generated and uploaded successfully\"}"
            );
        }
        _ => panic!("expected the acknowledgement"),
    }
}

#[test]
fn push_upload_failures_are_distinguished() {
    let req = ProveAndPushRequest {
        blueprint_id: "bp9".to_string(),
        input_download_url: "u1".to_string(),
        zkey_download_url: "u2".to_string(),
        circuit_cpp_download_url: "u3".to_string(),
        proof_destination_url: "d1".to_string(),
        public_destination_url: "d2".to_string(),
    };
    let (s, _) = prove_and_push_handler(req);
    let mut s = s;
    for _ in 0..8 {
        let (next, _) = push_session_step(s, Event::Done).unwrap();
        s = next;
    }
    let (_, a) = push_session_step(s, Event::Failed { cause: "refused".to_string() }).unwrap();
    match a {
        Action::Respond { status, body } => {
            assert_eq!(status, 500);
            assert_eq!(
                body,
                "{\"status\":\"error\",\"message\":\"Failed to upload proof: refused\"}"
            );
        }
        _ => panic!("a failed upload must end the request"),
    }
}

#[test]
fn push_input_download_failure_is_400() {
    let req = ProveAndPushRequest {
        blueprint_id: "bp9".to_string(),
        input_download_url: "u1".to_string(),
        zkey_download_url: "u2".to_string(),
        circuit_cpp_download_url: "u3".to_string(),
        proof_destination_url: "d1".to_string(),
        public_destination_url: "d2".to_string(),
    };
    let (s, _) = prove_and_push_handler(req);
    let (s, _) = push_session_step(s, Event::Done).unwrap();
    let (_, a) = push_session_step(s, Event::Failed { cause: "timeout".to_string() }).unwrap();
    match a {
        Action::Respond { status, body } => {
            assert_eq!(status, 400);
            assert_eq!(
                body,
                "{\"status\":\"error\",\"message\":\"Failed to download input: timeout\"}"
            );
        }
        _ => panic!("a failed input download must end the request"),
    }
}

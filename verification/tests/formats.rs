use prover_service::errors::ProveError;
use prover_service::json::json_text_ok;
use prover_service::prove::{cleanup, prove, read_proof_and_public_data, Proof, PublicOutputs};
use prover_service::wire::{parse_proof, parse_public, render_proof, render_public};

#[test]
fn json_checker_accepts_valid_documents() {
    assert!(json_text_ok("{\"a\":1,\"b\":2}"));
    assert!(json_text_ok("  { \"a\" : [1, 2.5, -3e+2], \"b\" : {\"c\": null} } "));
    assert!(json_text_ok("[]"));
    assert!(json_text_ok("[\"x\", true, false, null]"));
    assert!(json_text_ok("\"a string with \\\" escape and \\u00e9\""));
    assert!(json_text_ok("0"));
    assert!(json_text_ok("-12.5e-3"));
}

#[test]
fn json_checker_rejects_malformed_documents() {
    assert!(!json_text_ok(""));
    assert!(!json_text_ok("{\"a\":1,"));
    assert!(!json_text_ok("{a:1}"));
    assert!(!json_text_ok("[1 2]"));
    assert!(!json_text_ok("01"));
    assert!(!json_text_ok("\"unterminated"));
    assert!(!json_text_ok("\"bad \\escape\""));
    assert!(!json_text_ok("{} extra"));
    assert!(!json_text_ok("{\"a\":1} {\"b\":2}"));
}

#[test]
fn proof_file_parses_with_whitespace_and_curve() {
    let text = " {\n  \"pi_a\" : [\"11\", \"22\", \"1\"],\n  \"pi_b\" : [[\"1\",\"2\"],[\"3\",\"4\"]],\n  \"pi_c\" : [\"5\", \"6\"],\n  \"protocol\" : \"groth16\",\n  \"curve\" : \"bn128\"\n}\n";
    let p = parse_proof(text).expect("well-formed proof file");
    assert_eq!(p.pi_a, vec!["11".to_string(), "22".to_string(), "1".to_string()]);
    assert_eq!(
        p.pi_b,
        vec![
            vec!["1".to_string(), "2".to_string()],
            vec!["3".to_string(), "4".to_string()],
        ]
    );
    assert_eq!(p.pi_c, vec!["5".to_string(), "6".to_string()]);
    assert_eq!(p.protocol, "groth16");
    assert_eq!(p.curve, Some("bn128".to_string()));
}

#[test]
fn proof_file_parses_without_curve() {
    let text = "{\"pi_a\":[\"1\"],\"pi_b\":[[\"2\"]],\"pi_c\":[\"3\"],\"protocol\":\"groth16\"}";
    let p = parse_proof(text).expect("well-formed proof file");
    assert_eq!(p.curve, None);
    assert_eq!(p.protocol, "groth16");
}

#[test]
fn proof_file_rejects_malformed_texts() {
    assert!(parse_proof("").is_none());
    assert!(parse_proof("{}").is_none());
    assert!(parse_proof("{\"pi_a\":[\"1\"]}").is_none());
    assert!(parse_proof(
        "{\"pi_a\":[\"1\"],\"pi_b\":[[\"2\"]],\"pi_c\":[\"3\"],\"protocol\":\"groth16\"} x"
    )
    .is_none());
    assert!(parse_proof(
        "{\"pi_b\":[[\"2\"]],\"pi_a\":[\"1\"],\"pi_c\":[\"3\"],\"protocol\":\"groth16\"}"
    )
    .is_none());
}

#[test]
fn public_file_parses_bare_arrays() {
    let o = parse_public(" [\"123\", \"456\"] ").expect("well-formed public file");
    assert_eq!(o.0, vec!["123".to_string(), "456".to_string()]);
    let empty = parse_public("[]").expect("empty array");
    assert_eq!(empty.0, Vec::<String>::new());
    assert!(parse_public("[\"1\",]").is_none());
    assert!(parse_public("{\"outputs\":[\"1\"]}").is_none());
}

#[test]
fn proof_round_trip_is_identity() {
    let text = "{\"pi_a\":[\"11\",\"22\"],\"pi_b\":[[\"1\",\"2\"],[\"3\",\"4\"]],\"pi_c\":[\"5\"],\"protocol\":\"groth16\",\"curve\":\"bn128\"}";
    let p = parse_proof(text).expect("parse");
    let rendered = render_proof(&p);
    assert_eq!(rendered, text);
    let p2 = parse_proof(&rendered).expect("reparse");
    assert_eq!(p.pi_a, p2.pi_a);
    assert_eq!(p.pi_b, p2.pi_b);
    assert_eq!(p.pi_c, p2.pi_c);
    assert_eq!(p.protocol, p2.protocol);
    assert_eq!(p.curve, p2.curve);
}

#[test]
fn public_round_trip_is_identity() {
    let o = PublicOutputs(vec!["7".to_string(), "8".to_string()]);
    let rendered = render_public(&o);
    assert_eq!(rendered, "[\"7\",\"8\"]");
    let o2 = parse_public(&rendered).expect("reparse");
    assert_eq!(o.0, o2.0);
}

#[test]
fn read_proof_and_public_data_requires_both_files() {
    let proof_text = "{\"pi_a\":[\"1\"],\"pi_b\":[[\"2\"]],\"pi_c\":[\"3\"],\"protocol\":\"groth16\"}";
    let public_text = "[\"9\"]";
    let (p, o) = read_proof_and_public_data(proof_text, public_text).expect("both well-formed");
    assert_eq!(p.protocol, "groth16");
    assert_eq!(o.0, vec!["9".to_string()]);
    assert!(read_proof_and_public_data("nonsense", public_text).is_none());
    assert!(read_proof_and_public_data(proof_text, "nonsense").is_none());
}

#[test]
fn prove_returns_witness_then_prover_command() {
    let cmds = prove("artifacts/bp1", "p7");
    assert_eq!(cmds.len(), 2);
    assert_eq!(cmds[0].program, "./circuit");
    assert_eq!(cmds[0].args, vec!["input_p7.json".to_string(), "witness_p7.wtns".to_string()]);
    assert_eq!(cmds[0].cwd, Some("artifacts/bp1".to_string()));
    assert_eq!(cmds[1].program, "prover");
    assert_eq!(
        cmds[1].args,
        vec![
            "circuit.zkey".to_string(),
            "witness_p7.wtns".to_string(),
            "proof_p7.json".to_string(),
            "public_p7.json".to_string(),
        ]
    );
    assert_eq!(cmds[1].cwd, Some("artifacts/bp1".to_string()));
}

#[test]
fn cleanup_lists_only_the_per_proof_files() {
    let files = cleanup("artifacts/bp1", "p7");
    assert_eq!(
        files,
        vec![
            "artifacts/bp1/input_p7.json".to_string(),
            "artifacts/bp1/witness_p7.wtns".to_string(),
            "artifacts/bp1/proof_p7.json".to_string(),
            "artifacts/bp1/public_p7.json".to_string(),
        ]
    );
    for f in &files {
        assert_ne!(f, "artifacts/bp1/circuit_cpp.zip");
        assert_ne!(f, "artifacts/bp1/zkey.zip");
        assert_ne!(f, "artifacts/bp1/circuit.zkey");
        assert_ne!(f, "artifacts/bp1/circuit");
    }
}

#[test]
fn cleanup_files_of_distinct_proofs_do_not_collide() {
    let a = cleanup("artifacts/bp1", "p1");
    let b = cleanup("artifacts/bp1", "p2");
    for f in &a {
        assert!(!b.contains(f));
    }
}

#[test]
fn error_messages_and_statuses_follow_the_taxonomy() {
    let cases: Vec<(ProveError, u16, &str)> = vec![
        (
            ProveError::CreateDirError("denied".to_string()),
            500,
            "Failed to create directory: denied",
        ),
        (
            ProveError::DownloadInputError("404".to_string()),
            400,
            "Failed to download input: 404",
        ),
        (ProveError::DownloadKeysError("404".to_string()), 400, "Failed to download keys: 404"),
        (
            ProveError::DownloadCircuitError("404".to_string()),
            400,
            "Failed to download compiled circuit: 404",
        ),
        (
            ProveError::GenerateProofError("exit 1".to_string()),
            500,
            "Failed to generate proof: exit 1",
        ),
        (
            ProveError::ReadProofError("missing".to_string()),
            500,
            "Failed to read proof and public data: missing",
        ),
        (ProveError::JsonError("bad".to_string()), 400, "Failed to parse JSON: bad"),
        (
            ProveError::UnzipCircuitError("corrupt".to_string()),
            500,
            "Failed to unzip compiled circuit: corrupt",
        ),
        (ProveError::UnzipKeysError("corrupt".to_string()), 500, "Failed to unzip keys: corrupt"),
        (ProveError::UploadProofError("refused".to_string()), 500, "Failed to upload proof: refused"),
        (
            ProveError::UploadPublicError("refused".to_string()),
            500,
            "Failed to upload public outputs: refused",
        ),
        (ProveError::Cleanup("busy".to_string()), 500, "Failed to clean up: busy"),
    ];
    for (err, status, message) in cases {
        assert_eq!(err.status_code(), status);
        assert_eq!(err.message(), message);
        let (s, body) = err.into_response();
        assert_eq!(s, status);
        assert_eq!(
            body,
            format!("{{\"status\":\"error\",\"message\":\"{}\"}}", message)
        );
    }
}

#[test]
fn error_body_escapes_the_cause() {
    let err = ProveError::GenerateProofError("a \"quoted\" \\ cause\nwith\tcontrol \u{1}".to_string());
    let (_, body) = err.into_response();
    assert_eq!(
        body,
        "{\"status\":\"error\",\"message\":\"Failed to generate proof: a \\\"quoted\\\" \\\\ cause\\nwith\\tcontrol \\u0001\"}"
    );
}

#[test]
fn render_proof_quotes_every_component() {
    let p = Proof {
        pi_a: vec!["1".to_string(), "2".to_string()],
        pi_b: vec![vec!["3".to_string()], vec!["4".to_string()]],
        pi_c: vec![],
        protocol: "groth16".to_string(),
        curve: None,
    };
    assert_eq!(
        render_proof(&p),
        "{\"pi_a\":[\"1\",\"2\"],\"pi_b\":[[\"3\"],[\"4\"]],\"pi_c\":[],\"protocol\":\"groth16\"}"
    );
}

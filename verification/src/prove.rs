//! The proof-orchestration engine's data and plans: the proof and
//! public-outputs structures read back from the prover, the exact external
//! commands that produce them, and the selective cleanup of a proof's
//! transient files.
//!
//! The service itself never runs a subprocess: `prove` and `cleanup` return
//! the precise commands and paths, and the process edge carries them out,
//! reporting each outcome back to the request's session.

use vstd::prelude::*;
use crate::names::{
    input_file_name_spec, witness_file_name_spec, proof_file_name_spec, public_file_name_spec,
    path_join_spec, input_file_name, witness_file_name, proof_file_name, public_file_name,
    path_join, lemma_path_join_injective, lemma_per_proof_names_not_shared,
};

verus! {

/// The mathematical content of a proof: the three curve-point components,
/// the protocol name, and the optional curve name, each string given as its
/// raw JSON string-literal content.
pub ghost struct ProofModel {
    pub pi_a: Seq<Seq<char>>,
    pub pi_b: Seq<Seq<Seq<char>>>,
    pub pi_c: Seq<Seq<char>>,
    pub protocol: Seq<char>,
    pub curve: Option<Seq<char>>,
}

/// The cryptographic proof object, read verbatim from the prover's output
/// file and never validated or re-derived here.
pub struct Proof {
    pub pi_a: Vec<String>,
    pub pi_b: Vec<Vec<String>>,
    pub pi_c: Vec<String>,
    pub protocol: String,
    pub curve: Option<String>,
}

impl View for Proof {
    type V = ProofModel;

    open spec fn view(&self) -> ProofModel {
        ProofModel {
            pi_a: self.pi_a.deep_view(),
            pi_b: self.pi_b.deep_view(),
            pi_c: self.pi_c.deep_view(),
            protocol: self.protocol@,
            curve: self.curve.deep_view(),
        }
    }
}

/// The ordered public signal values a proof attests to.
pub struct PublicOutputs(pub Vec<String>);

impl View for PublicOutputs {
    type V = Seq<Seq<char>>;

    open spec fn view(&self) -> Seq<Seq<char>> {
        self.0.deep_view()
    }
}

/// The mathematical content of one external command invocation.
#[verifier::ext_equal]
pub ghost struct CommandModel {
    pub program: Seq<char>,
    pub args: Seq<Seq<char>>,
    pub cwd: Option<Seq<char>>,
}

/// One external command: a program, its arguments, and the directory to run
/// it in. The process edge spawns it, waits, and reports whether it exited
/// with status zero.
pub struct Command {
    pub program: String,
    pub args: Vec<String>,
    pub cwd: Option<String>,
}

impl View for Command {
    type V = CommandModel;

    open spec fn view(&self) -> CommandModel {
        CommandModel {
            program: self.program@,
            args: self.args.deep_view(),
            cwd: self.cwd.deep_view(),
        }
    }
}

/// The witness-generation command for one proof: the circuit executable run
/// inside the blueprint directory, reading the proof's input document and
/// writing its witness.
pub open spec fn witness_command_spec(blueprint_path: Seq<char>, proof_id: Seq<char>) -> CommandModel {
    CommandModel {
        program: "./circuit"@,
        args: seq![input_file_name_spec(proof_id), witness_file_name_spec(proof_id)],
        cwd: Some(blueprint_path),
    }
}

/// The proving command for one proof: the prover run inside the blueprint
/// directory on the shared proving key and the proof's witness, writing the
/// proof's proof and public-outputs files.
pub open spec fn prover_command_spec(blueprint_path: Seq<char>, proof_id: Seq<char>) -> CommandModel {
    CommandModel {
        program: "prover"@,
        args: seq![
            "circuit.zkey"@,
            witness_file_name_spec(proof_id),
            proof_file_name_spec(proof_id),
            public_file_name_spec(proof_id),
        ],
        cwd: Some(blueprint_path),
    }
}

pub fn witness_command(blueprint_path: &str, proof_id: &str) -> (r: Command)
    ensures
        r@ == witness_command_spec(blueprint_path@, proof_id@),
{
    let mut witness_args: Vec<String> = Vec::new();
    witness_args.push(input_file_name(proof_id));
    witness_args.push(witness_file_name(proof_id));
    let r = Command {
        program: String::from_str("./circuit"),
        args: witness_args,
        cwd: Some(String::from_str(blueprint_path)),
    };
    proof {
        assert(r@ =~= witness_command_spec(blueprint_path@, proof_id@));
    }
    r
}

pub fn prover_command(blueprint_path: &str, proof_id: &str) -> (r: Command)
    ensures
        r@ == prover_command_spec(blueprint_path@, proof_id@),
{
    let mut prover_args: Vec<String> = Vec::new();
    prover_args.push(String::from_str("circuit.zkey"));
    prover_args.push(witness_file_name(proof_id));
    prover_args.push(proof_file_name(proof_id));
    prover_args.push(public_file_name(proof_id));
    let r = Command {
        program: String::from_str("prover"),
        args: prover_args,
        cwd: Some(String::from_str(blueprint_path)),
    };
    proof {
        assert(r@ =~= prover_command_spec(blueprint_path@, proof_id@));
    }
    r
}

/// The proving sequence for one proof inside an already-populated blueprint
/// directory: first the witness generator, then the prover, both run with
/// the blueprint directory as working directory, in order, each required to
/// succeed. Witness, proof and public files embed the proof identifier.
pub fn prove(blueprint_path: &str, proof_id: &str) -> (r: Vec<Command>)
    ensures
        r@.len() == 2,
        r@[0]@ == witness_command_spec(blueprint_path@, proof_id@),
        r@[1]@ == prover_command_spec(blueprint_path@, proof_id@),
{
    let mut r: Vec<Command> = Vec::new();
    r.push(witness_command(blueprint_path, proof_id));
    r.push(prover_command(blueprint_path, proof_id));
    r
}

/// The selective cleanup policy for a cached, shared blueprint directory:
/// exactly the four per-proof transient files — input, witness, proof and
/// public outputs — and nothing else.
pub fn cleanup(artifacts_dir: &str, proof_id: &str) -> (r: Vec<String>)
    ensures
        r.deep_view() =~= seq![
            path_join_spec(artifacts_dir@, input_file_name_spec(proof_id@)),
            path_join_spec(artifacts_dir@, witness_file_name_spec(proof_id@)),
            path_join_spec(artifacts_dir@, proof_file_name_spec(proof_id@)),
            path_join_spec(artifacts_dir@, public_file_name_spec(proof_id@)),
        ],
{
    let mut r: Vec<String> = Vec::new();
    let f = input_file_name(proof_id);
    r.push(path_join(artifacts_dir, f.as_str()));
    let f = witness_file_name(proof_id);
    r.push(path_join(artifacts_dir, f.as_str()));
    let f = proof_file_name(proof_id);
    r.push(path_join(artifacts_dir, f.as_str()));
    let f = public_file_name(proof_id);
    r.push(path_join(artifacts_dir, f.as_str()));
    r
}

/// Reads the proof and public outputs back from the texts of the prover's
/// two output files. Yields the pair exactly when both texts match their
/// wire grammars, and nothing when either is malformed.
pub fn read_proof_and_public_data(proof_text: &str, public_text: &str) -> (r: Option<
    (Proof, PublicOutputs),
>)
    ensures
        match r {
            Some(p) => crate::wire::sp_parse_proof(proof_text@) == Some(p.0@)
                && crate::wire::sp_parse_public(public_text@) == Some(p.1@),
            None => crate::wire::sp_parse_proof(proof_text@) is None
                || crate::wire::sp_parse_public(public_text@) is None,
        },
{
    match crate::wire::parse_proof(proof_text) {
        None => None,
        Some(proof) => match crate::wire::parse_public(public_text) {
            None => None,
            Some(public) => Some((proof, public)),
        },
    }
}

proof fn lemma_join_ne(dir: Seq<char>, a: Seq<char>, b: Seq<char>)
    requires
        a != b,
    ensures
        path_join_spec(dir, a) != path_join_spec(dir, b),
{
    if path_join_spec(dir, a) == path_join_spec(dir, b) {
        lemma_path_join_injective(dir, a, b);
    }
}

/// The selective cleanup never touches the blueprint's shared contents: none
/// of the four per-proof paths is the path of a downloaded archive, of the
/// proving key, or of the circuit executable.
pub proof fn lemma_cleanup_spares_shared(dir: Seq<char>, id: Seq<char>)
    ensures
        forall|name: Seq<char>|
            (name == input_file_name_spec(id) || name == witness_file_name_spec(id) || name
                == proof_file_name_spec(id) || name == public_file_name_spec(id)) ==> (
            #[trigger] path_join_spec(dir, name) != path_join_spec(dir, "circuit_cpp.zip"@)
                && path_join_spec(dir, name) != path_join_spec(dir, "zkey.zip"@)
                && path_join_spec(dir, name) != path_join_spec(dir, "circuit.zkey"@)
                && path_join_spec(dir, name) != path_join_spec(dir, "circuit"@)),
{
    lemma_per_proof_names_not_shared(id);
    assert forall|name: Seq<char>|
        (name == input_file_name_spec(id) || name == witness_file_name_spec(id) || name
            == proof_file_name_spec(id) || name == public_file_name_spec(id)) implies (
    #[trigger] path_join_spec(dir, name) != path_join_spec(dir, "circuit_cpp.zip"@)
        && path_join_spec(dir, name) != path_join_spec(dir, "zkey.zip"@)
        && path_join_spec(dir, name) != path_join_spec(dir, "circuit.zkey"@)
        && path_join_spec(dir, name) != path_join_spec(dir, "circuit"@)) by {
        lemma_join_ne(dir, name, "circuit_cpp.zip"@);
        lemma_join_ne(dir, name, "zkey.zip"@);
        lemma_join_ne(dir, name, "circuit.zkey"@);
        lemma_join_ne(dir, name, "circuit"@);
    }
}

} // verus!

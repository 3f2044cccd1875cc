//! The request handlers, written as state machines. A handler decides; the
//! process edge acts. Each step consumes the outcome of the previous action
//! (an event) and yields the next state together with the next action, until
//! the action is a response. Every download, subprocess run, file access and
//! upload therefore happens outside this library, while the order of the
//! steps, the exact commands and paths, and the mapping of every failure to
//! its HTTP response are decided — and verified — here.

use vstd::prelude::*;
use crate::errors::{ProveError, error_body_spec, OK, BAD_REQUEST, INTERNAL_SERVER_ERROR};
use crate::json::{json_text_ok, json_text_ok_spec};
use crate::names::{
    blueprint_path, blueprint_path_spec, input_file_name, input_file_name_spec, witness_file_name,
    witness_file_name_spec, proof_file_name, proof_file_name_spec, public_file_name,
    public_file_name_spec, path_join, path_join_spec,
};
use crate::prove::{
    Command, CommandModel, Proof, PublicOutputs, witness_command, witness_command_spec,
    prover_command, prover_command_spec, read_proof_and_public_data,
};
use crate::wire::{sp_parse_proof, sp_parse_public, prove_response_body_spec, render_prove_response};

verus! {

/// The caller's payload for a prove request: the blueprint to prove
/// against, the identifier of this proof within it, the circuit input
/// document as raw JSON text, and the locations of the key and circuit
/// archives.
pub struct ProveRequest {
    pub blueprint_id: String,
    pub proof_id: String,
    pub input: String,
    pub zkey_download_url: String,
    pub circuit_cpp_download_url: String,
}

#[verifier::ext_equal]
pub ghost struct ProveRequestModel {
    pub blueprint_id: Seq<char>,
    pub proof_id: Seq<char>,
    pub input: Seq<char>,
    pub zkey_download_url: Seq<char>,
    pub circuit_cpp_download_url: Seq<char>,
}

impl View for ProveRequest {
    type V = ProveRequestModel;

    open spec fn view(&self) -> ProveRequestModel {
        ProveRequestModel {
            blueprint_id: self.blueprint_id@,
            proof_id: self.proof_id@,
            input: self.input@,
            zkey_download_url: self.zkey_download_url@,
            circuit_cpp_download_url: self.circuit_cpp_download_url@,
        }
    }
}

/// The successful result of a prove request.
pub struct ProveResponse {
    pub proof: Proof,
    pub public_outputs: PublicOutputs,
}

impl ProveResponse {
    /// The response's wire body: the proof and the public outputs, each in
    /// its canonical file form.
    pub fn body(&self) -> (r: String)
        ensures
            r@ == prove_response_body_spec(self.proof@, self.public_outputs@),
    {
        render_prove_response(&self.proof, &self.public_outputs)
    }
}

/// One action the process edge must carry out for a session, reporting its
/// outcome back as an event. `Respond` ends the session.
pub enum Action {
    CheckDir { path: String },
    CreateDir { path: String },
    Download { url: String, dest: String },
    Run { command: Command },
    WriteFile { path: String, contents: String },
    ReadFile { path: String },
    RemoveFile { path: String },
    RemoveDirAll { path: String },
    Upload { url: String, source: String },
    Respond { status: u16, body: String },
}

#[verifier::ext_equal]
pub ghost enum ActionModel {
    CheckDir { path: Seq<char> },
    CreateDir { path: Seq<char> },
    Download { url: Seq<char>, dest: Seq<char> },
    Run { command: CommandModel },
    WriteFile { path: Seq<char>, contents: Seq<char> },
    ReadFile { path: Seq<char> },
    RemoveFile { path: Seq<char> },
    RemoveDirAll { path: Seq<char> },
    Upload { url: Seq<char>, source: Seq<char> },
    Respond { status: u16, body: Seq<char> },
}

impl View for Action {
    type V = ActionModel;

    open spec fn view(&self) -> ActionModel {
        match self {
            Action::CheckDir { path } => ActionModel::CheckDir { path: path@ },
            Action::CreateDir { path } => ActionModel::CreateDir { path: path@ },
            Action::Download { url, dest } => ActionModel::Download { url: url@, dest: dest@ },
            Action::Run { command } => ActionModel::Run { command: command@ },
            Action::WriteFile { path, contents } => ActionModel::WriteFile {
                path: path@,
                contents: contents@,
            },
            Action::ReadFile { path } => ActionModel::ReadFile { path: path@ },
            Action::RemoveFile { path } => ActionModel::RemoveFile { path: path@ },
            Action::RemoveDirAll { path } => ActionModel::RemoveDirAll { path: path@ },
            Action::Upload { url, source } => ActionModel::Upload { url: url@, source: source@ },
            Action::Respond { status, body } => ActionModel::Respond {
                status: *status,
                body: body@,
            },
        }
    }
}

/// The outcome of an action, as the process edge reports it: whether a
/// directory existed, plain success or failure, or the contents of a read
/// file.
pub enum Event {
    DirExists { exists: bool },
    Done,
    Failed { cause: String },
    FileRead { contents: String },
}

#[verifier::ext_equal]
pub ghost enum EventModel {
    DirExists { exists: bool },
    Done,
    Failed { cause: Seq<char> },
    FileRead { contents: Seq<char> },
}

impl View for Event {
    type V = EventModel;

    open spec fn view(&self) -> EventModel {
        match self {
            Event::DirExists { exists } => EventModel::DirExists { exists: *exists },
            Event::Done => EventModel::Done,
            Event::Failed { cause } => EventModel::Failed { cause: cause@ },
            Event::FileRead { contents } => EventModel::FileRead { contents: contents@ },
        }
    }
}

/// The states of one prove request against a cached blueprint: each awaits
/// the outcome of the action that was issued on entering it.
pub enum ProveSession {
    AwaitDirCheck { req: ProveRequest },
    AwaitCreateDir { req: ProveRequest },
    AwaitCircuitDownload { req: ProveRequest },
    AwaitKeysDownload { req: ProveRequest },
    AwaitUnzipCircuit { req: ProveRequest },
    AwaitUnzipKeys { req: ProveRequest },
    AwaitInputWrite { req: ProveRequest },
    AwaitWitness { req: ProveRequest },
    AwaitProver { req: ProveRequest },
    AwaitProofRead { req: ProveRequest },
    AwaitPublicRead { req: ProveRequest, proof_text: String },
    AwaitCleanupInput { req: ProveRequest, body: String },
    AwaitCleanupWitness { req: ProveRequest, body: String },
    AwaitCleanupProof { req: ProveRequest, body: String },
    AwaitCleanupPublic { req: ProveRequest, body: String },
    Finished,
}

#[verifier::ext_equal]
pub ghost enum ProveSessionModel {
    AwaitDirCheck { req: ProveRequestModel },
    AwaitCreateDir { req: ProveRequestModel },
    AwaitCircuitDownload { req: ProveRequestModel },
    AwaitKeysDownload { req: ProveRequestModel },
    AwaitUnzipCircuit { req: ProveRequestModel },
    AwaitUnzipKeys { req: ProveRequestModel },
    AwaitInputWrite { req: ProveRequestModel },
    AwaitWitness { req: ProveRequestModel },
    AwaitProver { req: ProveRequestModel },
    AwaitProofRead { req: ProveRequestModel },
    AwaitPublicRead { req: ProveRequestModel, proof_text: Seq<char> },
    AwaitCleanupInput { req: ProveRequestModel, body: Seq<char> },
    AwaitCleanupWitness { req: ProveRequestModel, body: Seq<char> },
    AwaitCleanupProof { req: ProveRequestModel, body: Seq<char> },
    AwaitCleanupPublic { req: ProveRequestModel, body: Seq<char> },
    Finished,
}

impl View for ProveSession {
    type V = ProveSessionModel;

    open spec fn view(&self) -> ProveSessionModel {
        match self {
            ProveSession::AwaitDirCheck { req } => ProveSessionModel::AwaitDirCheck { req: req@ },
            ProveSession::AwaitCreateDir { req } => ProveSessionModel::AwaitCreateDir {
                req: req@,
            },
            ProveSession::AwaitCircuitDownload { req } => ProveSessionModel::AwaitCircuitDownload {
                req: req@,
            },
            ProveSession::AwaitKeysDownload { req } => ProveSessionModel::AwaitKeysDownload {
                req: req@,
            },
            ProveSession::AwaitUnzipCircuit { req } => ProveSessionModel::AwaitUnzipCircuit {
                req: req@,
            },
            ProveSession::AwaitUnzipKeys { req } => ProveSessionModel::AwaitUnzipKeys {
                req: req@,
            },
            ProveSession::AwaitInputWrite { req } => ProveSessionModel::AwaitInputWrite {
                req: req@,
            },
            ProveSession::AwaitWitness { req } => ProveSessionModel::AwaitWitness { req: req@ },
            ProveSession::AwaitProver { req } => ProveSessionModel::AwaitProver { req: req@ },
            ProveSession::AwaitProofRead { req } => ProveSessionModel::AwaitProofRead {
                req: req@,
            },
            ProveSession::AwaitPublicRead { req, proof_text } => ProveSessionModel::AwaitPublicRead {
                req: req@,
                proof_text: proof_text@,
            },
            ProveSession::AwaitCleanupInput { req, body } => ProveSessionModel::AwaitCleanupInput {
                req: req@,
                body: body@,
            },
            ProveSession::AwaitCleanupWitness {
                req,
                body,
            } => ProveSessionModel::AwaitCleanupWitness { req: req@, body: body@ },
            ProveSession::AwaitCleanupProof { req, body } => ProveSessionModel::AwaitCleanupProof {
                req: req@,
                body: body@,
            },
            ProveSession::AwaitCleanupPublic {
                req,
                body,
            } => ProveSessionModel::AwaitCleanupPublic { req: req@, body: body@ },
            ProveSession::Finished => ProveSessionModel::Finished,
        }
    }
}

/// A response action carrying the rendered form of the given error.
pub open spec fn error_respond_spec(status: u16, message: Seq<char>) -> ActionModel {
    ActionModel::Respond { status, body: error_body_spec(message) }
}

/// The first step of a prove request: reject a malformed input document at
/// once; otherwise look for the blueprint's cached directory.
pub open spec fn prove_start_spec(req: ProveRequestModel) -> (ProveSessionModel, ActionModel) {
    if json_text_ok_spec(req.input) {
        (
            ProveSessionModel::AwaitDirCheck { req },
            ActionModel::CheckDir { path: blueprint_path_spec(req.blueprint_id) },
        )
    } else {
        (
            ProveSessionModel::Finished,
            error_respond_spec(
                BAD_REQUEST,
                "Failed to parse JSON: "@ + "invalid input document"@,
            ),
        )
    }
}

/// The transition relation of a prove session: from the state awaiting an
/// action's outcome and that outcome, to the next state and action. An
/// event of the wrong kind for the state yields nothing.
pub open spec fn prove_step_spec(s: ProveSessionModel, e: EventModel) -> Option<
    (ProveSessionModel, ActionModel),
> {
    let bp = match s {
        ProveSessionModel::AwaitDirCheck { req } => blueprint_path_spec(req.blueprint_id),
        ProveSessionModel::AwaitCreateDir { req } => blueprint_path_spec(req.blueprint_id),
        ProveSessionModel::AwaitCircuitDownload { req } => blueprint_path_spec(req.blueprint_id),
        ProveSessionModel::AwaitKeysDownload { req } => blueprint_path_spec(req.blueprint_id),
        ProveSessionModel::AwaitUnzipCircuit { req } => blueprint_path_spec(req.blueprint_id),
        ProveSessionModel::AwaitUnzipKeys { req } => blueprint_path_spec(req.blueprint_id),
        ProveSessionModel::AwaitInputWrite { req } => blueprint_path_spec(req.blueprint_id),
        ProveSessionModel::AwaitWitness { req } => blueprint_path_spec(req.blueprint_id),
        ProveSessionModel::AwaitProver { req } => blueprint_path_spec(req.blueprint_id),
        ProveSessionModel::AwaitProofRead { req } => blueprint_path_spec(req.blueprint_id),
        ProveSessionModel::AwaitPublicRead { req, .. } => blueprint_path_spec(req.blueprint_id),
        ProveSessionModel::AwaitCleanupInput { req, .. } => blueprint_path_spec(req.blueprint_id),
        ProveSessionModel::AwaitCleanupWitness { req, .. } => blueprint_path_spec(
            req.blueprint_id,
        ),
        ProveSessionModel::AwaitCleanupProof { req, .. } => blueprint_path_spec(req.blueprint_id),
        ProveSessionModel::AwaitCleanupPublic { req, .. } => blueprint_path_spec(req.blueprint_id),
        ProveSessionModel::Finished => Seq::<char>::empty(),
    };
    match (s, e) {
        (
            ProveSessionModel::AwaitDirCheck { req },
            EventModel::DirExists { exists },
        ) => if exists {
            Some(
                (
                    ProveSessionModel::AwaitInputWrite { req },
                    ActionModel::WriteFile {
                        path: path_join_spec(bp, input_file_name_spec(req.proof_id)),
                        contents: req.input,
                    },
                ),
            )
        } else {
            Some(
                (
                    ProveSessionModel::AwaitCreateDir { req },
                    ActionModel::CreateDir { path: bp },
                ),
            )
        },
        (ProveSessionModel::AwaitCreateDir { req }, EventModel::Done) => Some(
            (
                ProveSessionModel::AwaitCircuitDownload { req },
                ActionModel::Download {
                    url: req.circuit_cpp_download_url,
                    dest: path_join_spec(bp, "circuit_cpp.zip"@),
                },
            ),
        ),
        (ProveSessionModel::AwaitCreateDir { req }, EventModel::Failed { cause }) => Some(
            (
                ProveSessionModel::Finished,
                error_respond_spec(
                    INTERNAL_SERVER_ERROR,
                    "Failed to create directory: "@ + cause,
                ),
            ),
        ),
        (ProveSessionModel::AwaitCircuitDownload { req }, EventModel::Done) => Some(
            (
                ProveSessionModel::AwaitKeysDownload { req },
                ActionModel::Download {
                    url: req.zkey_download_url,
                    dest: path_join_spec(bp, "zkey.zip"@),
                },
            ),
        ),
        (ProveSessionModel::AwaitCircuitDownload { req }, EventModel::Failed { cause }) => Some(
            (
                ProveSessionModel::Finished,
                error_respond_spec(
                    BAD_REQUEST,
                    "Failed to download compiled circuit: "@ + cause,
                ),
            ),
        ),
        (ProveSessionModel::AwaitKeysDownload { req }, EventModel::Done) => Some(
            (
                ProveSessionModel::AwaitUnzipCircuit { req },
                ActionModel::Run {
                    command: CommandModel {
                        program: "unzip"@,
                        args: seq!["-o"@, "circuit_cpp.zip"@],
                        cwd: Some(bp),
                    },
                },
            ),
        ),
        (ProveSessionModel::AwaitKeysDownload { req }, EventModel::Failed { cause }) => Some(
            (
                ProveSessionModel::Finished,
                error_respond_spec(BAD_REQUEST, "Failed to download keys: "@ + cause),
            ),
        ),
        (ProveSessionModel::AwaitUnzipCircuit { req }, EventModel::Done) => Some(
            (
                ProveSessionModel::AwaitUnzipKeys { req },
                ActionModel::Run {
                    command: CommandModel {
                        program: "unzip"@,
                        args: seq!["-o"@, "zkey.zip"@],
                        cwd: Some(bp),
                    },
                },
            ),
        ),
        (ProveSessionModel::AwaitUnzipCircuit { req }, EventModel::Failed { cause }) => Some(
            (
                ProveSessionModel::Finished,
                error_respond_spec(
                    INTERNAL_SERVER_ERROR,
                    "Failed to unzip compiled circuit: "@ + cause,
                ),
            ),
        ),
        (ProveSessionModel::AwaitUnzipKeys { req }, EventModel::Done) => Some(
            (
                ProveSessionModel::AwaitInputWrite { req },
                ActionModel::WriteFile {
                    path: path_join_spec(bp, input_file_name_spec(req.proof_id)),
                    contents: req.input,
                },
            ),
        ),
        (ProveSessionModel::AwaitUnzipKeys { req }, EventModel::Failed { cause }) => Some(
            (
                ProveSessionModel::Finished,
                error_respond_spec(INTERNAL_SERVER_ERROR, "Failed to unzip keys: "@ + cause),
            ),
        ),
        (ProveSessionModel::AwaitInputWrite { req }, EventModel::Done) => Some(
            (
                ProveSessionModel::AwaitWitness { req },
                ActionModel::Run { command: witness_command_spec(bp, req.proof_id) },
            ),
        ),
        (ProveSessionModel::AwaitInputWrite { req }, EventModel::Failed { cause }) => Some(
            (
                ProveSessionModel::Finished,
                error_respond_spec(
                    INTERNAL_SERVER_ERROR,
                    "Failed to create directory: "@ + cause,
                ),
            ),
        ),
        (ProveSessionModel::AwaitWitness { req }, EventModel::Done) => Some(
            (
                ProveSessionModel::AwaitProver { req },
                ActionModel::Run { command: prover_command_spec(bp, req.proof_id) },
            ),
        ),
        (ProveSessionModel::AwaitWitness { req }, EventModel::Failed { cause }) => Some(
            (
                ProveSessionModel::Finished,
                error_respond_spec(INTERNAL_SERVER_ERROR, "Failed to generate proof: "@ + cause),
            ),
        ),
        (ProveSessionModel::AwaitProver { req }, EventModel::Done) => Some(
            (
                ProveSessionModel::AwaitProofRead { req },
                ActionModel::ReadFile {
                    path: path_join_spec(bp, proof_file_name_spec(req.proof_id)),
                },
            ),
        ),
        (ProveSessionModel::AwaitProver { req }, EventModel::Failed { cause }) => Some(
            (
                ProveSessionModel::Finished,
                error_respond_spec(INTERNAL_SERVER_ERROR, "Failed to generate proof: "@ + cause),
            ),
        ),
        (ProveSessionModel::AwaitProofRead { req }, EventModel::FileRead { contents }) => Some(
            (
                ProveSessionModel::AwaitPublicRead { req, proof_text: contents },
                ActionModel::ReadFile {
                    path: path_join_spec(bp, public_file_name_spec(req.proof_id)),
                },
            ),
        ),
        (ProveSessionModel::AwaitProofRead { req }, EventModel::Failed { cause }) => Some(
            (
                ProveSessionModel::Finished,
                error_respond_spec(
                    INTERNAL_SERVER_ERROR,
                    "Failed to read proof and public data: "@ + cause,
                ),
            ),
        ),
        (
            ProveSessionModel::AwaitPublicRead { req, proof_text },
            EventModel::FileRead { contents },
        ) => match (sp_parse_proof(proof_text), sp_parse_public(contents)) {
            (Some(pm), Some(om)) => Some(
                (
                    ProveSessionModel::AwaitCleanupInput {
                        req,
                        body: prove_response_body_spec(pm, om),
                    },
                    ActionModel::RemoveFile {
                        path: path_join_spec(bp, input_file_name_spec(req.proof_id)),
                    },
                ),
            ),
            _ => Some(
                (
                    ProveSessionModel::Finished,
                    error_respond_spec(
                        INTERNAL_SERVER_ERROR,
                        "Failed to read proof and public data: "@
                            + "malformed proof or public data"@,
                    ),
                ),
            ),
        },
        (ProveSessionModel::AwaitPublicRead { req, proof_text }, EventModel::Failed { cause }) => {
            Some(
                (
                    ProveSessionModel::Finished,
                    error_respond_spec(
                        INTERNAL_SERVER_ERROR,
                        "Failed to read proof and public data: "@ + cause,
                    ),
                ),
            )
        },
        (ProveSessionModel::AwaitCleanupInput { req, body }, EventModel::Done) => Some(
            (
                ProveSessionModel::AwaitCleanupWitness { req, body },
                ActionModel::RemoveFile {
                    path: path_join_spec(bp, witness_file_name_spec(req.proof_id)),
                },
            ),
        ),
        (ProveSessionModel::AwaitCleanupWitness { req, body }, EventModel::Done) => Some(
            (
                ProveSessionModel::AwaitCleanupProof { req, body },
                ActionModel::RemoveFile {
                    path: path_join_spec(bp, proof_file_name_spec(req.proof_id)),
                },
            ),
        ),
        (ProveSessionModel::AwaitCleanupProof { req, body }, EventModel::Done) => Some(
            (
                ProveSessionModel::AwaitCleanupPublic { req, body },
                ActionModel::RemoveFile {
                    path: path_join_spec(bp, public_file_name_spec(req.proof_id)),
                },
            ),
        ),
        (ProveSessionModel::AwaitCleanupPublic { req, body }, EventModel::Done) => Some(
            (ProveSessionModel::Finished, ActionModel::Respond { status: OK, body }),
        ),
        (ProveSessionModel::AwaitCleanupInput { req, body }, EventModel::Failed { cause }) => Some(
            (
                ProveSessionModel::Finished,
                error_respond_spec(INTERNAL_SERVER_ERROR, "Failed to clean up: "@ + cause),
            ),
        ),
        (
            ProveSessionModel::AwaitCleanupWitness { req, body },
            EventModel::Failed { cause },
        ) => Some(
            (
                ProveSessionModel::Finished,
                error_respond_spec(INTERNAL_SERVER_ERROR, "Failed to clean up: "@ + cause),
            ),
        ),
        (ProveSessionModel::AwaitCleanupProof { req, body }, EventModel::Failed { cause }) => Some(
            (
                ProveSessionModel::Finished,
                error_respond_spec(INTERNAL_SERVER_ERROR, "Failed to clean up: "@ + cause),
            ),
        ),
        (
            ProveSessionModel::AwaitCleanupPublic { req, body },
            EventModel::Failed { cause },
        ) => Some(
            (
                ProveSessionModel::Finished,
                error_respond_spec(INTERNAL_SERVER_ERROR, "Failed to clean up: "@ + cause),
            ),
        ),
        _ => None,
    }
}

/// Opens a prove session: checks the input document and issues the first
/// action.
pub fn prove_handler(req: ProveRequest) -> (r: (ProveSession, Action))
    ensures
        (r.0@, r.1@) == prove_start_spec(req@),
{
    if json_text_ok(req.input.as_str()) {
        let path = blueprint_path(req.blueprint_id.as_str());
        let s = ProveSession::AwaitDirCheck { req };
        (s, Action::CheckDir { path })
    } else {
        let err = ProveError::JsonError(String::from_str("invalid input document"));
        proof {
            assert(err.message_spec() =~= "Failed to parse JSON: "@ + "invalid input document"@);
        }
        let (status, body) = err.into_response();
        (ProveSession::Finished, Action::Respond { status, body })
    }
}

/// Advances a prove session by one event. Yields nothing only when the
/// event's kind does not answer the state's pending action.
pub fn prove_session_step(s: ProveSession, e: Event) -> (r: Option<(ProveSession, Action)>)
    ensures
        match r {
            Some(p) => prove_step_spec(s@, e@) == Some((p.0@, p.1@)),
            None => prove_step_spec(s@, e@) is None,
        },
{
    match (s, e) {
        (ProveSession::AwaitDirCheck { req }, Event::DirExists { exists }) => {
            let bp = blueprint_path(req.blueprint_id.as_str());
            if exists {
                let f = input_file_name(req.proof_id.as_str());
                let path = path_join(bp.as_str(), f.as_str());
                let contents = req.input.clone();
                Some((ProveSession::AwaitInputWrite { req }, Action::WriteFile { path, contents }))
            } else {
                Some((ProveSession::AwaitCreateDir { req }, Action::CreateDir { path: bp }))
            }
        },
        (ProveSession::AwaitCreateDir { req }, Event::Done) => {
            let bp = blueprint_path(req.blueprint_id.as_str());
            let dest = path_join(bp.as_str(), "circuit_cpp.zip");
            let url = req.circuit_cpp_download_url.clone();
            Some((ProveSession::AwaitCircuitDownload { req }, Action::Download { url, dest }))
        },
        (ProveSession::AwaitCreateDir { req }, Event::Failed { cause }) => {
            let (status, body) = ProveError::CreateDirError(cause).into_response();
            Some((ProveSession::Finished, Action::Respond { status, body }))
        },
        (ProveSession::AwaitCircuitDownload { req }, Event::Done) => {
            let bp = blueprint_path(req.blueprint_id.as_str());
            let dest = path_join(bp.as_str(), "zkey.zip");
            let url = req.zkey_download_url.clone();
            Some((ProveSession::AwaitKeysDownload { req }, Action::Download { url, dest }))
        },
        (ProveSession::AwaitCircuitDownload { req }, Event::Failed { cause }) => {
            let (status, body) = ProveError::DownloadCircuitError(cause).into_response();
            Some((ProveSession::Finished, Action::Respond { status, body }))
        },
        (ProveSession::AwaitKeysDownload { req }, Event::Done) => {
            let bp = blueprint_path(req.blueprint_id.as_str());
            let mut args: Vec<String> = Vec::new();
            args.push(String::from_str("-o"));
            args.push(String::from_str("circuit_cpp.zip"));
            let command = Command { program: String::from_str("unzip"), args, cwd: Some(bp) };
            proof {
                assert(command@.args =~= seq!["-o"@, "circuit_cpp.zip"@]);
            }
            Some((ProveSession::AwaitUnzipCircuit { req }, Action::Run { command }))
        },
        (ProveSession::AwaitKeysDownload { req }, Event::Failed { cause }) => {
            let (status, body) = ProveError::DownloadKeysError(cause).into_response();
            Some((ProveSession::Finished, Action::Respond { status, body }))
        },
        (ProveSession::AwaitUnzipCircuit { req }, Event::Done) => {
            let bp = blueprint_path(req.blueprint_id.as_str());
            let mut args: Vec<String> = Vec::new();
            args.push(String::from_str("-o"));
            args.push(String::from_str("zkey.zip"));
            let command = Command { program: String::from_str("unzip"), args, cwd: Some(bp) };
            proof {
                assert(command@.args =~= seq!["-o"@, "zkey.zip"@]);
            }
            Some((ProveSession::AwaitUnzipKeys { req }, Action::Run { command }))
        },
        (ProveSession::AwaitUnzipCircuit { req }, Event::Failed { cause }) => {
            let (status, body) = ProveError::UnzipCircuitError(cause).into_response();
            Some((ProveSession::Finished, Action::Respond { status, body }))
        },
        (ProveSession::AwaitUnzipKeys { req }, Event::Done) => {
            let bp = blueprint_path(req.blueprint_id.as_str());
            let f = input_file_name(req.proof_id.as_str());
            let path = path_join(bp.as_str(), f.as_str());
            let contents = req.input.clone();
            Some((ProveSession::AwaitInputWrite { req }, Action::WriteFile { path, contents }))
        },
        (ProveSession::AwaitUnzipKeys { req }, Event::Failed { cause }) => {
            let (status, body) = ProveError::UnzipKeysError(cause).into_response();
            Some((ProveSession::Finished, Action::Respond { status, body }))
        },
        (ProveSession::AwaitInputWrite { req }, Event::Done) => {
            let bp = blueprint_path(req.blueprint_id.as_str());
            let command = witness_command(bp.as_str(), req.proof_id.as_str());
            Some((ProveSession::AwaitWitness { req }, Action::Run { command }))
        },
        (ProveSession::AwaitInputWrite { req }, Event::Failed { cause }) => {
            let (status, body) = ProveError::CreateDirError(cause).into_response();
            Some((ProveSession::Finished, Action::Respond { status, body }))
        },
        (ProveSession::AwaitWitness { req }, Event::Done) => {
            let bp = blueprint_path(req.blueprint_id.as_str());
            let command = prover_command(bp.as_str(), req.proof_id.as_str());
            Some((ProveSession::AwaitProver { req }, Action::Run { command }))
        },
        (ProveSession::AwaitWitness { req }, Event::Failed { cause }) => {
            let (status, body) = ProveError::GenerateProofError(cause).into_response();
            Some((ProveSession::Finished, Action::Respond { status, body }))
        },
        (ProveSession::AwaitProver { req }, Event::Done) => {
            let bp = blueprint_path(req.blueprint_id.as_str());
            let f = proof_file_name(req.proof_id.as_str());
            let path = path_join(bp.as_str(), f.as_str());
            Some((ProveSession::AwaitProofRead { req }, Action::ReadFile { path }))
        },
        (ProveSession::AwaitProver { req }, Event::Failed { cause }) => {
            let (status, body) = ProveError::GenerateProofError(cause).into_response();
            Some((ProveSession::Finished, Action::Respond { status, body }))
        },
        (ProveSession::AwaitProofRead { req }, Event::FileRead { contents }) => {
            let bp = blueprint_path(req.blueprint_id.as_str());
            let f = public_file_name(req.proof_id.as_str());
            let path = path_join(bp.as_str(), f.as_str());
            Some(
                (
                    ProveSession::AwaitPublicRead { req, proof_text: contents },
                    Action::ReadFile { path },
                ),
            )
        },
        (ProveSession::AwaitProofRead { req }, Event::Failed { cause }) => {
            let (status, body) = ProveError::ReadProofError(cause).into_response();
            Some((ProveSession::Finished, Action::Respond { status, body }))
        },
        (ProveSession::AwaitPublicRead { req, proof_text }, Event::FileRead { contents }) => {
            match read_proof_and_public_data(proof_text.as_str(), contents.as_str()) {
                Some((proof, public)) => {
                    let response = ProveResponse { proof, public_outputs: public };
                    let body = response.body();
                    let bp = blueprint_path(req.blueprint_id.as_str());
                    let f = input_file_name(req.proof_id.as_str());
                    let path = path_join(bp.as_str(), f.as_str());
                    Some(
                        (
                            ProveSession::AwaitCleanupInput { req, body },
                            Action::RemoveFile { path },
                        ),
                    )
                },
                None => {
                    let err = ProveError::ReadProofError(
                        String::from_str("malformed proof or public data"),
                    );
                    proof {
                        assert(err.message_spec() =~= "Failed to read proof and public data: "@
                            + "malformed proof or public data"@);
                    }
                    let (status, body) = err.into_response();
                    Some((ProveSession::Finished, Action::Respond { status, body }))
                },
            }
        },
        (ProveSession::AwaitPublicRead { req, proof_text }, Event::Failed { cause }) => {
            let (status, body) = ProveError::ReadProofError(cause).into_response();
            Some((ProveSession::Finished, Action::Respond { status, body }))
        },
        (ProveSession::AwaitCleanupInput { req, body }, Event::Done) => {
            let bp = blueprint_path(req.blueprint_id.as_str());
            let f = witness_file_name(req.proof_id.as_str());
            let path = path_join(bp.as_str(), f.as_str());
            Some((ProveSession::AwaitCleanupWitness { req, body }, Action::RemoveFile { path }))
        },
        (ProveSession::AwaitCleanupWitness { req, body }, Event::Done) => {
            let bp = blueprint_path(req.blueprint_id.as_str());
            let f = proof_file_name(req.proof_id.as_str());
            let path = path_join(bp.as_str(), f.as_str());
            Some((ProveSession::AwaitCleanupProof { req, body }, Action::RemoveFile { path }))
        },
        (ProveSession::AwaitCleanupProof { req, body }, Event::Done) => {
            let bp = blueprint_path(req.blueprint_id.as_str());
            let f = public_file_name(req.proof_id.as_str());
            let path = path_join(bp.as_str(), f.as_str());
            Some((ProveSession::AwaitCleanupPublic { req, body }, Action::RemoveFile { path }))
        },
        (ProveSession::AwaitCleanupPublic { req, body }, Event::Done) => {
            Some((ProveSession::Finished, Action::Respond { status: OK, body }))
        },
        (ProveSession::AwaitCleanupInput { req, body }, Event::Failed { cause }) => {
            let (status, body) = ProveError::Cleanup(cause).into_response();
            Some((ProveSession::Finished, Action::Respond { status, body }))
        },
        (ProveSession::AwaitCleanupWitness { req, body }, Event::Failed { cause }) => {
            let (status, body) = ProveError::Cleanup(cause).into_response();
            Some((ProveSession::Finished, Action::Respond { status, body }))
        },
        (ProveSession::AwaitCleanupProof { req, body }, Event::Failed { cause }) => {
            let (status, body) = ProveError::Cleanup(cause).into_response();
            Some((ProveSession::Finished, Action::Respond { status, body }))
        },
        (ProveSession::AwaitCleanupPublic { req, body }, Event::Failed { cause }) => {
            let (status, body) = ProveError::Cleanup(cause).into_response();
            Some((ProveSession::Finished, Action::Respond { status, body }))
        },
        _ => None,
    }
}

/// The caller's payload for a prove-and-push request: the blueprint, the
/// locations of the input document and the two archives, and the two
/// destinations for the finished proof and public outputs.
pub struct ProveAndPushRequest {
    pub blueprint_id: String,
    pub input_download_url: String,
    pub zkey_download_url: String,
    pub circuit_cpp_download_url: String,
    pub proof_destination_url: String,
    pub public_destination_url: String,
}

#[verifier::ext_equal]
pub ghost struct ProveAndPushRequestModel {
    pub blueprint_id: Seq<char>,
    pub input_download_url: Seq<char>,
    pub zkey_download_url: Seq<char>,
    pub circuit_cpp_download_url: Seq<char>,
    pub proof_destination_url: Seq<char>,
    pub public_destination_url: Seq<char>,
}

impl View for ProveAndPushRequest {
    type V = ProveAndPushRequestModel;

    open spec fn view(&self) -> ProveAndPushRequestModel {
        ProveAndPushRequestModel {
            blueprint_id: self.blueprint_id@,
            input_download_url: self.input_download_url@,
            zkey_download_url: self.zkey_download_url@,
            circuit_cpp_download_url: self.circuit_cpp_download_url@,
            proof_destination_url: self.proof_destination_url@,
            public_destination_url: self.public_destination_url@,
        }
    }
}

/// The states of one prove-and-push request. The blueprint directory is
/// single-use here: nothing is cached, the archives are fetched and
/// extracted afresh, the results are uploaded, and the whole directory is
/// removed at the end.
pub enum PushSession {
    AwaitCreateDir { req: ProveAndPushRequest },
    AwaitInputDownload { req: ProveAndPushRequest },
    AwaitCircuitDownload { req: ProveAndPushRequest },
    AwaitKeysDownload { req: ProveAndPushRequest },
    AwaitUnzipKeys { req: ProveAndPushRequest },
    AwaitUnzipCircuit { req: ProveAndPushRequest },
    AwaitWitness { req: ProveAndPushRequest },
    AwaitProver { req: ProveAndPushRequest },
    AwaitProofUpload { req: ProveAndPushRequest },
    AwaitPublicUpload { req: ProveAndPushRequest },
    AwaitCleanup { req: ProveAndPushRequest },
    Finished,
}

#[verifier::ext_equal]
pub ghost enum PushSessionModel {
    AwaitCreateDir { req: ProveAndPushRequestModel },
    AwaitInputDownload { req: ProveAndPushRequestModel },
    AwaitCircuitDownload { req: ProveAndPushRequestModel },
    AwaitKeysDownload { req: ProveAndPushRequestModel },
    AwaitUnzipKeys { req: ProveAndPushRequestModel },
    AwaitUnzipCircuit { req: ProveAndPushRequestModel },
    AwaitWitness { req: ProveAndPushRequestModel },
    AwaitProver { req: ProveAndPushRequestModel },
    AwaitProofUpload { req: ProveAndPushRequestModel },
    AwaitPublicUpload { req: ProveAndPushRequestModel },
    AwaitCleanup { req: ProveAndPushRequestModel },
    Finished,
}

impl View for PushSession {
    type V = PushSessionModel;

    open spec fn view(&self) -> PushSessionModel {
        match self {
            PushSession::AwaitCreateDir { req } => PushSessionModel::AwaitCreateDir { req: req@ },
            PushSession::AwaitInputDownload { req } => PushSessionModel::AwaitInputDownload {
                req: req@,
            },
            PushSession::AwaitCircuitDownload { req } => PushSessionModel::AwaitCircuitDownload {
                req: req@,
            },
            PushSession::AwaitKeysDownload { req } => PushSessionModel::AwaitKeysDownload {
                req: req@,
            },
            PushSession::AwaitUnzipKeys { req } => PushSessionModel::AwaitUnzipKeys { req: req@ },
            PushSession::AwaitUnzipCircuit { req } => PushSessionModel::AwaitUnzipCircuit {
                req: req@,
            },
            PushSession::AwaitWitness { req } => PushSessionModel::AwaitWitness { req: req@ },
            PushSession::AwaitProver { req } => PushSessionModel::AwaitProver { req: req@ },
            PushSession::AwaitProofUpload { req } => PushSessionModel::AwaitProofUpload {
                req: req@,
            },
            PushSession::AwaitPublicUpload { req } => PushSessionModel::AwaitPublicUpload {
                req: req@,
            },
            PushSession::AwaitCleanup { req } => PushSessionModel::AwaitCleanup { req: req@ },
            PushSession::Finished => PushSessionModel::Finished,
        }
    }
}

/// The acknowledgement body of a successful prove-and-push request; the
/// proof itself is not echoed, it was already delivered to the destinations.
pub open spec fn push_ack_body_spec() -> Seq<char> {
    "{\"status\":\"success\",\"message\":\"Proof generated and uploaded successfully\"}"@
}

/// The first step of a prove-and-push request: create the blueprint's
/// single-use directory.
pub open spec fn push_start_spec(req: ProveAndPushRequestModel) -> (PushSessionModel, ActionModel) {
    (
        PushSessionModel::AwaitCreateDir { req },
        ActionModel::CreateDir { path: blueprint_path_spec(req.blueprint_id) },
    )
}

/// The transition relation of a prove-and-push session: stage the input and
/// archives, extract keys then circuit, run the witness generator and the
/// prover, upload the two results, remove the whole directory, and
/// acknowledge.
pub open spec fn push_step_spec(s: PushSessionModel, e: EventModel) -> Option<
    (PushSessionModel, ActionModel),
> {
    let bp = match s {
        PushSessionModel::AwaitCreateDir { req } => blueprint_path_spec(req.blueprint_id),
        PushSessionModel::AwaitInputDownload { req } => blueprint_path_spec(req.blueprint_id),
        PushSessionModel::AwaitCircuitDownload { req } => blueprint_path_spec(req.blueprint_id),
        PushSessionModel::AwaitKeysDownload { req } => blueprint_path_spec(req.blueprint_id),
        PushSessionModel::AwaitUnzipKeys { req } => blueprint_path_spec(req.blueprint_id),
        PushSessionModel::AwaitUnzipCircuit { req } => blueprint_path_spec(req.blueprint_id),
        PushSessionModel::AwaitWitness { req } => blueprint_path_spec(req.blueprint_id),
        PushSessionModel::AwaitProver { req } => blueprint_path_spec(req.blueprint_id),
        PushSessionModel::AwaitProofUpload { req } => blueprint_path_spec(req.blueprint_id),
        PushSessionModel::AwaitPublicUpload { req } => blueprint_path_spec(req.blueprint_id),
        PushSessionModel::AwaitCleanup { req } => blueprint_path_spec(req.blueprint_id),
        PushSessionModel::Finished => Seq::<char>::empty(),
    };
    match (s, e) {
        (PushSessionModel::AwaitCreateDir { req }, EventModel::Done) => Some(
            (
                PushSessionModel::AwaitInputDownload { req },
                ActionModel::Download {
                    url: req.input_download_url,
                    dest: path_join_spec(bp, "input.json"@),
                },
            ),
        ),
        (PushSessionModel::AwaitCreateDir { req }, EventModel::Failed { cause }) => Some(
            (
                PushSessionModel::Finished,
                error_respond_spec(
                    INTERNAL_SERVER_ERROR,
                    "Failed to create directory: "@ + cause,
                ),
            ),
        ),
        (PushSessionModel::AwaitInputDownload { req }, EventModel::Done) => Some(
            (
                PushSessionModel::AwaitCircuitDownload { req },
                ActionModel::Download {
                    url: req.circuit_cpp_download_url,
                    dest: path_join_spec(bp, "compiled_circuit.zip"@),
                },
            ),
        ),
        (PushSessionModel::AwaitInputDownload { req }, EventModel::Failed { cause }) => Some(
            (
                PushSessionModel::Finished,
                error_respond_spec(BAD_REQUEST, "Failed to download input: "@ + cause),
            ),
        ),
        (PushSessionModel::AwaitCircuitDownload { req }, EventModel::Done) => Some(
            (
                PushSessionModel::AwaitKeysDownload { req },
                ActionModel::Download {
                    url: req.zkey_download_url,
                    dest: path_join_spec(bp, "keys.zip"@),
                },
            ),
        ),
        (PushSessionModel::AwaitCircuitDownload { req }, EventModel::Failed { cause }) => Some(
            (
                PushSessionModel::Finished,
                error_respond_spec(
                    BAD_REQUEST,
                    "Failed to download compiled circuit: "@ + cause,
                ),
            ),
        ),
        (PushSessionModel::AwaitKeysDownload { req }, EventModel::Done) => Some(
            (
                PushSessionModel::AwaitUnzipKeys { req },
                ActionModel::Run {
                    command: CommandModel {
                        program: "unzip"@,
                        args: seq!["-o"@, "keys.zip"@],
                        cwd: Some(bp),
                    },
                },
            ),
        ),
        (PushSessionModel::AwaitKeysDownload { req }, EventModel::Failed { cause }) => Some(
            (
                PushSessionModel::Finished,
                error_respond_spec(BAD_REQUEST, "Failed to download keys: "@ + cause),
            ),
        ),
        (PushSessionModel::AwaitUnzipKeys { req }, EventModel::Done) => Some(
            (
                PushSessionModel::AwaitUnzipCircuit { req },
                ActionModel::Run {
                    command: CommandModel {
                        program: "unzip"@,
                        args: seq!["-o"@, "compiled_circuit.zip"@],
                        cwd: Some(bp),
                    },
                },
            ),
        ),
        (PushSessionModel::AwaitUnzipKeys { req }, EventModel::Failed { cause }) => Some(
            (
                PushSessionModel::Finished,
                error_respond_spec(INTERNAL_SERVER_ERROR, "Failed to unzip keys: "@ + cause),
            ),
        ),
        (PushSessionModel::AwaitUnzipCircuit { req }, EventModel::Done) => Some(
            (
                PushSessionModel::AwaitWitness { req },
                ActionModel::Run {
                    command: CommandModel {
                        program: "./circuit"@,
                        args: seq!["input.json"@, "witness.wtns"@],
                        cwd: Some(bp),
                    },
                },
            ),
        ),
        (PushSessionModel::AwaitUnzipCircuit { req }, EventModel::Failed { cause }) => Some(
            (
                PushSessionModel::Finished,
                error_respond_spec(
                    INTERNAL_SERVER_ERROR,
                    "Failed to unzip compiled circuit: "@ + cause,
                ),
            ),
        ),
        (PushSessionModel::AwaitWitness { req }, EventModel::Done) => Some(
            (
                PushSessionModel::AwaitProver { req },
                ActionModel::Run {
                    command: CommandModel {
                        program: "prover"@,
                        args: seq![
                            "circuit.zkey"@,
                            "witness.wtns"@,
                            "proof.json"@,
                            "public.json"@,
                        ],
                        cwd: Some(bp),
                    },
                },
            ),
        ),
        (PushSessionModel::AwaitWitness { req }, EventModel::Failed { cause }) => Some(
            (
                PushSessionModel::Finished,
                error_respond_spec(INTERNAL_SERVER_ERROR, "Failed to generate proof: "@ + cause),
            ),
        ),
        (PushSessionModel::AwaitProver { req }, EventModel::Done) => Some(
            (
                PushSessionModel::AwaitProofUpload { req },
                ActionModel::Upload {
                    url: req.proof_destination_url,
                    source: path_join_spec(bp, "proof.json"@),
                },
            ),
        ),
        (PushSessionModel::AwaitProver { req }, EventModel::Failed { cause }) => Some(
            (
                PushSessionModel::Finished,
                error_respond_spec(INTERNAL_SERVER_ERROR, "Failed to generate proof: "@ + cause),
            ),
        ),
        (PushSessionModel::AwaitProofUpload { req }, EventModel::Done) => Some(
            (
                PushSessionModel::AwaitPublicUpload { req },
                ActionModel::Upload {
                    url: req.public_destination_url,
                    source: path_join_spec(bp, "public.json"@),
                },
            ),
        ),
        (PushSessionModel::AwaitProofUpload { req }, EventModel::Failed { cause }) => Some(
            (
                PushSessionModel::Finished,
                error_respond_spec(INTERNAL_SERVER_ERROR, "Failed to upload proof: "@ + cause),
            ),
        ),
        (PushSessionModel::AwaitPublicUpload { req }, EventModel::Done) => Some(
            (
                PushSessionModel::AwaitCleanup { req },
                ActionModel::RemoveDirAll { path: bp },
            ),
        ),
        (PushSessionModel::AwaitPublicUpload { req }, EventModel::Failed { cause }) => Some(
            (
                PushSessionModel::Finished,
                error_respond_spec(
                    INTERNAL_SERVER_ERROR,
                    "Failed to upload public outputs: "@ + cause,
                ),
            ),
        ),
        (PushSessionModel::AwaitCleanup { req }, EventModel::Done) => Some(
            (
                PushSessionModel::Finished,
                ActionModel::Respond { status: OK, body: push_ack_body_spec() },
            ),
        ),
        (PushSessionModel::AwaitCleanup { req }, EventModel::Failed { cause }) => Some(
            (
                PushSessionModel::Finished,
                error_respond_spec(INTERNAL_SERVER_ERROR, "Failed to clean up: "@ + cause),
            ),
        ),
        _ => None,
    }
}

/// Opens a prove-and-push session.
pub fn prove_and_push_handler(req: ProveAndPushRequest) -> (r: (PushSession, Action))
    ensures
        (r.0@, r.1@) == push_start_spec(req@),
{
    let path = blueprint_path(req.blueprint_id.as_str());
    (PushSession::AwaitCreateDir { req }, Action::CreateDir { path })
}

/// Advances a prove-and-push session by one event. Yields nothing only when
/// the event's kind does not answer the state's pending action.
pub fn push_session_step(s: PushSession, e: Event) -> (r: Option<(PushSession, Action)>)
    ensures
        match r {
            Some(p) => push_step_spec(s@, e@) == Some((p.0@, p.1@)),
            None => push_step_spec(s@, e@) is None,
        },
{
    match (s, e) {
        (PushSession::AwaitCreateDir { req }, Event::Done) => {
            let bp = blueprint_path(req.blueprint_id.as_str());
            let dest = path_join(bp.as_str(), "input.json");
            let url = req.input_download_url.clone();
            Some((PushSession::AwaitInputDownload { req }, Action::Download { url, dest }))
        },
        (PushSession::AwaitCreateDir { req }, Event::Failed { cause }) => {
            let (status, body) = ProveError::CreateDirError(cause).into_response();
            Some((PushSession::Finished, Action::Respond { status, body }))
        },
        (PushSession::AwaitInputDownload { req }, Event::Done) => {
            let bp = blueprint_path(req.blueprint_id.as_str());
            let dest = path_join(bp.as_str(), "compiled_circuit.zip");
            let url = req.circuit_cpp_download_url.clone();
            Some((PushSession::AwaitCircuitDownload { req }, Action::Download { url, dest }))
        },
        (PushSession::AwaitInputDownload { req }, Event::Failed { cause }) => {
            let (status, body) = ProveError::DownloadInputError(cause).into_response();
            Some((PushSession::Finished, Action::Respond { status, body }))
        },
        (PushSession::AwaitCircuitDownload { req }, Event::Done) => {
            let bp = blueprint_path(req.blueprint_id.as_str());
            let dest = path_join(bp.as_str(), "keys.zip");
            let url = req.zkey_download_url.clone();
            Some((PushSession::AwaitKeysDownload { req }, Action::Download { url, dest }))
        },
        (PushSession::AwaitCircuitDownload { req }, Event::Failed { cause }) => {
            let (status, body) = ProveError::DownloadCircuitError(cause).into_response();
            Some((PushSession::Finished, Action::Respond { status, body }))
        },
        (PushSession::AwaitKeysDownload { req }, Event::Done) => {
            let bp = blueprint_path(req.blueprint_id.as_str());
            let mut args: Vec<String> = Vec::new();
            args.push(String::from_str("-o"));
            args.push(String::from_str("keys.zip"));
            let command = Command { program: String::from_str("unzip"), args, cwd: Some(bp) };
            proof {
                assert(command@.args =~= seq!["-o"@, "keys.zip"@]);
            }
            Some((PushSession::AwaitUnzipKeys { req }, Action::Run { command }))
        },
        (PushSession::AwaitKeysDownload { req }, Event::Failed { cause }) => {
            let (status, body) = ProveError::DownloadKeysError(cause).into_response();
            Some((PushSession::Finished, Action::Respond { status, body }))
        },
        (PushSession::AwaitUnzipKeys { req }, Event::Done) => {
            let bp = blueprint_path(req.blueprint_id.as_str());
            let mut args: Vec<String> = Vec::new();
            args.push(String::from_str("-o"));
            args.push(String::from_str("compiled_circuit.zip"));
            let command = Command { program: String::from_str("unzip"), args, cwd: Some(bp) };
            proof {
                assert(command@.args =~= seq!["-o"@, "compiled_circuit.zip"@]);
            }
            Some((PushSession::AwaitUnzipCircuit { req }, Action::Run { command }))
        },
        (PushSession::AwaitUnzipKeys { req }, Event::Failed { cause }) => {
            let (status, body) = ProveError::UnzipKeysError(cause).into_response();
            Some((PushSession::Finished, Action::Respond { status, body }))
        },
        (PushSession::AwaitUnzipCircuit { req }, Event::Done) => {
            let bp = blueprint_path(req.blueprint_id.as_str());
            let mut args: Vec<String> = Vec::new();
            args.push(String::from_str("input.json"));
            args.push(String::from_str("witness.wtns"));
            let command = Command { program: String::from_str("./circuit"), args, cwd: Some(bp) };
            proof {
                assert(command@.args =~= seq!["input.json"@, "witness.wtns"@]);
            }
            Some((PushSession::AwaitWitness { req }, Action::Run { command }))
        },
        (PushSession::AwaitUnzipCircuit { req }, Event::Failed { cause }) => {
            let (status, body) = ProveError::UnzipCircuitError(cause).into_response();
            Some((PushSession::Finished, Action::Respond { status, body }))
        },
        (PushSession::AwaitWitness { req }, Event::Done) => {
            let bp = blueprint_path(req.blueprint_id.as_str());
            let mut args: Vec<String> = Vec::new();
            args.push(String::from_str("circuit.zkey"));
            args.push(String::from_str("witness.wtns"));
            args.push(String::from_str("proof.json"));
            args.push(String::from_str("public.json"));
            let command = Command { program: String::from_str("prover"), args, cwd: Some(bp) };
            proof {
                assert(command@.args =~= seq![
                    "circuit.zkey"@,
                    "witness.wtns"@,
                    "proof.json"@,
                    "public.json"@,
                ]);
            }
            Some((PushSession::AwaitProver { req }, Action::Run { command }))
        },
        (PushSession::AwaitWitness { req }, Event::Failed { cause }) => {
            let (status, body) = ProveError::GenerateProofError(cause).into_response();
            Some((PushSession::Finished, Action::Respond { status, body }))
        },
        (PushSession::AwaitProver { req }, Event::Done) => {
            let bp = blueprint_path(req.blueprint_id.as_str());
            let source = path_join(bp.as_str(), "proof.json");
            let url = req.proof_destination_url.clone();
            Some((PushSession::AwaitProofUpload { req }, Action::Upload { url, source }))
        },
        (PushSession::AwaitProver { req }, Event::Failed { cause }) => {
            let (status, body) = ProveError::GenerateProofError(cause).into_response();
            Some((PushSession::Finished, Action::Respond { status, body }))
        },
        (PushSession::AwaitProofUpload { req }, Event::Done) => {
            let bp = blueprint_path(req.blueprint_id.as_str());
            let source = path_join(bp.as_str(), "public.json");
            let url = req.public_destination_url.clone();
            Some((PushSession::AwaitPublicUpload { req }, Action::Upload { url, source }))
        },
        (PushSession::AwaitProofUpload { req }, Event::Failed { cause }) => {
            let (status, body) = ProveError::UploadProofError(cause).into_response();
            Some((PushSession::Finished, Action::Respond { status, body }))
        },
        (PushSession::AwaitPublicUpload { req }, Event::Done) => {
            let bp = blueprint_path(req.blueprint_id.as_str());
            Some((PushSession::AwaitCleanup { req }, Action::RemoveDirAll { path: bp }))
        },
        (PushSession::AwaitPublicUpload { req }, Event::Failed { cause }) => {
            let (status, body) = ProveError::UploadPublicError(cause).into_response();
            Some((PushSession::Finished, Action::Respond { status, body }))
        },
        (PushSession::AwaitCleanup { req }, Event::Done) => {
            let body = String::from_str(
                "{\"status\":\"success\",\"message\":\"Proof generated and uploaded successfully\"}",
            );
            Some((PushSession::Finished, Action::Respond { status: OK, body }))
        },
        (PushSession::AwaitCleanup { req }, Event::Failed { cause }) => {
            let (status, body) = ProveError::Cleanup(cause).into_response();
            Some((PushSession::Finished, Action::Respond { status, body }))
        },
        _ => None,
    }
}

/// Once a prove session has found the blueprint's directory cached (or has
/// finished populating it), it stands past setup: from then on it never
/// downloads, creates a directory, or extracts an archive again — the only
/// programs it runs are the witness generator and the prover, and the only
/// files it removes are its own per-proof files. This is what makes the
/// shared, cached blueprint contents safe under concurrent proofs.
pub open spec fn past_setup(s: ProveSessionModel) -> bool {
    match s {
        ProveSessionModel::AwaitInputWrite { .. } => true,
        ProveSessionModel::AwaitWitness { .. } => true,
        ProveSessionModel::AwaitProver { .. } => true,
        ProveSessionModel::AwaitProofRead { .. } => true,
        ProveSessionModel::AwaitPublicRead { .. } => true,
        ProveSessionModel::AwaitCleanupInput { .. } => true,
        ProveSessionModel::AwaitCleanupWitness { .. } => true,
        ProveSessionModel::AwaitCleanupProof { .. } => true,
        ProveSessionModel::AwaitCleanupPublic { .. } => true,
        ProveSessionModel::Finished => true,
        _ => false,
    }
}

/// A prove session that found the blueprint directory already cached steps
/// straight past setup; and past setup, every step stays past setup and
/// never downloads, creates a directory, or runs anything but the witness
/// generator and the prover.
pub proof fn lemma_cached_blueprint_not_refetched(s: ProveSessionModel, e: EventModel)
    requires
        past_setup(s) || (s matches ProveSessionModel::AwaitDirCheck { .. } && e == (
        EventModel::DirExists { exists: true })),
    ensures
        match prove_step_spec(s, e) {
            Some((s2, a)) => past_setup(s2) && !(a is Download) && !(a is CreateDir) && (
            a matches ActionModel::Run { command } ==> (command.program == "./circuit"@
                || command.program == "prover"@)),
            None => true,
        },
{
}

/// Every file a prove session ever removes is one of its own four per-proof
/// files, named with its own proof identifier inside its own blueprint
/// directory — and it never removes a whole directory. Together with the
/// naming lemmas this keeps the shared circuit and key contents, and every
/// sibling proof's files, untouched by cached-mode cleanup.
pub proof fn lemma_cleanup_removes_only_own_files(s: ProveSessionModel, e: EventModel)
    ensures
        match prove_step_spec(s, e) {
            Some((s2, a)) => !(a is RemoveDirAll) && (match a {
                ActionModel::RemoveFile { path } => match s {
                    ProveSessionModel::AwaitPublicRead { req, .. } => path == path_join_spec(
                        blueprint_path_spec(req.blueprint_id),
                        input_file_name_spec(req.proof_id),
                    ),
                    ProveSessionModel::AwaitCleanupInput { req, .. } => path == path_join_spec(
                        blueprint_path_spec(req.blueprint_id),
                        witness_file_name_spec(req.proof_id),
                    ),
                    ProveSessionModel::AwaitCleanupWitness { req, .. } => path == path_join_spec(
                        blueprint_path_spec(req.blueprint_id),
                        proof_file_name_spec(req.proof_id),
                    ),
                    ProveSessionModel::AwaitCleanupProof { req, .. } => path == path_join_spec(
                        blueprint_path_spec(req.blueprint_id),
                        public_file_name_spec(req.proof_id),
                    ),
                    _ => false,
                },
                _ => true,
            }),
            None => true,
        },
{
}

/// A failed archive download ends the request at once under status 400,
/// naming the failed download: no later step runs, so no witness, proof or
/// public file is ever written for such a request.
pub proof fn lemma_download_failure_stops(s: ProveSessionModel, cause: Seq<char>)
    requires
        s matches ProveSessionModel::AwaitCircuitDownload { .. } || s matches
            ProveSessionModel::AwaitKeysDownload { .. },
    ensures
        prove_step_spec(s, EventModel::Failed { cause }) == Some(
            (
                ProveSessionModel::Finished,
                error_respond_spec(
                    BAD_REQUEST,
                    if s matches ProveSessionModel::AwaitCircuitDownload { .. } {
                        "Failed to download compiled circuit: "@ + cause
                    } else {
                        "Failed to download keys: "@ + cause
                    },
                ),
            ),
        ),
{
}

/// A failure of the witness generator or of the prover is always reported
/// as a proof-generation failure under status 500.
pub proof fn lemma_generation_failure_is_500(s: ProveSessionModel, cause: Seq<char>)
    requires
        s matches ProveSessionModel::AwaitWitness { .. } || s matches ProveSessionModel::AwaitProver {
            ..
        },
    ensures
        prove_step_spec(s, EventModel::Failed { cause }) matches Some((s2, a)) && s2
            == ProveSessionModel::Finished && a == error_respond_spec(
            INTERNAL_SERVER_ERROR,
            "Failed to generate proof: "@ + cause,
        ),
{
}

/// The liveness probe: always the same success payload, under status 200,
/// whatever the authentication configuration — the route is never guarded.
pub fn health_checker_handler() -> (r: (u16, String))
    ensures
        r.0 == OK,
        r.1@ == "{\"status\":\"success\",\"message\":\"Hello from ZK Email!\"}"@,
{
    (OK, String::from_str("{\"status\":\"success\",\"message\":\"Hello from ZK Email!\"}"))
}

} // verus!

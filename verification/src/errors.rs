//! The failure vocabulary of the service and its HTTP mapping. Every internal
//! failure is one of these kinds, each wrapping the rendered text of its
//! underlying cause; a failure aborts its request and is reported to the
//! caller exactly once, as a JSON error envelope under the mapped status.

use vstd::prelude::*;
use crate::strutil::{escape_json, escape_spec};

verus! {

pub const OK: u16 = 200;

pub const BAD_REQUEST: u16 = 400;

pub const UNAUTHORIZED: u16 = 401;

pub const INTERNAL_SERVER_ERROR: u16 = 500;

/// One failure kind per step that can go wrong, each carrying the text of the
/// underlying cause.
pub enum ProveError {
    CreateDirError(String),
    DownloadInputError(String),
    DownloadKeysError(String),
    DownloadCircuitError(String),
    GenerateProofError(String),
    ReadProofError(String),
    JsonError(String),
    UnzipCircuitError(String),
    UnzipKeysError(String),
    UploadProofError(String),
    UploadPublicError(String),
    Cleanup(String),
}

impl ProveError {
    /// The text of the underlying cause.
    pub open spec fn cause(&self) -> Seq<char> {
        match self {
            ProveError::CreateDirError(c) => c@,
            ProveError::DownloadInputError(c) => c@,
            ProveError::DownloadKeysError(c) => c@,
            ProveError::DownloadCircuitError(c) => c@,
            ProveError::GenerateProofError(c) => c@,
            ProveError::ReadProofError(c) => c@,
            ProveError::JsonError(c) => c@,
            ProveError::UnzipCircuitError(c) => c@,
            ProveError::UnzipKeysError(c) => c@,
            ProveError::UploadProofError(c) => c@,
            ProveError::UploadPublicError(c) => c@,
            ProveError::Cleanup(c) => c@,
        }
    }

    /// The human-readable message of the error: a fixed phrase naming the
    /// failed step, followed by the underlying cause.
    pub open spec fn message_spec(&self) -> Seq<char> {
        match self {
            ProveError::CreateDirError(c) => "Failed to create directory: "@ + c@,
            ProveError::DownloadInputError(c) => "Failed to download input: "@ + c@,
            ProveError::DownloadKeysError(c) => "Failed to download keys: "@ + c@,
            ProveError::DownloadCircuitError(c) => "Failed to download compiled circuit: "@ + c@,
            ProveError::GenerateProofError(c) => "Failed to generate proof: "@ + c@,
            ProveError::ReadProofError(c) => "Failed to read proof and public data: "@ + c@,
            ProveError::JsonError(c) => "Failed to parse JSON: "@ + c@,
            ProveError::UnzipCircuitError(c) => "Failed to unzip compiled circuit: "@ + c@,
            ProveError::UnzipKeysError(c) => "Failed to unzip keys: "@ + c@,
            ProveError::UploadProofError(c) => "Failed to upload proof: "@ + c@,
            ProveError::UploadPublicError(c) => "Failed to upload public outputs: "@ + c@,
            ProveError::Cleanup(c) => "Failed to clean up: "@ + c@,
        }
    }

    /// The HTTP status the error maps to: a bad or unreachable artifact
    /// source and a malformed document are the caller's fault (400); every
    /// other failure is the service's (500).
    pub open spec fn status_spec(&self) -> u16 {
        match self {
            ProveError::DownloadInputError(_) => BAD_REQUEST,
            ProveError::DownloadKeysError(_) => BAD_REQUEST,
            ProveError::DownloadCircuitError(_) => BAD_REQUEST,
            ProveError::JsonError(_) => BAD_REQUEST,
            _ => INTERNAL_SERVER_ERROR,
        }
    }

    pub fn status_code(&self) -> (r: u16)
        ensures
            r == self.status_spec(),
    {
        match self {
            ProveError::DownloadInputError(_) => BAD_REQUEST,
            ProveError::DownloadKeysError(_) => BAD_REQUEST,
            ProveError::DownloadCircuitError(_) => BAD_REQUEST,
            ProveError::JsonError(_) => BAD_REQUEST,
            _ => INTERNAL_SERVER_ERROR,
        }
    }

    pub fn message(&self) -> (r: String)
        ensures
            r@ == self.message_spec(),
    {
        let mut s: String;
        match self {
            ProveError::CreateDirError(c) => {
                s = String::from_str("Failed to create directory: ");
                s.append(c.as_str());
            },
            ProveError::DownloadInputError(c) => {
                s = String::from_str("Failed to download input: ");
                s.append(c.as_str());
            },
            ProveError::DownloadKeysError(c) => {
                s = String::from_str("Failed to download keys: ");
                s.append(c.as_str());
            },
            ProveError::DownloadCircuitError(c) => {
                s = String::from_str("Failed to download compiled circuit: ");
                s.append(c.as_str());
            },
            ProveError::GenerateProofError(c) => {
                s = String::from_str("Failed to generate proof: ");
                s.append(c.as_str());
            },
            ProveError::ReadProofError(c) => {
                s = String::from_str("Failed to read proof and public data: ");
                s.append(c.as_str());
            },
            ProveError::JsonError(c) => {
                s = String::from_str("Failed to parse JSON: ");
                s.append(c.as_str());
            },
            ProveError::UnzipCircuitError(c) => {
                s = String::from_str("Failed to unzip compiled circuit: ");
                s.append(c.as_str());
            },
            ProveError::UnzipKeysError(c) => {
                s = String::from_str("Failed to unzip keys: ");
                s.append(c.as_str());
            },
            ProveError::UploadProofError(c) => {
                s = String::from_str("Failed to upload proof: ");
                s.append(c.as_str());
            },
            ProveError::UploadPublicError(c) => {
                s = String::from_str("Failed to upload public outputs: ");
                s.append(c.as_str());
            },
            ProveError::Cleanup(c) => {
                s = String::from_str("Failed to clean up: ");
                s.append(c.as_str());
            },
        }
        s
    }

    /// The full HTTP rendering of the error: its status code and the JSON
    /// error envelope holding its message.
    pub fn into_response(self) -> (r: (u16, String))
        ensures
            r.0 == self.status_spec(),
            r.1@ == error_body_spec(self.message_spec()),
    {
        let status = self.status_code();
        let msg = self.message();
        (status, error_body(msg.as_str()))
    }
}

/// The JSON error envelope: `{"status":"error","message":"<escaped text>"}`.
pub open spec fn error_body_spec(msg: Seq<char>) -> Seq<char> {
    "{\"status\":\"error\",\"message\":\""@ + escape_spec(msg) + "\"}"@
}

pub fn error_body(msg: &str) -> (r: String)
    ensures
        r@ == error_body_spec(msg@),
{
    let mut s = String::from_str("{\"status\":\"error\",\"message\":\"");
    let esc = escape_json(msg);
    s.append(esc.as_str());
    s.append("\"}");
    s
}

} // verus!

//! A zero-knowledge proof generation service library.
//!
//! The service accepts proof requests over HTTP, stages circuit and key
//! artifacts on disk, drives an external witness generator and prover, and
//! returns or forwards the resulting proof and public outputs. This crate
//! holds the verified core: artifact naming, the error taxonomy and its HTTP
//! mapping, JSON handling for the wire formats, the request-handling state
//! machines, and the route table. The surrounding process (network and file
//! I/O, subprocess execution) performs the actions these components decide.

pub mod errors;
pub mod handler;
pub mod json;
pub mod names;
pub mod prove;
pub mod server;
pub mod strutil;
pub mod wire;

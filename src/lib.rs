//! Resumable layer uploads and the decisions around their ingestion.
//!
//! - `layer`: the layer record and the upload state machine (create, accept a chunk,
//!   finish ingestion), with the laws it keeps.
//! - `tus`: the protocol's request headers, including `Upload-Metadata`.
//! - `ingest`: when a streamed ingestion commits and when it rolls back.
//! - `http`: status codes, tile replies and listing parameters.
//! - `ids`: identifiers, their text forms, and starting an upload.
//! - `config`: service settings from raw values.
//! - `status`, `numeric`, `text`: stored status text, decimal integers, string helpers.
use vstd::prelude::*;

pub mod text;
pub mod status;
pub mod layer;
pub mod numeric;
pub mod tus;
pub mod ingest;
pub mod ids;
pub mod http;
pub mod config;

verus! {

} // verus!

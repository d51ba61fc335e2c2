//! A typed client binding for a secrets-management server's HTTP API.
//!
//! Each operation of the server's REST surface (health checks, lease
//! lifecycle, namespace administration, secret-engine mounts, seal and
//! unseal control, database secret-engine configuration) is mapped to a
//! request description — method, path and optional JSON body — and the
//! server's JSON responses are decoded into typed structures.  The JSON
//! documents themselves are modelled by [`json::Json`]; parsing and
//! rendering of JSON text are delegated to `serde_json` behind a small
//! trusted boundary, while every decoder and request builder is verified.

pub mod codec;
pub mod error;
pub mod json;
pub mod leader;
pub mod protocol;
pub mod secret;
pub mod sys;

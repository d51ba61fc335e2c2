//! The encryption-key status schemas.

use vstd::prelude::*;
use crate::error::{JsonError, JsonErrorV};
use crate::json::{
    spec_req_bool, spec_req_str, spec_req_str_arr, spec_req_u64, spec_req_usize, strs_v, Json,
    JsonV,
};
use crate::codec::{parse_json, parsed_json};

verus! {

/// The state of the active encryption key.
#[derive(Debug, PartialEq)]
pub struct KeyStatus {
    pub term: usize,
    /// The `install_time` field, in whole seconds since the epoch.
    pub install_time: u64,
}

/// The state of a key regeneration in progress.
#[derive(Debug, PartialEq)]
pub struct KeyRegenStatus {
    pub started: bool,
    pub nonce: String,
    pub t: usize,
    pub n: usize,
    pub progress: usize,
    pub required: usize,
    pub pgp_fingerprints: Vec<String>,
    pub backup: bool,
    pub verification_required: bool,
}

/// The mathematical value of a [`KeyRegenStatus`].
pub struct KeyRegenStatusV {
    pub started: bool,
    pub nonce: Seq<char>,
    pub t: usize,
    pub n: usize,
    pub progress: usize,
    pub required: usize,
    pub pgp_fingerprints: Seq<Seq<char>>,
    pub backup: bool,
    pub verification_required: bool,
}

impl View for KeyRegenStatus {
    type V = KeyRegenStatusV;

    open spec fn view(&self) -> KeyRegenStatusV {
        KeyRegenStatusV {
            started: self.started,
            nonce: self.nonce@,
            t: self.t,
            n: self.n,
            progress: self.progress,
            required: self.required,
            pgp_fingerprints: strs_v(self.pgp_fingerprints@),
            backup: self.backup,
            verification_required: self.verification_required,
        }
    }
}

/// The regeneration state read from a document, every field required.
pub open spec fn spec_key_regen_status_from(j: JsonV) -> Result<KeyRegenStatusV, JsonErrorV> {
    match spec_req_bool(j, "started"@) {
        Err(e) => Err(e),
        Ok(started) => match spec_req_str(j, "nonce"@) {
            Err(e) => Err(e),
            Ok(nonce) => match spec_req_usize(j, "t"@) {
                Err(e) => Err(e),
                Ok(t) => match spec_req_usize(j, "n"@) {
                    Err(e) => Err(e),
                    Ok(n) => match spec_req_usize(j, "progress"@) {
                        Err(e) => Err(e),
                        Ok(progress) => match spec_req_usize(j, "required"@) {
                            Err(e) => Err(e),
                            Ok(required) => match spec_req_str_arr(j, "pgp_fingerprints"@) {
                                Err(e) => Err(e),
                                Ok(pgp_fingerprints) => match spec_req_bool(j, "backup"@) {
                                    Err(e) => Err(e),
                                    Ok(backup) => match spec_req_bool(
                                        j,
                                        "verification_required"@,
                                    ) {
                                        Err(e) => Err(e),
                                        Ok(verification_required) => Ok(
                                            KeyRegenStatusV {
                                                started,
                                                nonce,
                                                t,
                                                n,
                                                progress,
                                                required,
                                                pgp_fingerprints,
                                                backup,
                                                verification_required,
                                            },
                                        ),
                                    },
                                },
                            },
                        },
                    },
                },
            },
        },
    }
}

impl KeyRegenStatus {
    /// The regeneration state of document `j`.
    pub fn from_json(j: &Json) -> (r: Result<KeyRegenStatus, JsonError>)
        ensures
            match r {
                Ok(v) => spec_key_regen_status_from(j@) == Ok::<KeyRegenStatusV, JsonErrorV>(
                    v@,
                ),
                Err(e) => spec_key_regen_status_from(j@) == Err::<KeyRegenStatusV, JsonErrorV>(
                    e@,
                ),
            },
    {
        let started = match j.req_bool("started") {
            Ok(v) => v,
            Err(e) => return Err(e),
        };
        let nonce = match j.req_str("nonce") {
            Ok(v) => v,
            Err(e) => return Err(e),
        };
        let t = match j.req_usize("t") {
            Ok(v) => v,
            Err(e) => return Err(e),
        };
        let n = match j.req_usize("n") {
            Ok(v) => v,
            Err(e) => return Err(e),
        };
        let progress = match j.req_usize("progress") {
            Ok(v) => v,
            Err(e) => return Err(e),
        };
        let required = match j.req_usize("required") {
            Ok(v) => v,
            Err(e) => return Err(e),
        };
        let pgp_fingerprints = match j.req_str_arr("pgp_fingerprints") {
            Ok(v) => v,
            Err(e) => return Err(e),
        };
        let backup = match j.req_bool("backup") {
            Ok(v) => v,
            Err(e) => return Err(e),
        };
        let verification_required = match j.req_bool("verification_required") {
            Ok(v) => v,
            Err(e) => return Err(e),
        };
        Ok(
            KeyRegenStatus {
                started,
                nonce,
                t,
                n,
                progress,
                required,
                pgp_fingerprints,
                backup,
                verification_required,
            },
        )
    }

    /// The regeneration state read out of a JSON text.
    pub fn decode(text: &str) -> (r: Result<KeyRegenStatus, JsonError>)
        ensures
            match parsed_json(text@) {
                None => r matches Err(e) && e@ == JsonErrorV::Syntax,
                Some(j) => match r {
                    Ok(v) => spec_key_regen_status_from(j) == Ok::<KeyRegenStatusV, JsonErrorV>(
                        v@,
                    ),
                    Err(e) => spec_key_regen_status_from(j) == Err::<
                        KeyRegenStatusV,
                        JsonErrorV,
                    >(e@),
                },
            },
    {
        match parse_json(text) {
            Some(j) => KeyRegenStatus::from_json(&j),
            None => Err(JsonError::Syntax),
        }
    }
}

/// The key-status schema read from a document: the key's term and when it
/// was installed, in whole seconds.
pub open spec fn spec_key_status_from(j: JsonV) -> Result<KeyStatus, JsonErrorV> {
    match spec_req_usize(j, "term"@) {
        Err(e) => Err(e),
        Ok(term) => match spec_req_u64(j, "install_time"@) {
            Err(e) => Err(e),
            Ok(install_time) => Ok(KeyStatus { term, install_time }),
        },
    }
}

impl KeyStatus {
    /// The key status of document `j`.
    pub fn from_json(j: &Json) -> (r: Result<KeyStatus, JsonError>)
        ensures
            match r {
                Ok(v) => spec_key_status_from(j@) == Ok::<KeyStatus, JsonErrorV>(v),
                Err(e) => spec_key_status_from(j@) == Err::<KeyStatus, JsonErrorV>(e@),
            },
    {
        let term = match j.req_usize("term") {
            Ok(v) => v,
            Err(e) => return Err(e),
        };
        let install_time = match j.req_u64("install_time") {
            Ok(v) => v,
            Err(e) => return Err(e),
        };
        Ok(KeyStatus { term, install_time })
    }
}

/// What the key-status endpoint answers: the same pair [`KeyStatus`] carries.
#[derive(Debug, PartialEq)]
pub struct Response {
    pub term: usize,
    /// The `install_time` field, in whole seconds since the epoch.
    pub install_time: u64,
}

} // verus!

//! The seal-status schema.
//!
//! The server reports its seal state as one JSON object whose `sealed`
//! boolean decides the shape of the rest: a sealed server reports the seal
//! parameters alone, an unsealed one adds its cluster identity.  That tagged
//! union is not expressible as a plain derived schema, so the decoder and
//! encoder here are written out, and proved inverse to one another.

use vstd::prelude::*;
use vstd::string::StringExecFns;
use crate::error::{JsonError, JsonErrorV};
use crate::json::{
    fields_get_from, fields_v, lookup, opt_strs_v, spec_opt_str, spec_req_bool, spec_req_str,
    spec_req_usize, Json, JsonV,
};
use crate::codec::{json_text, parse_json, parsed_json, render_json};

verus! {

/// The identity of the cluster an unsealed server belongs to.
#[derive(Debug, PartialEq)]
pub struct ClusterInfo {
    /// The `cluster_id` field.
    pub id: String,
    /// The `cluster_name` field.
    pub name: String,
}

/// The mathematical value of a [`ClusterInfo`].
pub struct ClusterInfoV {
    pub id: Seq<char>,
    pub name: Seq<char>,
}

impl View for ClusterInfo {
    type V = ClusterInfoV;

    open spec fn view(&self) -> ClusterInfoV {
        ClusterInfoV { id: self.id@, name: self.name@ }
    }
}

/// The seal parameters every status report carries.
#[derive(Debug, PartialEq)]
pub struct SealInfo {
    /// The `type` field: the kind of seal, when the server reports one.
    pub kind: Option<String>,
    /// The `t` field: how many key shares unsealing takes.
    pub threshold: usize,
    /// The `n` field: how many key shares exist.
    pub shares: usize,
    /// The `progress` field: how many shares have been submitted.
    pub progress: usize,
    /// The `nonce` field of the unseal in progress, when the server reports one.
    pub nonce: Option<String>,
    /// The `version` field: the server's version.
    pub version: String,
}

/// The mathematical value of a [`SealInfo`].
pub struct SealInfoV {
    pub kind: Option<Seq<char>>,
    pub threshold: usize,
    pub shares: usize,
    pub progress: usize,
    pub nonce: Option<Seq<char>>,
    pub version: Seq<char>,
}

impl View for SealInfo {
    type V = SealInfoV;

    open spec fn view(&self) -> SealInfoV {
        SealInfoV {
            kind: opt_strs_v(self.kind),
            threshold: self.threshold,
            shares: self.shares,
            progress: self.progress,
            nonce: opt_strs_v(self.nonce),
            version: self.version@,
        }
    }
}

/// What a sealed server reports.
#[derive(Debug, PartialEq)]
pub struct Sealed {
    pub info: SealInfo,
}

/// The mathematical value of a [`Sealed`].
pub struct SealedV {
    pub info: SealInfoV,
}

impl View for Sealed {
    type V = SealedV;

    open spec fn view(&self) -> SealedV {
        SealedV { info: self.info@ }
    }
}

/// What an unsealed server reports.
#[derive(Debug, PartialEq)]
pub struct Unsealed {
    pub info: SealInfo,
    pub cluster: ClusterInfo,
}

/// The mathematical value of an [`Unsealed`].
pub struct UnsealedV {
    pub info: SealInfoV,
    pub cluster: ClusterInfoV,
}

impl View for Unsealed {
    type V = UnsealedV;

    open spec fn view(&self) -> UnsealedV {
        UnsealedV { info: self.info@, cluster: self.cluster@ }
    }
}

/// The server's seal state, as the `sealed` field of the report decides it.
#[derive(Debug, PartialEq)]
pub enum SealStatus {
    Sealed(Sealed),
    Unsealed(Unsealed),
}

/// The mathematical value of a [`SealStatus`].
pub enum SealStatusV {
    Sealed(SealedV),
    Unsealed(UnsealedV),
}

impl View for SealStatus {
    type V = SealStatusV;

    open spec fn view(&self) -> SealStatusV {
        match self {
            SealStatus::Sealed(s) => SealStatusV::Sealed(s@),
            SealStatus::Unsealed(u) => SealStatusV::Unsealed(u@),
        }
    }
}

/// The seal parameters read from a status report.
pub open spec fn spec_seal_info_from(j: JsonV) -> Result<SealInfoV, JsonErrorV> {
    match spec_opt_str(j, "type"@) {
        Err(e) => Err(e),
        Ok(kind) => match spec_req_usize(j, "t"@) {
            Err(e) => Err(e),
            Ok(threshold) => match spec_req_usize(j, "n"@) {
                Err(e) => Err(e),
                Ok(shares) => match spec_req_usize(j, "progress"@) {
                    Err(e) => Err(e),
                    Ok(progress) => match spec_opt_str(j, "nonce"@) {
                        Err(e) => Err(e),
                        Ok(nonce) => match spec_req_str(j, "version"@) {
                            Err(e) => Err(e),
                            Ok(version) => Ok(
                                SealInfoV { kind, threshold, shares, progress, nonce, version },
                            ),
                        },
                    },
                },
            },
        },
    }
}

/// The cluster identity read from a status report.
pub open spec fn spec_cluster_info_from(j: JsonV) -> Result<ClusterInfoV, JsonErrorV> {
    match spec_req_str(j, "cluster_id"@) {
        Err(e) => Err(e),
        Ok(id) => match spec_req_str(j, "cluster_name"@) {
            Err(e) => Err(e),
            Ok(name) => Ok(ClusterInfoV { id, name }),
        },
    }
}

/// The seal status read from a report: the `sealed` boolean decides whether
/// the cluster identity is read too.
pub open spec fn spec_seal_status_from(j: JsonV) -> Result<SealStatusV, JsonErrorV> {
    match spec_req_bool(j, "sealed"@) {
        Err(e) => Err(e),
        Ok(true) => match spec_seal_info_from(j) {
            Err(e) => Err(e),
            Ok(info) => Ok(SealStatusV::Sealed(SealedV { info })),
        },
        Ok(false) => match spec_seal_info_from(j) {
            Err(e) => Err(e),
            Ok(info) => match spec_cluster_info_from(j) {
                Err(e) => Err(e),
                Ok(cluster) => Ok(SealStatusV::Unsealed(UnsealedV { info, cluster })),
            },
        },
    }
}

/// An optional string written as a JSON value: absence is written `null`.
pub open spec fn opt_str_json(o: Option<Seq<char>>) -> JsonV {
    match o {
        Some(s) => JsonV::Str(s),
        None => JsonV::Null,
    }
}

/// The document a seal status is written as: the seal parameters, the
/// `sealed` tag first, and the cluster identity when the server is unsealed.
pub open spec fn spec_seal_status_json(v: SealStatusV) -> JsonV {
    match v {
        SealStatusV::Sealed(s) => JsonV::Obj(
            seq![
                ("sealed"@, JsonV::Bool(true)),
                ("type"@, opt_str_json(s.info.kind)),
                ("t"@, JsonV::UInt(s.info.threshold as u64)),
                ("n"@, JsonV::UInt(s.info.shares as u64)),
                ("progress"@, JsonV::UInt(s.info.progress as u64)),
                ("nonce"@, opt_str_json(s.info.nonce)),
                ("version"@, JsonV::Str(s.info.version)),
            ],
        ),
        SealStatusV::Unsealed(u) => JsonV::Obj(
            seq![
                ("sealed"@, JsonV::Bool(false)),
                ("type"@, opt_str_json(u.info.kind)),
                ("t"@, JsonV::UInt(u.info.threshold as u64)),
                ("n"@, JsonV::UInt(u.info.shares as u64)),
                ("progress"@, JsonV::UInt(u.info.progress as u64)),
                ("nonce"@, opt_str_json(u.info.nonce)),
                ("version"@, JsonV::Str(u.info.version)),
                ("cluster_id"@, JsonV::Str(u.cluster.id)),
                ("cluster_name"@, JsonV::Str(u.cluster.name)),
            ],
        ),
    }
}

impl SealInfo {
    /// The seal parameters of document `j`.
    pub fn from_json(j: &Json) -> (r: Result<SealInfo, JsonError>)
        ensures
            match r {
                Ok(v) => spec_seal_info_from(j@) == Ok::<SealInfoV, JsonErrorV>(v@),
                Err(e) => spec_seal_info_from(j@) == Err::<SealInfoV, JsonErrorV>(e@),
            },
    {
        let kind = match j.opt_str("type") {
            Ok(v) => v,
            Err(e) => return Err(e),
        };
        let threshold = match j.req_usize("t") {
            Ok(v) => v,
            Err(e) => return Err(e),
        };
        let shares = match j.req_usize("n") {
            Ok(v) => v,
            Err(e) => return Err(e),
        };
        let progress = match j.req_usize("progress") {
            Ok(v) => v,
            Err(e) => return Err(e),
        };
        let nonce = match j.opt_str("nonce") {
            Ok(v) => v,
            Err(e) => return Err(e),
        };
        let version = match j.req_str("version") {
            Ok(v) => v,
            Err(e) => return Err(e),
        };
        Ok(SealInfo { kind, threshold, shares, progress, nonce, version })
    }
}

impl ClusterInfo {
    /// The cluster identity of document `j`.
    pub fn from_json(j: &Json) -> (r: Result<ClusterInfo, JsonError>)
        ensures
            match r {
                Ok(v) => spec_cluster_info_from(j@) == Ok::<ClusterInfoV, JsonErrorV>(v@),
                Err(e) => spec_cluster_info_from(j@) == Err::<ClusterInfoV, JsonErrorV>(e@),
            },
    {
        let id = match j.req_str("cluster_id") {
            Ok(v) => v,
            Err(e) => return Err(e),
        };
        let name = match j.req_str("cluster_name") {
            Ok(v) => v,
            Err(e) => return Err(e),
        };
        Ok(ClusterInfo { id, name })
    }
}

/// An optional string written as a JSON value, absence as `null`.
fn opt_str_to_json(o: &Option<String>) -> (r: Json)
    ensures
        r@ == opt_str_json(opt_strs_v(*o)),
{
    match o {
        Some(s) => Json::Str(s.clone()),
        None => Json::Null,
    }
}

impl SealStatus {
    /// The seal status of document `j`.
    pub fn from_json(j: &Json) -> (r: Result<SealStatus, JsonError>)
        ensures
            match r {
                Ok(v) => spec_seal_status_from(j@) == Ok::<SealStatusV, JsonErrorV>(v@),
                Err(e) => spec_seal_status_from(j@) == Err::<SealStatusV, JsonErrorV>(e@),
            },
    {
        let sealed = match j.req_bool("sealed") {
            Ok(v) => v,
            Err(e) => return Err(e),
        };
        let info = match SealInfo::from_json(j) {
            Ok(v) => v,
            Err(e) => return Err(e),
        };
        if sealed {
            Ok(SealStatus::Sealed(Sealed { info }))
        } else {
            let cluster = match ClusterInfo::from_json(j) {
                Ok(v) => v,
                Err(e) => return Err(e),
            };
            Ok(SealStatus::Unsealed(Unsealed { info, cluster }))
        }
    }

    /// This status written as a document.
    pub fn to_json(&self) -> (r: Json)
        ensures
            r@ == spec_seal_status_json(self@),
    {
        match self {
            SealStatus::Sealed(s) => {
                let mut fields: Vec<(String, Json)> = Vec::new();
                fields.push((String::from_str("sealed"), Json::Bool(true)));
                fields.push((String::from_str("type"), opt_str_to_json(&s.info.kind)));
                fields.push((String::from_str("t"), Json::UInt(s.info.threshold as u64)));
                fields.push((String::from_str("n"), Json::UInt(s.info.shares as u64)));
                fields.push((String::from_str("progress"), Json::UInt(s.info.progress as u64)));
                fields.push((String::from_str("nonce"), opt_str_to_json(&s.info.nonce)));
                fields.push((String::from_str("version"), Json::Str(s.info.version.clone())));
                proof {
                    assert(fields_v(fields@) =~= spec_seal_status_json(self@)->Obj_0);
                }
                Json::Obj(fields)
            },
            SealStatus::Unsealed(u) => {
                let mut fields: Vec<(String, Json)> = Vec::new();
                fields.push((String::from_str("sealed"), Json::Bool(false)));
                fields.push((String::from_str("type"), opt_str_to_json(&u.info.kind)));
                fields.push((String::from_str("t"), Json::UInt(u.info.threshold as u64)));
                fields.push((String::from_str("n"), Json::UInt(u.info.shares as u64)));
                fields.push((String::from_str("progress"), Json::UInt(u.info.progress as u64)));
                fields.push((String::from_str("nonce"), opt_str_to_json(&u.info.nonce)));
                fields.push((String::from_str("version"), Json::Str(u.info.version.clone())));
                fields.push((String::from_str("cluster_id"), Json::Str(u.cluster.id.clone())));
                fields.push(
                    (String::from_str("cluster_name"), Json::Str(u.cluster.name.clone())),
                );
                proof {
                    assert(fields_v(fields@) =~= spec_seal_status_json(self@)->Obj_0);
                }
                Json::Obj(fields)
            },
        }
    }

    /// The seal status read out of a JSON text.
    pub fn decode(text: &str) -> (r: Result<SealStatus, JsonError>)
        ensures
            match parsed_json(text@) {
                None => r matches Err(e) && e@ == JsonErrorV::Syntax,
                Some(j) => match r {
                    Ok(v) => spec_seal_status_from(j) == Ok::<SealStatusV, JsonErrorV>(v@),
                    Err(e) => spec_seal_status_from(j) == Err::<SealStatusV, JsonErrorV>(e@),
                },
            },
    {
        match parse_json(text) {
            Some(j) => SealStatus::from_json(&j),
            None => Err(JsonError::Syntax),
        }
    }

    /// This status written as JSON text.
    pub fn encode(&self) -> (r: String)
        ensures
            r@ == json_text(spec_seal_status_json(self@)),
    {
        let j = self.to_json();
        render_json(&j)
    }
}

/// Law: a seal status written as a document reads back as itself.
pub proof fn lemma_seal_status_round_trip(v: SealStatusV)
    ensures
        spec_seal_status_from(spec_seal_status_json(v)) == Ok::<SealStatusV, JsonErrorV>(v),
{
    reveal_strlit("sealed");
    reveal_strlit("type");
    reveal_strlit("t");
    reveal_strlit("n");
    reveal_strlit("progress");
    reveal_strlit("nonce");
    reveal_strlit("version");
    reveal_strlit("cluster_id");
    reveal_strlit("cluster_name");
    reveal_with_fuel(fields_get_from, 12);
    assert("sealed"@.len() == 6);
    assert("type"@.len() == 4);
    assert("t"@.len() == 1);
    assert("n"@.len() == 1);
    assert("t"@[0] == 't');
    assert("n"@[0] == 'n');
    assert("progress"@.len() == 8);
    assert("nonce"@.len() == 5);
    assert("version"@.len() == 7);
    assert("cluster_id"@.len() == 10);
    assert("cluster_name"@.len() == 12);
    let j = spec_seal_status_json(v);
    match v {
        SealStatusV::Sealed(s) => {
            assert(lookup(j, "sealed"@) == Some(JsonV::Bool(true)));
            assert(lookup(j, "type"@) == Some(opt_str_json(s.info.kind)));
            assert(lookup(j, "t"@) == Some(JsonV::UInt(s.info.threshold as u64)));
            assert(lookup(j, "n"@) == Some(JsonV::UInt(s.info.shares as u64)));
            assert(lookup(j, "progress"@) == Some(JsonV::UInt(s.info.progress as u64)));
            assert(lookup(j, "nonce"@) == Some(opt_str_json(s.info.nonce)));
            assert(lookup(j, "version"@) == Some(JsonV::Str(s.info.version)));
            assert(spec_seal_info_from(j) == Ok::<SealInfoV, JsonErrorV>(s.info));
        },
        SealStatusV::Unsealed(u) => {
            assert(lookup(j, "sealed"@) == Some(JsonV::Bool(false)));
            assert(lookup(j, "type"@) == Some(opt_str_json(u.info.kind)));
            assert(lookup(j, "t"@) == Some(JsonV::UInt(u.info.threshold as u64)));
            assert(lookup(j, "n"@) == Some(JsonV::UInt(u.info.shares as u64)));
            assert(lookup(j, "progress"@) == Some(JsonV::UInt(u.info.progress as u64)));
            assert(lookup(j, "nonce"@) == Some(opt_str_json(u.info.nonce)));
            assert(lookup(j, "version"@) == Some(JsonV::Str(u.info.version)));
            assert(lookup(j, "cluster_id"@) == Some(JsonV::Str(u.cluster.id)));
            assert(lookup(j, "cluster_name"@) == Some(JsonV::Str(u.cluster.name)));
            assert(spec_seal_info_from(j) == Ok::<SealInfoV, JsonErrorV>(u.info));
            assert(spec_cluster_info_from(j) == Ok::<ClusterInfoV, JsonErrorV>(u.cluster));
        },
    }
}

} // verus!

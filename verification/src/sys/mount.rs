//! The secret-engine mount schemas.

use vstd::prelude::*;
use std::collections::HashMap;
use crate::error::{JsonError, JsonErrorV};
use crate::json::{lookup, spec_req_bool, spec_req_str, spec_req_usize, Json, JsonV};
use crate::codec::{parse_json, parsed_json};

verus! {

/// The lease and caching parameters of a mount.
#[derive(Debug, PartialEq)]
pub struct MountConfigInfo {
    pub default_lease: usize,
    pub max_lease: usize,
    pub force_no_cache: bool,
    pub seal_wrap: bool,
}

/// The mount parameters read from a document, every field required.
pub open spec fn spec_mount_config_info_from(j: JsonV) -> Result<MountConfigInfo, JsonErrorV> {
    match spec_req_usize(j, "default_lease"@) {
        Err(e) => Err(e),
        Ok(default_lease) => match spec_req_usize(j, "max_lease"@) {
            Err(e) => Err(e),
            Ok(max_lease) => match spec_req_bool(j, "force_no_cache"@) {
                Err(e) => Err(e),
                Ok(force_no_cache) => match spec_req_bool(j, "seal_wrap"@) {
                    Err(e) => Err(e),
                    Ok(seal_wrap) => Ok(
                        MountConfigInfo { default_lease, max_lease, force_no_cache, seal_wrap },
                    ),
                },
            },
        },
    }
}

impl MountConfigInfo {
    /// The mount parameters of document `j`.
    pub fn from_json(j: &Json) -> (r: Result<MountConfigInfo, JsonError>)
        ensures
            match r {
                Ok(v) => spec_mount_config_info_from(j@) == Ok::<MountConfigInfo, JsonErrorV>(
                    v,
                ),
                Err(e) => spec_mount_config_info_from(j@) == Err::<MountConfigInfo, JsonErrorV>(
                    e@,
                ),
            },
    {
        let default_lease = match j.req_usize("default_lease") {
            Ok(v) => v,
            Err(e) => return Err(e),
        };
        let max_lease = match j.req_usize("max_lease") {
            Ok(v) => v,
            Err(e) => return Err(e),
        };
        let force_no_cache = match j.req_bool("force_no_cache") {
            Ok(v) => v,
            Err(e) => return Err(e),
        };
        let seal_wrap = match j.req_bool("seal_wrap") {
            Ok(v) => v,
            Err(e) => return Err(e),
        };
        Ok(MountConfigInfo { default_lease, max_lease, force_no_cache, seal_wrap })
    }
}

/// Which listings a mount shows up in.
#[derive(Debug, PartialEq)]
pub enum Visibility {
    Hidden,
    Unauth,
}

/// A pair of request- and response-header lists.
#[derive(Debug, PartialEq)]
pub struct KeyPairs {
    pub request: Vec<String>,
    pub response: Vec<String>,
}

impl Default for KeyPairs {
    /// Empty header lists.
    fn default() -> (r: KeyPairs)
        ensures
            r.request@ == Seq::<String>::empty(),
            r.response@ == Seq::<String>::empty(),
    {
        KeyPairs { request: Vec::new(), response: Vec::new() }
    }
}

/// The tuning payload of a mount.
#[derive(Debug, PartialEq)]
pub struct MountConfig {
    pub inner: MountConfigInfo,
    pub request_keys: Vec<String>,
    pub response_keys: Vec<String>,
    pub visibility: Visibility,
    pub passthrough_headers: Vec<String>,
    pub allowed_response_headers: Vec<String>,
}

impl MountConfig {
    /// The tuning payload built from the tuning arguments.  The conversion
    /// is not provided: every call reports that no payload can be formed,
    /// and the builders that would carry it forward that answer.
    #[allow(unused_variables)]
    pub fn create(
        path: String,
        lease: (usize, usize),
        audit: KeyPairs,
        display: Visibility,
        whitelist: KeyPairs,
    ) -> (r: Result<MountConfig, ()>)
        ensures
            r is Err,
    {
        Err(())
    }
}

/// What the server reports about one mounted secret engine.
#[derive(Debug, PartialEq)]
pub struct MountInfo {
    /// The `type` field: the kind of engine.
    pub kind: String,
    pub description: String,
    pub config: MountConfigInfo,
}

/// The mathematical value of a [`MountInfo`].
pub struct MountInfoV {
    pub kind: Seq<char>,
    pub description: Seq<char>,
    pub config: MountConfigInfo,
}

impl View for MountInfo {
    type V = MountInfoV;

    open spec fn view(&self) -> MountInfoV {
        MountInfoV { kind: self.kind@, description: self.description@, config: self.config }
    }
}

/// The mount report read from a document: its kind, description, and the
/// parameters under its `config` field.
pub open spec fn spec_mount_info_from(j: JsonV) -> Result<MountInfoV, JsonErrorV> {
    match spec_req_str(j, "type"@) {
        Err(e) => Err(e),
        Ok(kind) => match spec_req_str(j, "description"@) {
            Err(e) => Err(e),
            Ok(description) => match lookup(j, "config"@) {
                None => Err(JsonErrorV::MissingField("config"@)),
                Some(inner) => match spec_mount_config_info_from(inner) {
                    Err(e) => Err(e),
                    Ok(config) => Ok(MountInfoV { kind, description, config }),
                },
            },
        },
    }
}

impl MountInfo {
    /// The mount report of document `j`.
    pub fn from_json(j: &Json) -> (r: Result<MountInfo, JsonError>)
        ensures
            match r {
                Ok(v) => spec_mount_info_from(j@) == Ok::<MountInfoV, JsonErrorV>(v@),
                Err(e) => spec_mount_info_from(j@) == Err::<MountInfoV, JsonErrorV>(e@),
            },
    {
        let kind = match j.req_str("type") {
            Ok(v) => v,
            Err(e) => return Err(e),
        };
        let description = match j.req_str("description") {
            Ok(v) => v,
            Err(e) => return Err(e),
        };
        let config = match j.get("config") {
            None => return Err(JsonError::MissingField(String::from_str("config"))),
            Some(inner) => match MountConfigInfo::from_json(inner) {
                Ok(v) => v,
                Err(e) => return Err(e),
            },
        };
        Ok(MountInfo { kind, description, config })
    }

    /// The mount report read out of a JSON text.
    pub fn decode(text: &str) -> (r: Result<MountInfo, JsonError>)
        ensures
            match parsed_json(text@) {
                None => r matches Err(e) && e@ == JsonErrorV::Syntax,
                Some(j) => match r {
                    Ok(v) => spec_mount_info_from(j) == Ok::<MountInfoV, JsonErrorV>(v@),
                    Err(e) => spec_mount_info_from(j) == Err::<MountInfoV, JsonErrorV>(e@),
                },
            },
    {
        match parse_json(text) {
            Some(j) => MountInfo::from_json(&j),
            None => Err(JsonError::Syntax),
        }
    }
}

/// The flags a mount can additionally be created with.
#[derive(Debug, PartialEq)]
pub struct Additional {
    pub local: bool,
    pub seal_wrap: bool,
}

/// The payload that enables a secret engine.
#[derive(Debug, PartialEq)]
pub struct Mount {
    pub path: String,
    /// The `type` field: the kind of engine.
    pub kind: String,
    pub description: String,
    pub config: MountConfig,
    pub options: HashMap<String, String>,
    pub version: String,
    pub additional: Option<Additional>,
}

impl Mount {
    /// The mount payload built from the mount arguments.  The conversion is
    /// not provided: every call reports that no payload can be formed, and
    /// the builders that would carry it forward that answer.
    #[allow(unused_variables)]
    pub fn create(
        path: String,
        kind: String,
        version: Option<String>,
        config: Vec<(String, String)>,
        desc: Option<String>,
    ) -> (r: Result<Mount, ()>)
        ensures
            r is Err,
    {
        Err(())
    }
}

} // verus!

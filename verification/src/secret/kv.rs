//! The key-value secret-engine schemas.

use vstd::prelude::*;
use crate::error::{JsonError, JsonErrorV};
use crate::json::{spec_req_bool, spec_req_str, spec_req_usize, Json, JsonV};
use crate::codec::{parse_json, parsed_json};

verus! {

/// A secret read from the engine: the payload together with its lease.
#[derive(Debug, PartialEq)]
pub struct KvValue<T> {
    pub auth: Option<String>,
    pub data: T,
    /// The lease's identifier and duration in seconds.
    pub lease: (usize, String),
    pub renewable: bool,
}

/// The engine's configuration.
#[derive(Debug, PartialEq)]
pub struct Config {
    /// The `cas_required` field: whether writes must be check-and-set.
    pub atomic: bool,
    /// The `max_version` field: how many versions of a secret are kept.
    pub version: usize,
    /// The `delete_version_after` field: how long a version lives.
    pub timeout: String,
}

/// The mathematical value of a [`Config`].
pub struct ConfigV {
    pub atomic: bool,
    pub version: usize,
    pub timeout: Seq<char>,
}

impl View for Config {
    type V = ConfigV;

    open spec fn view(&self) -> ConfigV {
        ConfigV { atomic: self.atomic, version: self.version, timeout: self.timeout@ }
    }
}

/// The engine configuration read from a document.
pub open spec fn spec_config_from(j: JsonV) -> Result<ConfigV, JsonErrorV> {
    match spec_req_bool(j, "cas_required"@) {
        Err(e) => Err(e),
        Ok(atomic) => match spec_req_usize(j, "max_version"@) {
            Err(e) => Err(e),
            Ok(version) => match spec_req_str(j, "delete_version_after"@) {
                Err(e) => Err(e),
                Ok(timeout) => Ok(ConfigV { atomic, version, timeout }),
            },
        },
    }
}

impl Config {
    /// The engine configuration of document `j`.
    pub fn from_json(j: &Json) -> (r: Result<Config, JsonError>)
        ensures
            match r {
                Ok(v) => spec_config_from(j@) == Ok::<ConfigV, JsonErrorV>(v@),
                Err(e) => spec_config_from(j@) == Err::<ConfigV, JsonErrorV>(e@),
            },
    {
        let atomic = match j.req_bool("cas_required") {
            Ok(v) => v,
            Err(e) => return Err(e),
        };
        let version = match j.req_usize("max_version") {
            Ok(v) => v,
            Err(e) => return Err(e),
        };
        let timeout = match j.req_str("delete_version_after") {
            Ok(v) => v,
            Err(e) => return Err(e),
        };
        Ok(Config { atomic, version, timeout })
    }

    /// The engine configuration read out of a JSON text.
    pub fn decode(text: &str) -> (r: Result<Config, JsonError>)
        ensures
            match parsed_json(text@) {
                None => r matches Err(e) && e@ == JsonErrorV::Syntax,
                Some(j) => match r {
                    Ok(v) => spec_config_from(j) == Ok::<ConfigV, JsonErrorV>(v@),
                    Err(e) => spec_config_from(j) == Err::<ConfigV, JsonErrorV>(e@),
                },
            },
    {
        match parse_json(text) {
            Some(j) => Config::from_json(&j),
            None => Err(JsonError::Syntax),
        }
    }
}

} // verus!

//! The initialisation schemas.

use vstd::prelude::*;
use crate::error::{JsonError, JsonErrorV};
use crate::json::{spec_req_str, spec_req_str_arr, strs_v, Json, JsonV};
use crate::codec::{parse_json, parsed_json};

verus! {

/// The unseal keys and root token handed out by initialisation.
#[derive(Debug, PartialEq)]
pub struct KeysInfo {
    pub keys: Vec<String>,
    pub keys_base64: Vec<String>,
    pub root_token: String,
}

/// The mathematical value of a [`KeysInfo`].
pub struct KeysInfoV {
    pub keys: Seq<Seq<char>>,
    pub keys_base64: Seq<Seq<char>>,
    pub root_token: Seq<char>,
}

impl View for KeysInfo {
    type V = KeysInfoV;

    open spec fn view(&self) -> KeysInfoV {
        KeysInfoV {
            keys: strs_v(self.keys@),
            keys_base64: strs_v(self.keys_base64@),
            root_token: self.root_token@,
        }
    }
}

/// The key material read from an initialisation response.
pub open spec fn spec_keys_info_from(j: JsonV) -> Result<KeysInfoV, JsonErrorV> {
    match spec_req_str_arr(j, "keys"@) {
        Err(e) => Err(e),
        Ok(keys) => match spec_req_str_arr(j, "keys_base64"@) {
            Err(e) => Err(e),
            Ok(keys_base64) => match spec_req_str(j, "root_token"@) {
                Err(e) => Err(e),
                Ok(root_token) => Ok(KeysInfoV { keys, keys_base64, root_token }),
            },
        },
    }
}

impl KeysInfo {
    /// The key material of document `j`.
    pub fn from_json(j: &Json) -> (r: Result<KeysInfo, JsonError>)
        ensures
            match r {
                Ok(v) => spec_keys_info_from(j@) == Ok::<KeysInfoV, JsonErrorV>(v@),
                Err(e) => spec_keys_info_from(j@) == Err::<KeysInfoV, JsonErrorV>(e@),
            },
    {
        let keys = match j.req_str_arr("keys") {
            Ok(v) => v,
            Err(e) => return Err(e),
        };
        let keys_base64 = match j.req_str_arr("keys_base64") {
            Ok(v) => v,
            Err(e) => return Err(e),
        };
        let root_token = match j.req_str("root_token") {
            Ok(v) => v,
            Err(e) => return Err(e),
        };
        Ok(KeysInfo { keys, keys_base64, root_token })
    }

    /// The key material read out of a JSON text.
    pub fn decode(text: &str) -> (r: Result<KeysInfo, JsonError>)
        ensures
            match parsed_json(text@) {
                None => r matches Err(e) && e@ == JsonErrorV::Syntax,
                Some(j) => match r {
                    Ok(v) => spec_keys_info_from(j) == Ok::<KeysInfoV, JsonErrorV>(v@),
                    Err(e) => spec_keys_info_from(j) == Err::<KeysInfoV, JsonErrorV>(e@),
                },
            },
    {
        match parse_json(text) {
            Some(j) => KeysInfo::from_json(&j),
            None => Err(JsonError::Syntax),
        }
    }
}

/// The parameters an initialisation request is made of.
#[derive(Debug, PartialEq)]
pub struct Init {
    pub keys: Option<Vec<Vec<u8>>>,
    pub root_token: String,
    pub threshold: usize,
}

/// The recovery-key parameters of an initialisation request.
#[derive(Debug, PartialEq)]
pub struct RecoveryKey {
    pub shares: usize,
    pub threshold: usize,
    pub keys: Option<String>,
}

/// An initialisation request with its recovery-key parameters.
#[derive(Debug, PartialEq)]
pub struct SysInitPro {
    pub inner: Init,
    pub recovery: RecoveryKey,
}

/// What initialisation answers: the same key material [`KeysInfo`] carries.
#[derive(Debug, PartialEq)]
pub struct Response {
    pub keys: Vec<String>,
    pub keys_base64: Vec<String>,
    pub root_token: String,
}

} // verus!

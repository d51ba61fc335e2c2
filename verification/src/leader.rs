//! The leadership-report schema.

use vstd::prelude::*;
use crate::error::{JsonError, JsonErrorV};
use crate::json::{lookup, spec_req_bool, spec_req_str, spec_req_usize, Json, JsonV};
use crate::codec::{parse_json, parsed_json};

verus! {

/// Where the cluster's leader is reachable.
#[derive(Debug, PartialEq)]
pub struct LeaderInfo {
    /// The `leader_address` field.
    pub leader: String,
    /// The `leader_cluster_address` field.
    pub cluster: String,
}

/// The mathematical value of a [`LeaderInfo`].
pub struct LeaderInfoV {
    pub leader: Seq<char>,
    pub cluster: Seq<char>,
}

impl View for LeaderInfo {
    type V = LeaderInfoV;

    open spec fn view(&self) -> LeaderInfoV {
        LeaderInfoV { leader: self.leader@, cluster: self.cluster@ }
    }
}

/// What the server reports about cluster leadership.
#[derive(Debug, PartialEq)]
pub struct Response {
    pub ha_enabled: bool,
    pub is_self: bool,
    pub leader: LeaderInfo,
    pub standby: bool,
    /// The `performance_standby_last_remote_wal` field.
    pub standby_last_remote_wal: usize,
}

/// The mathematical value of a [`Response`].
pub struct ResponseV {
    pub ha_enabled: bool,
    pub is_self: bool,
    pub leader: LeaderInfoV,
    pub standby: bool,
    pub standby_last_remote_wal: usize,
}

impl View for Response {
    type V = ResponseV;

    open spec fn view(&self) -> ResponseV {
        ResponseV {
            ha_enabled: self.ha_enabled,
            is_self: self.is_self,
            leader: self.leader@,
            standby: self.standby,
            standby_last_remote_wal: self.standby_last_remote_wal,
        }
    }
}

/// The leadership report read from a document.
pub open spec fn spec_leader_from(j: JsonV) -> Result<ResponseV, JsonErrorV> {
    match spec_req_bool(j, "ha_enabled"@) {
        Err(e) => Err(e),
        Ok(ha_enabled) => match spec_req_bool(j, "is_self"@) {
            Err(e) => Err(e),
            Ok(is_self) => match spec_req_str(j, "leader_address"@) {
                Err(e) => Err(e),
                Ok(leader) => match spec_req_str(j, "leader_cluster_address"@) {
                    Err(e) => Err(e),
                    Ok(cluster) => match spec_req_bool(j, "performance_standby"@) {
                        Err(e) => Err(e),
                        Ok(standby) => match spec_req_usize(
                            j,
                            "performance_standby_last_remote_wal"@,
                        ) {
                            Err(e) => Err(e),
                            Ok(standby_last_remote_wal) => Ok(
                                ResponseV {
                                    ha_enabled,
                                    is_self,
                                    leader: LeaderInfoV { leader, cluster },
                                    standby,
                                    standby_last_remote_wal,
                                },
                            ),
                        },
                    },
                },
            },
        },
    }
}

impl Response {
    /// The leadership report of document `j`.
    pub fn from_json(j: &Json) -> (r: Result<Response, JsonError>)
        ensures
            match r {
                Ok(v) => spec_leader_from(j@) == Ok::<ResponseV, JsonErrorV>(v@),
                Err(e) => spec_leader_from(j@) == Err::<ResponseV, JsonErrorV>(e@),
            },
    {
        let ha_enabled = match j.req_bool("ha_enabled") {
            Ok(v) => v,
            Err(e) => return Err(e),
        };
        let is_self = match j.req_bool("is_self") {
            Ok(v) => v,
            Err(e) => return Err(e),
        };
        let leader = match j.req_str("leader_address") {
            Ok(v) => v,
            Err(e) => return Err(e),
        };
        let cluster = match j.req_str("leader_cluster_address") {
            Ok(v) => v,
            Err(e) => return Err(e),
        };
        let standby = match j.req_bool("performance_standby") {
            Ok(v) => v,
            Err(e) => return Err(e),
        };
        let standby_last_remote_wal = match j.req_usize("performance_standby_last_remote_wal") {
            Ok(v) => v,
            Err(e) => return Err(e),
        };
        Ok(
            Response {
                ha_enabled,
                is_self,
                leader: LeaderInfo { leader, cluster },
                standby,
                standby_last_remote_wal,
            },
        )
    }

    /// The leadership report read out of a JSON text.
    pub fn decode(text: &str) -> (r: Result<Response, JsonError>)
        ensures
            match parsed_json(text@) {
                None => r matches Err(e) && e@ == JsonErrorV::Syntax,
                Some(j) => match r {
                    Ok(v) => spec_leader_from(j) == Ok::<ResponseV, JsonErrorV>(v@),
                    Err(e) => spec_leader_from(j) == Err::<ResponseV, JsonErrorV>(e@),
                },
            },
    {
        match parse_json(text) {
            Some(j) => Response::from_json(&j),
            None => Err(JsonError::Syntax),
        }
    }
}

} // verus!

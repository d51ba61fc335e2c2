//! The health-report schema.

use vstd::prelude::*;
use crate::error::{JsonError, JsonErrorV};
use crate::json::{spec_req_bool, spec_req_str, spec_req_usize, Json, JsonV};
use crate::codec::{parse_json, parsed_json};

verus! {

/// What the server reports about its own health.
#[derive(Debug, PartialEq)]
pub struct HealthInfo {
    pub initialized: bool,
    pub sealed: bool,
    pub standby: bool,
    pub performance_standby: bool,
    pub replication_perf_mode: String,
    pub replication_dr_mode: String,
    pub server_time: usize,
    pub version: String,
    pub cluster_name: String,
    pub cluster_id: String,
}

/// The mathematical value of a [`HealthInfo`].
pub struct HealthInfoV {
    pub initialized: bool,
    pub sealed: bool,
    pub standby: bool,
    pub performance_standby: bool,
    pub replication_perf_mode: Seq<char>,
    pub replication_dr_mode: Seq<char>,
    pub server_time: usize,
    pub version: Seq<char>,
    pub cluster_name: Seq<char>,
    pub cluster_id: Seq<char>,
}

impl View for HealthInfo {
    type V = HealthInfoV;

    open spec fn view(&self) -> HealthInfoV {
        HealthInfoV {
            initialized: self.initialized,
            sealed: self.sealed,
            standby: self.standby,
            performance_standby: self.performance_standby,
            replication_perf_mode: self.replication_perf_mode@,
            replication_dr_mode: self.replication_dr_mode@,
            server_time: self.server_time,
            version: self.version@,
            cluster_name: self.cluster_name@,
            cluster_id: self.cluster_id@,
        }
    }
}

/// The health report read from a document, every field required.
pub open spec fn spec_health_info_from(j: JsonV) -> Result<HealthInfoV, JsonErrorV> {
    match spec_req_bool(j, "initialized"@) {
        Err(e) => Err(e),
        Ok(initialized) => match spec_req_bool(j, "sealed"@) {
            Err(e) => Err(e),
            Ok(sealed) => match spec_req_bool(j, "standby"@) {
                Err(e) => Err(e),
                Ok(standby) => match spec_req_bool(j, "performance_standby"@) {
                    Err(e) => Err(e),
                    Ok(performance_standby) => match spec_req_str(j, "replication_perf_mode"@) {
                        Err(e) => Err(e),
                        Ok(replication_perf_mode) => match spec_req_str(
                            j,
                            "replication_dr_mode"@,
                        ) {
                            Err(e) => Err(e),
                            Ok(replication_dr_mode) => match spec_req_usize(j, "server_time"@) {
                                Err(e) => Err(e),
                                Ok(server_time) => match spec_req_str(j, "version"@) {
                                    Err(e) => Err(e),
                                    Ok(version) => match spec_req_str(j, "cluster_name"@) {
                                        Err(e) => Err(e),
                                        Ok(cluster_name) => match spec_req_str(
                                            j,
                                            "cluster_id"@,
                                        ) {
                                            Err(e) => Err(e),
                                            Ok(cluster_id) => Ok(
                                                HealthInfoV {
                                                    initialized,
                                                    sealed,
                                                    standby,
                                                    performance_standby,
                                                    replication_perf_mode,
                                                    replication_dr_mode,
                                                    server_time,
                                                    version,
                                                    cluster_name,
                                                    cluster_id,
                                                },
                                            ),
                                        },
                                    },
                                },
                            },
                        },
                    },
                },
            },
        },
    }
}

impl HealthInfo {
    /// The health report of document `j`.
    pub fn from_json(j: &Json) -> (r: Result<HealthInfo, JsonError>)
        ensures
            match r {
                Ok(v) => spec_health_info_from(j@) == Ok::<HealthInfoV, JsonErrorV>(v@),
                Err(e) => spec_health_info_from(j@) == Err::<HealthInfoV, JsonErrorV>(e@),
            },
    {
        let initialized = match j.req_bool("initialized") {
            Ok(v) => v,
            Err(e) => return Err(e),
        };
        let sealed = match j.req_bool("sealed") {
            Ok(v) => v,
            Err(e) => return Err(e),
        };
        let standby = match j.req_bool("standby") {
            Ok(v) => v,
            Err(e) => return Err(e),
        };
        let performance_standby = match j.req_bool("performance_standby") {
            Ok(v) => v,
            Err(e) => return Err(e),
        };
        let replication_perf_mode = match j.req_str("replication_perf_mode") {
            Ok(v) => v,
            Err(e) => return Err(e),
        };
        let replication_dr_mode = match j.req_str("replication_dr_mode") {
            Ok(v) => v,
            Err(e) => return Err(e),
        };
        let server_time = match j.req_usize("server_time") {
            Ok(v) => v,
            Err(e) => return Err(e),
        };
        let version = match j.req_str("version") {
            Ok(v) => v,
            Err(e) => return Err(e),
        };
        let cluster_name = match j.req_str("cluster_name") {
            Ok(v) => v,
            Err(e) => return Err(e),
        };
        let cluster_id = match j.req_str("cluster_id") {
            Ok(v) => v,
            Err(e) => return Err(e),
        };
        Ok(
            HealthInfo {
                initialized,
                sealed,
                standby,
                performance_standby,
                replication_perf_mode,
                replication_dr_mode,
                server_time,
                version,
                cluster_name,
                cluster_id,
            },
        )
    }

    /// The health report read out of a JSON text.
    pub fn decode(text: &str) -> (r: Result<HealthInfo, JsonError>)
        ensures
            match parsed_json(text@) {
                None => r matches Err(e) && e@ == JsonErrorV::Syntax,
                Some(j) => match r {
                    Ok(v) => spec_health_info_from(j) == Ok::<HealthInfoV, JsonErrorV>(v@),
                    Err(e) => spec_health_info_from(j) == Err::<HealthInfoV, JsonErrorV>(e@),
                },
            },
    {
        match parse_json(text) {
            Some(j) => HealthInfo::from_json(&j),
            None => Err(JsonError::Syntax),
        }
    }
}

} // verus!

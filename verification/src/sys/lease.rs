//! The lease schemas.

use vstd::prelude::*;
use vstd::string::StringExecFns;
use crate::error::{JsonError, JsonErrorV};
use crate::json::{
    lookup, spec_opt_usize, spec_req_str, spec_req_str_arr, spec_req_usize, strs_v,
    Json, JsonV,
};
use crate::codec::{parse_json, parsed_json};

verus! {

/// What the server reports about one lease.
#[derive(Debug, PartialEq)]
pub struct Status {
    pub id: String,
    pub issue_time: usize,
    pub expire_time: usize,
    pub last_renewal_time: Option<usize>,
    pub ttl: usize,
}

/// The mathematical value of a [`Status`].
pub struct StatusV {
    pub id: Seq<char>,
    pub issue_time: usize,
    pub expire_time: usize,
    pub last_renewal_time: Option<usize>,
    pub ttl: usize,
}

impl View for Status {
    type V = StatusV;

    open spec fn view(&self) -> StatusV {
        StatusV {
            id: self.id@,
            issue_time: self.issue_time,
            expire_time: self.expire_time,
            last_renewal_time: self.last_renewal_time,
            ttl: self.ttl,
        }
    }
}

impl Default for Status {
    /// An empty lease report: every field zero or absent.
    fn default() -> (r: Status)
        ensures
            r.id@ == Seq::<char>::empty(),
            r.issue_time == 0,
            r.expire_time == 0,
            r.last_renewal_time is None,
            r.ttl == 0,
    {
        Status {
            id: String::new(),
            issue_time: 0,
            expire_time: 0,
            last_renewal_time: None,
            ttl: 0,
        }
    }
}

/// A lease, by whether it can still be renewed.
#[derive(Debug, PartialEq)]
pub enum LeaseStatus {
    Renewable(Status),
    Static(Status),
}

/// The mathematical value of a [`LeaseStatus`].
pub enum LeaseStatusV {
    Renewable(StatusV),
    Static(StatusV),
}

impl View for LeaseStatus {
    type V = LeaseStatusV;

    open spec fn view(&self) -> LeaseStatusV {
        match self {
            LeaseStatus::Renewable(s) => LeaseStatusV::Renewable(s@),
            LeaseStatus::Static(s) => LeaseStatusV::Static(s@),
        }
    }
}

impl Default for LeaseStatus {
    /// A static lease with an empty report.
    fn default() -> (r: LeaseStatus)
        ensures
            r@ matches LeaseStatusV::Static(s) && s.id == Seq::<char>::empty() && s.issue_time
                == 0 && s.expire_time == 0 && s.last_renewal_time is None && s.ttl == 0,
    {
        LeaseStatus::Static(Status::default())
    }
}

/// The lease report read from a document.
pub open spec fn spec_status_from(j: JsonV) -> Result<StatusV, JsonErrorV> {
    match spec_req_str(j, "id"@) {
        Err(e) => Err(e),
        Ok(id) => match spec_req_usize(j, "issue_time"@) {
            Err(e) => Err(e),
            Ok(issue_time) => match spec_req_usize(j, "expire_time"@) {
                Err(e) => Err(e),
                Ok(expire_time) => match spec_opt_usize(j, "last_renewal_time"@) {
                    Err(e) => Err(e),
                    Ok(last_renewal_time) => match spec_req_usize(j, "ttl"@) {
                        Err(e) => Err(e),
                        Ok(ttl) => Ok(
                            StatusV { id, issue_time, expire_time, last_renewal_time, ttl },
                        ),
                    },
                },
            },
        },
    }
}

/// The lease status read from a document: one `Renewable` or `Static` field
/// carries the report, and a document with neither is rejected.
pub open spec fn spec_lease_status_from(j: JsonV) -> Result<LeaseStatusV, JsonErrorV> {
    match lookup(j, "Renewable"@) {
        Some(inner) => match spec_status_from(inner) {
            Ok(s) => Ok(LeaseStatusV::Renewable(s)),
            Err(e) => Err(e),
        },
        None => match lookup(j, "Static"@) {
            Some(inner) => match spec_status_from(inner) {
                Ok(s) => Ok(LeaseStatusV::Static(s)),
                Err(e) => Err(e),
            },
            None => Err(JsonErrorV::WrongType("LeaseStatus"@)),
        },
    }
}

impl Status {
    /// The lease report of document `j`.
    pub fn from_json(j: &Json) -> (r: Result<Status, JsonError>)
        ensures
            match r {
                Ok(v) => spec_status_from(j@) == Ok::<StatusV, JsonErrorV>(v@),
                Err(e) => spec_status_from(j@) == Err::<StatusV, JsonErrorV>(e@),
            },
    {
        let id = match j.req_str("id") {
            Ok(v) => v,
            Err(e) => return Err(e),
        };
        let issue_time = match j.req_usize("issue_time") {
            Ok(v) => v,
            Err(e) => return Err(e),
        };
        let expire_time = match j.req_usize("expire_time") {
            Ok(v) => v,
            Err(e) => return Err(e),
        };
        let last_renewal_time = match j.opt_usize("last_renewal_time") {
            Ok(v) => v,
            Err(e) => return Err(e),
        };
        let ttl = match j.req_usize("ttl") {
            Ok(v) => v,
            Err(e) => return Err(e),
        };
        Ok(Status { id, issue_time, expire_time, last_renewal_time, ttl })
    }
}

impl LeaseStatus {
    /// The lease status of document `j`.
    pub fn from_json(j: &Json) -> (r: Result<LeaseStatus, JsonError>)
        ensures
            match r {
                Ok(v) => spec_lease_status_from(j@) == Ok::<LeaseStatusV, JsonErrorV>(v@),
                Err(e) => spec_lease_status_from(j@) == Err::<LeaseStatusV, JsonErrorV>(e@),
            },
    {
        match j.get("Renewable") {
            Some(inner) => match Status::from_json(inner) {
                Ok(s) => Ok(LeaseStatus::Renewable(s)),
                Err(e) => Err(e),
            },
            None => match j.get("Static") {
                Some(inner) => match Status::from_json(inner) {
                    Ok(s) => Ok(LeaseStatus::Static(s)),
                    Err(e) => Err(e),
                },
                None => Err(JsonError::WrongType(String::from_str("LeaseStatus"))),
            },
        }
    }

    /// The lease status read out of a JSON text.
    pub fn decode(text: &str) -> (r: Result<LeaseStatus, JsonError>)
        ensures
            match parsed_json(text@) {
                None => r matches Err(e) && e@ == JsonErrorV::Syntax,
                Some(j) => match r {
                    Ok(v) => spec_lease_status_from(j) == Ok::<LeaseStatusV, JsonErrorV>(v@),
                    Err(e) => spec_lease_status_from(j) == Err::<LeaseStatusV, JsonErrorV>(e@),
                },
            },
    {
        match parse_json(text) {
            Some(j) => LeaseStatus::from_json(&j),
            None => Err(JsonError::Syntax),
        }
    }
}

/// The lease names under a prefix, as a listing response carries them:
/// wrapped in a `data` object whose `keys` field is the array.
#[derive(Debug, PartialEq)]
pub struct ListLeaseData {
    pub keys: Vec<String>,
}

/// The mathematical value of a [`ListLeaseData`].
pub struct ListLeaseDataV {
    pub keys: Seq<Seq<char>>,
}

impl View for ListLeaseData {
    type V = ListLeaseDataV;

    open spec fn view(&self) -> ListLeaseDataV {
        ListLeaseDataV { keys: strs_v(self.keys@) }
    }
}

/// The lease names read from a listing response.
pub open spec fn spec_list_lease_from(j: JsonV) -> Result<ListLeaseDataV, JsonErrorV> {
    match lookup(j, "data"@) {
        None => Err(JsonErrorV::MissingField("data"@)),
        Some(inner) => match spec_req_str_arr(inner, "keys"@) {
            Err(e) => Err(e),
            Ok(keys) => Ok(ListLeaseDataV { keys }),
        },
    }
}

impl ListLeaseData {
    /// The lease names of document `j`.
    pub fn from_json(j: &Json) -> (r: Result<ListLeaseData, JsonError>)
        ensures
            match r {
                Ok(v) => spec_list_lease_from(j@) == Ok::<ListLeaseDataV, JsonErrorV>(v@),
                Err(e) => spec_list_lease_from(j@) == Err::<ListLeaseDataV, JsonErrorV>(e@),
            },
    {
        match j.get("data") {
            None => Err(JsonError::MissingField(String::from_str("data"))),
            Some(inner) => match inner.req_str_arr("keys") {
                Ok(keys) => Ok(ListLeaseData { keys }),
                Err(e) => Err(e),
            },
        }
    }

    /// The lease names read out of a JSON text.
    pub fn decode(text: &str) -> (r: Result<ListLeaseData, JsonError>)
        ensures
            match parsed_json(text@) {
                None => r matches Err(e) && e@ == JsonErrorV::Syntax,
                Some(j) => match r {
                    Ok(v) => spec_list_lease_from(j) == Ok::<ListLeaseDataV, JsonErrorV>(v@),
                    Err(e) => spec_list_lease_from(j) == Err::<ListLeaseDataV, JsonErrorV>(
                        e@,
                    ),
                },
            },
    {
        match parse_json(text) {
            Some(j) => ListLeaseData::from_json(&j),
            None => Err(JsonError::Syntax),
        }
    }
}

} // verus!

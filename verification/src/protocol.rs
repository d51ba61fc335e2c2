//! The request builders of the system endpoints.
//!
//! Every operation is a direct mapping from a method call to a request
//! against the server's fixed REST surface: a verb, a path under the
//! caller's API version, and sometimes a small JSON body.  [`RequestSpec`]
//! carries that description as plain values; the transport that performs it
//! lives outside this crate.

use vstd::prelude::*;
use vstd::string::StringExecFns;
use crate::error::{Error, ErrorV, JsonError, JsonErrorV};
use crate::json::{fields_v, Json, JsonV};
use crate::codec::{json_text, render_json};

verus! {

/// The verb of a request.  `List` is the server's own extension verb.
#[derive(Debug, PartialEq, Eq, Clone, Copy)]
pub enum Method {
    Get,
    Put,
    Post,
    Delete,
    List,
}

/// A request, described as plain values: verb, full URI, optional body.
#[derive(Debug, PartialEq)]
pub struct RequestSpec {
    pub method: Method,
    pub uri: String,
    pub body: Option<String>,
}

/// The mathematical value of a [`RequestSpec`].
pub struct RequestSpecV {
    pub method: Method,
    pub uri: Seq<char>,
    pub body: Option<Seq<char>>,
}

impl View for RequestSpec {
    type V = RequestSpecV;

    open spec fn view(&self) -> RequestSpecV {
        RequestSpecV {
            method: self.method,
            uri: self.uri@,
            body: match self.body {
                Some(ref b) => Some(b@),
                None => None,
            },
        }
    }
}

/// Where requests are aimed: the scheme, host and API version every path is
/// appended to.
#[derive(Debug, PartialEq)]
pub struct SystemProtocol {
    pub version: String,
    pub scheme: String,
    pub authority: String,
}

/// The mathematical value of a [`SystemProtocol`].
pub struct SystemProtocolV {
    pub version: Seq<char>,
    pub scheme: Seq<char>,
    pub authority: Seq<char>,
}

impl View for SystemProtocol {
    type V = SystemProtocolV;

    open spec fn view(&self) -> SystemProtocolV {
        SystemProtocolV {
            version: self.version@,
            scheme: self.scheme@,
            authority: self.authority@,
        }
    }
}

/// The URI a path is requested at: scheme, authority, then the path under
/// the API version.
pub open spec fn spec_uri(p: SystemProtocolV, path_query: Seq<char>) -> Seq<char> {
    p.scheme + "://"@ + p.authority + p.version + path_query
}

/// The body that names a lease.
pub open spec fn spec_lease_id_body(id: Seq<char>) -> JsonV {
    JsonV::Obj(seq![("lease_id"@, JsonV::Str(id))])
}

/// The body that renews a lease by `increment` seconds.
pub open spec fn spec_renew_body(id: Seq<char>, increment: u64) -> JsonV {
    JsonV::Obj(seq![("lease_id"@, JsonV::Str(id)), ("increment"@, JsonV::UInt(increment))])
}

/// The body that submits an unseal key share.
pub open spec fn spec_unseal_body(key: Seq<char>, reset: bool, migrate: bool) -> JsonV {
    JsonV::Obj(
        seq![
            ("key"@, JsonV::Str(key)),
            ("reset"@, JsonV::Bool(reset)),
            ("migrate"@, JsonV::Bool(migrate)),
        ],
    )
}

/// The body that moves a mount.
pub open spec fn spec_remount_body(from: Seq<char>, to: Seq<char>) -> JsonV {
    JsonV::Obj(seq![("from"@, JsonV::Str(from)), ("to"@, JsonV::Str(to))])
}

/// `o`, or `false` when it holds nothing.
pub open spec fn spec_or_false(o: Option<bool>) -> bool {
    match o {
        Some(b) => b,
        None => false,
    }
}

/// An object of one field.
fn body_obj1(k: &str, v: Json) -> (r: Json)
    ensures
        r@ == JsonV::Obj(seq![(k@, v@)]),
{
    let mut fields: Vec<(String, Json)> = Vec::new();
    fields.push((String::from_str(k), v));
    proof {
        assert(fields_v(fields@) =~= seq![(k@, v@)]);
    }
    Json::Obj(fields)
}

/// An object of two fields, in order.
fn body_obj2(k1: &str, v1: Json, k2: &str, v2: Json) -> (r: Json)
    ensures
        r@ == JsonV::Obj(seq![(k1@, v1@), (k2@, v2@)]),
{
    let mut fields: Vec<(String, Json)> = Vec::new();
    fields.push((String::from_str(k1), v1));
    fields.push((String::from_str(k2), v2));
    proof {
        assert(fields_v(fields@) =~= seq![(k1@, v1@), (k2@, v2@)]);
    }
    Json::Obj(fields)
}

/// An object of three fields, in order.
fn body_obj3(k1: &str, v1: Json, k2: &str, v2: Json, k3: &str, v3: Json) -> (r: Json)
    ensures
        r@ == JsonV::Obj(seq![(k1@, v1@), (k2@, v2@), (k3@, v3@)]),
{
    let mut fields: Vec<(String, Json)> = Vec::new();
    fields.push((String::from_str(k1), v1));
    fields.push((String::from_str(k2), v2));
    fields.push((String::from_str(k3), v3));
    proof {
        assert(fields_v(fields@) =~= seq![(k1@, v1@), (k2@, v2@), (k3@, v3@)]);
    }
    Json::Obj(fields)
}

impl SystemProtocol {
    /// A protocol aimed at `scheme://authority`, every path under `version`.
    pub fn new(version: String, scheme: String, authority: String) -> (r: SystemProtocol)
        ensures
            r@ == (SystemProtocolV { version: version@, scheme: scheme@, authority: authority@ }),
    {
        SystemProtocol { version, scheme, authority }
    }

    /// The URI of `path_query` under this protocol.
    fn build_uri(&self, path_query: &str) -> (r: String)
        ensures
            r@ == spec_uri(self@, path_query@),
    {
        let mut u = self.scheme.clone();
        u.append("://");
        u.append(self.authority.as_str());
        u.append(self.version.as_str());
        u.append(path_query);
        u
    }

    /// The health check: bare `GET` on the health path.
    pub fn health(&self) -> (r: Result<RequestSpec, Error>)
        ensures
            r matches Ok(q) && q@ == (RequestSpecV {
                method: Method::Get,
                uri: spec_uri(self@, "/sys/health"@),
                body: None,
            }),
    {
        let uri = self.build_uri("/sys/health");
        Ok(RequestSpec { method: Method::Get, uri, body: None })
    }

    /// Reading one lease: `PUT` on the lookup path, the lease named in the
    /// body.
    pub fn read_lease(&self, id: &str) -> (r: Result<RequestSpec, Error>)
        ensures
            r matches Ok(q) && q@ == (RequestSpecV {
                method: Method::Put,
                uri: spec_uri(self@, "/sys/leases/lookup"@),
                body: Some(json_text(spec_lease_id_body(id@))),
            }),
    {
        let uri = self.build_uri("/sys/leases/lookup");
        let body = render_json(&body_obj1("lease_id", Json::Str(String::from_str(id))));
        Ok(RequestSpec { method: Method::Put, uri, body: Some(body) })
    }

    /// Listing leases: `LIST` on the lookup path, or under a prefix of it.
    pub fn list_lease(&self, prefix: Option<&str>) -> (r: Result<RequestSpec, Error>)
        ensures
            r matches Ok(q) && q@ == (RequestSpecV {
                method: Method::List,
                uri: spec_uri(
                    self@,
                    match prefix {
                        Some(p) => "/sys/leases/lookup/"@ + p@,
                        None => "/sys/leases/lookup"@,
                    },
                ),
                body: None,
            }),
    {
        let uri = match prefix {
            Some(p) => {
                let mut pq = String::from_str("/sys/leases/lookup/");
                pq.append(p);
                self.build_uri(pq.as_str())
            },
            None => self.build_uri("/sys/leases/lookup"),
        };
        Ok(RequestSpec { method: Method::List, uri, body: None })
    }

    /// Renewing a lease: `PUT` on the renew path, the lease and the asked
    /// increment, in seconds, in the body.
    pub fn renew_lease(&self, id: &str, increment: u64) -> (r: Result<RequestSpec, Error>)
        ensures
            r matches Ok(q) && q@ == (RequestSpecV {
                method: Method::Put,
                uri: spec_uri(self@, "/sys/leases/renew"@),
                body: Some(json_text(spec_renew_body(id@, increment))),
            }),
    {
        let uri = self.build_uri("/sys/leases/renew");
        let body = render_json(
            &body_obj2(
                "lease_id",
                Json::Str(String::from_str(id)),
                "increment",
                Json::UInt(increment),
            ),
        );
        Ok(RequestSpec { method: Method::Put, uri, body: Some(body) })
    }

    /// Revoking one lease: `PUT` on the revoke path, the lease named in the
    /// body.
    pub fn revoke_lease(&self, id: &str) -> (r: Result<RequestSpec, Error>)
        ensures
            r matches Ok(q) && q@ == (RequestSpecV {
                method: Method::Put,
                uri: spec_uri(self@, "/sys/leases/revoke"@),
                body: Some(json_text(spec_lease_id_body(id@))),
            }),
    {
        let uri = self.build_uri("/sys/leases/revoke");
        let body = render_json(&body_obj1("lease_id", Json::Str(String::from_str(id))));
        Ok(RequestSpec { method: Method::Put, uri, body: Some(body) })
    }

    /// Revoking every lease under a prefix: `PUT` under the revoke-prefix
    /// path, or the forcing one when `forced`.
    pub fn revoke_prefix(&self, prefix: &str, forced: bool) -> (r: Result<RequestSpec, Error>)
        ensures
            r matches Ok(q) && q@ == (RequestSpecV {
                method: Method::Put,
                uri: spec_uri(
                    self@,
                    (if forced {
                        "/sys/leases/revoke-force/"@
                    } else {
                        "/sys/leases/revoke-prefix/"@
                    }) + prefix@,
                ),
                body: None,
            }),
    {
        let mut pq = if forced {
            String::from_str("/sys/leases/revoke-force/")
        } else {
            String::from_str("/sys/leases/revoke-prefix/")
        };
        pq.append(prefix);
        let uri = self.build_uri(pq.as_str());
        Ok(RequestSpec { method: Method::Put, uri, body: None })
    }

    /// Listing namespaces: `LIST` on the namespace path.
    pub fn list_namespace(&self) -> (r: Result<RequestSpec, Error>)
        ensures
            r matches Ok(q) && q@ == (RequestSpecV {
                method: Method::List,
                uri: spec_uri(self@, "/sys/namespaces"@),
                body: None,
            }),
    {
        let uri = self.build_uri("/sys/namespaces");
        Ok(RequestSpec { method: Method::List, uri, body: None })
    }

    /// Creating a namespace: `POST` under the namespace path.
    pub fn create_namespace(&self, path: &str) -> (r: Result<RequestSpec, Error>)
        ensures
            r matches Ok(q) && q@ == (RequestSpecV {
                method: Method::Post,
                uri: spec_uri(self@, "/sys/namespaces/"@ + path@),
                body: None,
            }),
    {
        let mut pq = String::from_str("/sys/namespaces/");
        pq.append(path);
        let uri = self.build_uri(pq.as_str());
        Ok(RequestSpec { method: Method::Post, uri, body: None })
    }

    /// Deleting a namespace: `DELETE` under the namespace path.
    pub fn delete_namespace(&self, path: &str) -> (r: Result<RequestSpec, Error>)
        ensures
            r matches Ok(q) && q@ == (RequestSpecV {
                method: Method::Delete,
                uri: spec_uri(self@, "/sys/namespaces/"@ + path@),
                body: None,
            }),
    {
        let mut pq = String::from_str("/sys/namespaces/");
        pq.append(path);
        let uri = self.build_uri(pq.as_str());
        Ok(RequestSpec { method: Method::Delete, uri, body: None })
    }

    /// Showing a namespace: `GET` under the namespace path.
    pub fn show_namespace(&self, path: &str) -> (r: Result<RequestSpec, Error>)
        ensures
            r matches Ok(q) && q@ == (RequestSpecV {
                method: Method::Get,
                uri: spec_uri(self@, "/sys/namespaces/"@ + path@),
                body: None,
            }),
    {
        let mut pq = String::from_str("/sys/namespaces/");
        pq.append(path);
        let uri = self.build_uri(pq.as_str());
        Ok(RequestSpec { method: Method::Get, uri, body: None })
    }

    /// Sealing the server: bare `PUT` on the seal path.
    pub fn seal(&self) -> (r: Result<RequestSpec, Error>)
        ensures
            r matches Ok(q) && q@ == (RequestSpecV {
                method: Method::Put,
                uri: spec_uri(self@, "/sys/seal"@),
                body: None,
            }),
    {
        let uri = self.build_uri("/sys/seal");
        Ok(RequestSpec { method: Method::Put, uri, body: None })
    }

    /// Submitting an unseal key share: `PUT` on the unseal path; the reset
    /// and migrate flags read as `false` when not given.
    pub fn unseal(&self, key: String, reset: Option<bool>, migrate: Option<bool>) -> (r: Result<
        RequestSpec,
        Error,
    >)
        ensures
            r matches Ok(q) && q@ == (RequestSpecV {
                method: Method::Put,
                uri: spec_uri(self@, "/sys/unseal"@),
                body: Some(
                    json_text(
                        spec_unseal_body(key@, spec_or_false(reset), spec_or_false(migrate)),
                    ),
                ),
            }),
    {
        let uri = self.build_uri("/sys/unseal");
        let reset_flag = match reset {
            Some(b) => b,
            None => false,
        };
        let migrate_flag = match migrate {
            Some(b) => b,
            None => false,
        };
        let body = render_json(
            &body_obj3(
                "key",
                Json::Str(key),
                "reset",
                Json::Bool(reset_flag),
                "migrate",
                Json::Bool(migrate_flag),
            ),
        );
        Ok(RequestSpec { method: Method::Put, uri, body: Some(body) })
    }

    /// Reading the seal status: `GET` on the seal-status path.
    pub fn seal_info(&self) -> (r: Result<RequestSpec, Error>)
        ensures
            r matches Ok(q) && q@ == (RequestSpecV {
                method: Method::Get,
                uri: spec_uri(self@, "/sys/seal-status"@),
                body: None,
            }),
    {
        let uri = self.build_uri("/sys/seal-status");
        Ok(RequestSpec { method: Method::Get, uri, body: None })
    }

    /// Listing the mounted secret engines: `GET` on the mount path.
    pub fn list_mounts(&self) -> (r: Result<RequestSpec, Error>)
        ensures
            r matches Ok(q) && q@ == (RequestSpecV {
                method: Method::Get,
                uri: spec_uri(self@, "/sys/mounts"@),
                body: None,
            }),
    {
        let uri = self.build_uri("/sys/mounts");
        Ok(RequestSpec { method: Method::Get, uri, body: None })
    }

    /// Enabling a secret engine.  The mount payload's conversion is not
    /// provided ([`crate::sys::mount::Mount::create`]), so no request can be
    /// formed: every call reports the body unserialisable.
    #[allow(unused_variables)]
    pub fn mount(
        &self,
        path: String,
        kind: String,
        version: Option<String>,
        config: Vec<(String, String)>,
        desc: Option<String>,
    ) -> (r: Result<RequestSpec, Error>)
        ensures
            r matches Err(e) && e@ == ErrorV::JsonError(JsonErrorV::Unserializable),
    {
        Err(Error::JsonError(JsonError::Unserializable))
    }

    /// Disabling a secret engine: `DELETE` under the mount path.
    pub fn unmount(&self, path: String) -> (r: Result<RequestSpec, Error>)
        ensures
            r matches Ok(q) && q@ == (RequestSpecV {
                method: Method::Delete,
                uri: spec_uri(self@, "/sys/mounts/"@ + path@),
                body: None,
            }),
    {
        let mut pq = String::from_str("/sys/mounts/");
        pq.append(path.as_str());
        let uri = self.build_uri(pq.as_str());
        Ok(RequestSpec { method: Method::Delete, uri, body: None })
    }

    /// Reading a mount's configuration: `GET` on the mount's tune path.
    pub fn read_mount(&self, path: String) -> (r: Result<RequestSpec, Error>)
        ensures
            r matches Ok(q) && q@ == (RequestSpecV {
                method: Method::Get,
                uri: spec_uri(self@, "/sys/mounts/"@ + path@ + "/tune"@),
                body: None,
            }),
    {
        let mut pq = String::from_str("/sys/mounts/");
        pq.append(path.as_str());
        pq.append("/tune");
        let uri = self.build_uri(pq.as_str());
        Ok(RequestSpec { method: Method::Get, uri, body: None })
    }

    /// Tuning a mount.  The tuning payload's conversion is not provided
    /// ([`crate::sys::mount::MountConfig::create`]), so no request can be
    /// formed: every call reports the body unserialisable.
    #[allow(unused_variables)]
    pub fn modify_mount(
        &self,
        path: String,
        lease: (usize, usize),
        audit: crate::sys::mount::KeyPairs,
        display: crate::sys::mount::Visibility,
        whitelist: crate::sys::mount::KeyPairs,
    ) -> (r: Result<RequestSpec, Error>)
        ensures
            r matches Err(e) && e@ == ErrorV::JsonError(JsonErrorV::Unserializable),
    {
        Err(Error::JsonError(JsonError::Unserializable))
    }

    /// Moving a mount: `POST` on the remount path, the ends in the body.
    pub fn remount(&self, from: String, to: String) -> (r: Result<RequestSpec, Error>)
        ensures
            r matches Ok(q) && q@ == (RequestSpecV {
                method: Method::Post,
                uri: spec_uri(self@, "/sys/remount"@),
                body: Some(json_text(spec_remount_body(from@, to@))),
            }),
    {
        let uri = self.build_uri("/sys/remount");
        let body = render_json(&body_obj2("from", Json::Str(from), "to", Json::Str(to)));
        Ok(RequestSpec { method: Method::Post, uri, body: Some(body) })
    }
}

/// The request builders under their older name.
pub type Protocol = SystemProtocol;

} // verus!

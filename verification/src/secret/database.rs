//! The database secret-engine configuration schemas.
//!
//! A database backend is configured by one JSON object whose `plugin_name`
//! decides which connection schema the rest of the object follows; the
//! credential inside a connection is itself a tagged union, the `tls` flag
//! choosing between a username/password pair and a PEM certificate bundle,
//! and the bundle in turn takes one of three shapes.  These tagged unions are
//! the decoders written out below.
//!
//! Durations may be sent either as raw seconds or as a phrase such as
//! `"5s"`; the phrase is read by `parse_duration` behind a trusted wrapper,
//! and only whole seconds are kept.

use vstd::prelude::*;
use vstd::string::StringExecFns;
use crate::error::{JsonError, JsonErrorV};
use crate::json::{
    lookup, lookup_bool, lookup_str, lookup_str_arr, spec_req_str, spec_req_str_arr,
    spec_req_u32, spec_req_usize, spec_str_or, spec_u32_or, spec_usize_or, split_on, split_str,
    strs_v, Json, JsonV,
};
use crate::codec::{parse_json, parsed_json};

verus! {

/// The name a duration phrase's reading: what `parse_duration` makes of it,
/// in whole seconds, if it accepts it at all.
pub uninterp spec fn duration_secs_of(s: Seq<char>) -> Option<u64>;

/// Relies on parse_duration::parse: what a duration phrase parses to depends
/// on the phrase alone; a rejected phrase yields `None`.
#[verifier::external_body]
fn parse_duration_secs(s: &str) -> (r: Option<u64>)
    ensures
        r == duration_secs_of(s@),
{
    match parse_duration::parse(s) {
        Ok(d) => Some(d.as_secs()),
        Err(_) => None,
    }
}

/// Field `key` of `j` as a duration in whole seconds: a number is taken as
/// raw seconds, a string is read as a duration phrase, an absent field is
/// `default`.
pub open spec fn spec_duration_or(j: JsonV, key: Seq<char>, default: u64) -> Result<
    u64,
    JsonErrorV,
> {
    match lookup(j, key) {
        None => Ok(default),
        Some(JsonV::UInt(n)) => Ok(n),
        Some(JsonV::Str(s)) => match duration_secs_of(s) {
            Some(n) => Ok(n),
            None => Err(JsonErrorV::WrongType(key)),
        },
        Some(_) => Err(JsonErrorV::WrongType(key)),
    }
}

/// Field `key` of `j` as a duration in whole seconds, or `default` when
/// absent.
fn duration_or(j: &Json, key: &str, default: u64) -> (r: Result<u64, JsonError>)
    ensures
        match r {
            Ok(n) => spec_duration_or(j@, key@, default) == Ok::<u64, JsonErrorV>(n),
            Err(e) => spec_duration_or(j@, key@, default) == Err::<u64, JsonErrorV>(e@),
        },
{
    match j.get(key) {
        None => Ok(default),
        Some(v) => match v {
            Json::UInt(n) => Ok(*n),
            Json::Str(s) => match parse_duration_secs(s.as_str()) {
                Some(n) => Ok(n),
                None => Err(JsonError::WrongType(String::from_str(key))),
            },
            _ => Err(JsonError::WrongType(String::from_str(key))),
        },
    }
}

/// The connection-pool limits of an SQL backend.
#[derive(Debug, PartialEq)]
pub struct ConnectionDetail {
    /// The `max_open_connections` field.
    pub open_max: usize,
    /// The `max_idle_connections` field.
    pub idle_max: usize,
    /// The `max_lifetime_connections` field.
    pub lifetime_max: usize,
}

/// The pool limits read from a configuration object.
pub open spec fn spec_connection_detail_from(j: JsonV) -> Result<ConnectionDetail, JsonErrorV> {
    match spec_req_usize(j, "max_open_connections"@) {
        Err(e) => Err(e),
        Ok(open_max) => match spec_req_usize(j, "max_idle_connections"@) {
            Err(e) => Err(e),
            Ok(idle_max) => match spec_req_usize(j, "max_lifetime_connections"@) {
                Err(e) => Err(e),
                Ok(lifetime_max) => Ok(ConnectionDetail { open_max, idle_max, lifetime_max }),
            },
        },
    }
}

impl ConnectionDetail {
    /// The pool limits of document `j`.
    pub fn from_json(j: &Json) -> (r: Result<ConnectionDetail, JsonError>)
        ensures
            match r {
                Ok(v) => spec_connection_detail_from(j@) == Ok::<ConnectionDetail, JsonErrorV>(
                    v,
                ),
                Err(e) => spec_connection_detail_from(j@) == Err::<ConnectionDetail, JsonErrorV>(
                    e@,
                ),
            },
    {
        let open_max = match j.req_usize("max_open_connections") {
            Ok(v) => v,
            Err(e) => return Err(e),
        };
        let idle_max = match j.req_usize("max_idle_connections") {
            Ok(v) => v,
            Err(e) => return Err(e),
        };
        let lifetime_max = match j.req_usize("max_lifetime_connections") {
            Ok(v) => v,
            Err(e) => return Err(e),
        };
        Ok(ConnectionDetail { open_max, idle_max, lifetime_max })
    }
}

/// A username and password pair.
#[derive(Debug, PartialEq)]
pub struct BasicCredential {
    pub username: String,
    pub password: String,
}

/// The mathematical value of a [`BasicCredential`].
pub struct BasicCredentialV {
    pub username: Seq<char>,
    pub password: Seq<char>,
}

impl View for BasicCredential {
    type V = BasicCredentialV;

    open spec fn view(&self) -> BasicCredentialV {
        BasicCredentialV { username: self.username@, password: self.password@ }
    }
}

/// The username and password read from a configuration object.
pub open spec fn spec_basic_credential_from(j: JsonV) -> Result<BasicCredentialV, JsonErrorV> {
    match spec_req_str(j, "username"@) {
        Err(e) => Err(e),
        Ok(username) => match spec_req_str(j, "password"@) {
            Err(e) => Err(e),
            Ok(password) => Ok(BasicCredentialV { username, password }),
        },
    }
}

impl BasicCredential {
    /// The username and password of document `j`.
    pub fn from_json(j: &Json) -> (r: Result<BasicCredential, JsonError>)
        ensures
            match r {
                Ok(v) => spec_basic_credential_from(j@) == Ok::<BasicCredentialV, JsonErrorV>(
                    v@,
                ),
                Err(e) => spec_basic_credential_from(j@) == Err::<BasicCredentialV, JsonErrorV>(
                    e@,
                ),
            },
    {
        let username = match j.req_str("username") {
            Ok(v) => v,
            Err(e) => return Err(e),
        };
        let password = match j.req_str("password") {
            Ok(v) => v,
            Err(e) => return Err(e),
        };
        Ok(BasicCredential { username, password })
    }
}

/// A PEM certificate bundle: a CA certificate alone, a certificate with its
/// private key, or both together with the issuing CA certificate.
#[derive(Debug, PartialEq)]
pub enum BundledCert {
    CAOnly(String),
    SimpleBundle { certificate: String, private_key: String },
    FullBundle { certificate: String, private_key: String, issuing_ca: String },
}

/// The mathematical value of a [`BundledCert`].
pub enum BundledCertV {
    CAOnly(Seq<char>),
    SimpleBundle { certificate: Seq<char>, private_key: Seq<char> },
    FullBundle { certificate: Seq<char>, private_key: Seq<char>, issuing_ca: Seq<char> },
}

impl View for BundledCert {
    type V = BundledCertV;

    open spec fn view(&self) -> BundledCertV {
        match self {
            BundledCert::CAOnly(ca) => BundledCertV::CAOnly(ca@),
            BundledCert::SimpleBundle { certificate, private_key } => BundledCertV::SimpleBundle {
                certificate: certificate@,
                private_key: private_key@,
            },
            BundledCert::FullBundle { certificate, private_key, issuing_ca } => (
                BundledCertV::FullBundle {
                    certificate: certificate@,
                    private_key: private_key@,
                    issuing_ca: issuing_ca@,
                }
            ),
        }
    }
}

/// The bundle read from an object with `issuing_ca`, `certificate` and
/// `private_key` fields: which of the three are present (as strings) decides
/// the shape, and any other combination is rejected.
pub open spec fn spec_bundled_cert_from(j: JsonV) -> Result<BundledCertV, JsonErrorV> {
    match (
        lookup_str(j, "issuing_ca"@),
        lookup_str(j, "certificate"@),
        lookup_str(j, "private_key"@),
    ) {
        (Some(ca), None, None) => Ok(BundledCertV::CAOnly(ca)),
        (None, Some(c), Some(k)) => Ok(
            BundledCertV::SimpleBundle { certificate: c, private_key: k },
        ),
        (Some(ca), Some(c), Some(k)) => Ok(
            BundledCertV::FullBundle { certificate: c, private_key: k, issuing_ca: ca },
        ),
        _ => Err(JsonErrorV::InvalidCombination),
    }
}

impl BundledCert {
    /// The certificate bundle of document `j`.
    pub fn from_json(j: &Json) -> (r: Result<BundledCert, JsonError>)
        ensures
            match r {
                Ok(v) => spec_bundled_cert_from(j@) == Ok::<BundledCertV, JsonErrorV>(v@),
                Err(e) => spec_bundled_cert_from(j@) == Err::<BundledCertV, JsonErrorV>(e@),
            },
    {
        match (j.get_str("issuing_ca"), j.get_str("certificate"), j.get_str("private_key")) {
            (Some(ca), None, None) => Ok(BundledCert::CAOnly(ca.clone())),
            (None, Some(c), Some(k)) => Ok(
                BundledCert::SimpleBundle { certificate: c.clone(), private_key: k.clone() },
            ),
            (Some(ca), Some(c), Some(k)) => Ok(
                BundledCert::FullBundle {
                    certificate: c.clone(),
                    private_key: k.clone(),
                    issuing_ca: ca.clone(),
                },
            ),
            _ => Err(JsonError::InvalidCombination),
        }
    }
}

/// The bundle read from the lines of a PEM blob: one line is a CA
/// certificate alone, two are a certificate and its key, three add the
/// issuing CA; any other count is rejected.
pub open spec fn spec_bundle_from_lines(ls: Seq<Seq<char>>) -> Result<BundledCertV, JsonErrorV> {
    if ls.len() == 1 {
        Ok(BundledCertV::CAOnly(ls[0]))
    } else if ls.len() == 2 {
        Ok(BundledCertV::SimpleBundle { certificate: ls[0], private_key: ls[1] })
    } else if ls.len() == 3 {
        Ok(
            BundledCertV::FullBundle {
                certificate: ls[0],
                private_key: ls[1],
                issuing_ca: ls[2],
            },
        )
    } else if ls.len() == 0 {
        Err(JsonErrorV::EmptyBundle)
    } else {
        Err(JsonErrorV::InvalidBundleLength(ls.len() as usize))
    }
}

/// The bundle read from a PEM blob: its newline-separated lines, counted.
pub open spec fn spec_bundle_from_pem(s: Seq<char>) -> Result<BundledCertV, JsonErrorV> {
    spec_bundle_from_lines(split_on(s, '\n'))
}

/// The certificate bundle of a line sequence.
fn bundle_from_lines(lines: Vec<String>) -> (r: Result<BundledCert, JsonError>)
    ensures
        match r {
            Ok(v) => spec_bundle_from_lines(strs_v(lines@)) == Ok::<BundledCertV, JsonErrorV>(
                v@,
            ),
            Err(e) => spec_bundle_from_lines(strs_v(lines@)) == Err::<BundledCertV, JsonErrorV>(
                e@,
            ),
        },
{
    if lines.len() == 1 {
        Ok(BundledCert::CAOnly(lines[0].clone()))
    } else if lines.len() == 2 {
        Ok(
            BundledCert::SimpleBundle {
                certificate: lines[0].clone(),
                private_key: lines[1].clone(),
            },
        )
    } else if lines.len() == 3 {
        Ok(
            BundledCert::FullBundle {
                certificate: lines[0].clone(),
                private_key: lines[1].clone(),
                issuing_ca: lines[2].clone(),
            },
        )
    } else if lines.len() == 0 {
        Err(JsonError::EmptyBundle)
    } else {
        Err(JsonError::InvalidBundleLength(lines.len()))
    }
}

/// A connection credential: a username and password, or a certificate
/// bundle when TLS is asked for.
#[derive(Debug, PartialEq)]
pub enum Credential {
    Basic(BasicCredential),
    BundledCert(BundledCert),
}

/// The mathematical value of a [`Credential`].
pub enum CredentialV {
    Basic(BasicCredentialV),
    BundledCert(BundledCertV),
}

impl View for Credential {
    type V = CredentialV;

    open spec fn view(&self) -> CredentialV {
        match self {
            Credential::Basic(b) => CredentialV::Basic(b@),
            Credential::BundledCert(b) => CredentialV::BundledCert(b@),
        }
    }
}

/// The credential read from a configuration object.  A `tls` field equal to
/// `true` asks for a certificate bundle: first from the `pem_bundle` string,
/// whose lines carry the parts; failing that from the `pem_json` string,
/// whose content is itself a JSON object of the parts — and when neither
/// string is present, or the `pem_json` content does not parse, the absence
/// of `pem_bundle` is what is reported.  Any other `tls` value, or none,
/// asks for a username and password.
pub open spec fn spec_credential_from(j: JsonV) -> Result<CredentialV, JsonErrorV> {
    if lookup_bool(j, "tls"@) == Some(true) {
        match lookup_str(j, "pem_bundle"@) {
            Some(pem) => match spec_bundle_from_pem(pem) {
                Ok(b) => Ok(CredentialV::BundledCert(b)),
                Err(e) => Err(e),
            },
            None => match lookup_str(j, "pem_json"@) {
                Some(txt) => match parsed_json(txt) {
                    Some(inner) => match spec_bundled_cert_from(inner) {
                        Ok(b) => Ok(CredentialV::BundledCert(b)),
                        Err(e) => Err(e),
                    },
                    None => Err(JsonErrorV::MissingField("pem_bundle"@)),
                },
                None => Err(JsonErrorV::MissingField("pem_bundle"@)),
            },
        }
    } else {
        match spec_basic_credential_from(j) {
            Ok(b) => Ok(CredentialV::Basic(b)),
            Err(e) => Err(e),
        }
    }
}

impl Credential {
    /// The credential of document `j`.
    pub fn from_json(j: &Json) -> (r: Result<Credential, JsonError>)
        ensures
            match r {
                Ok(v) => spec_credential_from(j@) == Ok::<CredentialV, JsonErrorV>(v@),
                Err(e) => spec_credential_from(j@) == Err::<CredentialV, JsonErrorV>(e@),
            },
    {
        match j.get_bool("tls") {
            Some(true) => {
                match j.get_str("pem_bundle") {
                    Some(pem) => {
                        let lines = split_str(pem.as_str(), '\n');
                        match bundle_from_lines(lines) {
                            Ok(b) => Ok(Credential::BundledCert(b)),
                            Err(e) => Err(e),
                        }
                    },
                    None => match j.get_str("pem_json") {
                        Some(txt) => match parse_json(txt.as_str()) {
                            Some(inner) => match BundledCert::from_json(&inner) {
                                Ok(b) => Ok(Credential::BundledCert(b)),
                                Err(e) => Err(e),
                            },
                            None => Err(
                                JsonError::MissingField(String::from_str("pem_bundle")),
                            ),
                        },
                        None => Err(JsonError::MissingField(String::from_str("pem_bundle"))),
                    },
                }
            },
            _ => match BasicCredential::from_json(j) {
                Ok(b) => Ok(Credential::Basic(b)),
                Err(e) => Err(e),
            },
        }
    }
}

/// The timing parameters of a Cassandra connection, in whole seconds.
#[derive(Debug, PartialEq)]
pub struct Connection {
    /// The `connect_timeout` field.
    pub timeout: u64,
    /// The `socket_keep_alive` field.
    pub keep_alive: u64,
}

/// The timing parameters read from a configuration object: the timeout
/// falls back to five seconds, the keep-alive to zero.
pub open spec fn spec_connection_from(j: JsonV) -> Result<Connection, JsonErrorV> {
    match spec_duration_or(j, "connect_timeout"@, 5) {
        Err(e) => Err(e),
        Ok(timeout) => match spec_duration_or(j, "socket_keep_alive"@, 0) {
            Err(e) => Err(e),
            Ok(keep_alive) => Ok(Connection { timeout, keep_alive }),
        },
    }
}

impl Connection {
    /// The timing parameters of document `j`.
    pub fn from_json(j: &Json) -> (r: Result<Connection, JsonError>)
        ensures
            match r {
                Ok(v) => spec_connection_from(j@) == Ok::<Connection, JsonErrorV>(v),
                Err(e) => spec_connection_from(j@) == Err::<Connection, JsonErrorV>(e@),
            },
    {
        let timeout = match duration_or(j, "connect_timeout", 5) {
            Ok(v) => v,
            Err(e) => return Err(e),
        };
        let keep_alive = match duration_or(j, "socket_keep_alive", 0) {
            Ok(v) => v,
            Err(e) => return Err(e),
        };
        Ok(Connection { timeout, keep_alive })
    }
}

/// A Cassandra backend connection.
#[derive(Debug, PartialEq)]
pub struct Cassandra {
    pub hosts: Vec<String>,
    /// The `port` field; the default Cassandra port when absent.
    pub port: u32,
    pub credential: Credential,
    /// The `protocol_version` field; two when absent.
    pub version: usize,
    /// The `consistency` field; empty when absent.
    pub consistency: String,
    pub connection: Connection,
}

/// The mathematical value of a [`Cassandra`].
pub struct CassandraV {
    pub hosts: Seq<Seq<char>>,
    pub port: u32,
    pub credential: CredentialV,
    pub version: usize,
    pub consistency: Seq<char>,
    pub connection: Connection,
}

impl View for Cassandra {
    type V = CassandraV;

    open spec fn view(&self) -> CassandraV {
        CassandraV {
            hosts: strs_v(self.hosts@),
            port: self.port,
            credential: self.credential@,
            version: self.version,
            consistency: self.consistency@,
            connection: self.connection,
        }
    }
}

/// The Cassandra connection read from a configuration object.
pub open spec fn spec_cassandra_from(j: JsonV) -> Result<CassandraV, JsonErrorV> {
    match spec_req_str_arr(j, "hosts"@) {
        Err(e) => Err(e),
        Ok(hosts) => match spec_u32_or(j, "port"@, 9042) {
            Err(e) => Err(e),
            Ok(port) => match spec_usize_or(j, "protocol_version"@, 2) {
                Err(e) => Err(e),
                Ok(version) => match spec_str_or(j, "consistency"@, Seq::empty()) {
                    Err(e) => Err(e),
                    Ok(consistency) => match spec_credential_from(j) {
                        Err(e) => Err(e),
                        Ok(credential) => match spec_connection_from(j) {
                            Err(e) => Err(e),
                            Ok(connection) => Ok(
                                CassandraV {
                                    hosts,
                                    port,
                                    credential,
                                    version,
                                    consistency,
                                    connection,
                                },
                            ),
                        },
                    },
                },
            },
        },
    }
}

impl Cassandra {
    /// The Cassandra connection of document `j`.
    pub fn from_json(j: &Json) -> (r: Result<Cassandra, JsonError>)
        ensures
            match r {
                Ok(v) => spec_cassandra_from(j@) == Ok::<CassandraV, JsonErrorV>(v@),
                Err(e) => spec_cassandra_from(j@) == Err::<CassandraV, JsonErrorV>(e@),
            },
    {
        let hosts = match j.req_str_arr("hosts") {
            Ok(v) => v,
            Err(e) => return Err(e),
        };
        let port = match j.u32_or("port", 9042) {
            Ok(v) => v,
            Err(e) => return Err(e),
        };
        let version = match j.usize_or("protocol_version", 2) {
            Ok(v) => v,
            Err(e) => return Err(e),
        };
        let consistency = match j.str_or("consistency", "") {
            Ok(v) => v,
            Err(e) => return Err(e),
        };
        let credential = match Credential::from_json(j) {
            Ok(v) => v,
            Err(e) => return Err(e),
        };
        let connection = match Connection::from_json(j) {
            Ok(v) => v,
            Err(e) => return Err(e),
        };
        proof {
            reveal_strlit("");
            assert(""@ =~= Seq::<char>::empty());
        }
        Ok(Cassandra { hosts, port, credential, version, consistency, connection })
    }
}

/// An Elasticsearch backend connection.
#[derive(Debug, PartialEq)]
pub struct ElasticSearch {
    pub url: String,
    pub credential: Credential,
}

/// The mathematical value of an [`ElasticSearch`].
pub struct ElasticSearchV {
    pub url: Seq<char>,
    pub credential: CredentialV,
}

impl View for ElasticSearch {
    type V = ElasticSearchV;

    open spec fn view(&self) -> ElasticSearchV {
        ElasticSearchV { url: self.url@, credential: self.credential@ }
    }
}

/// The Elasticsearch connection read from a configuration object.
pub open spec fn spec_elastic_search_from(j: JsonV) -> Result<ElasticSearchV, JsonErrorV> {
    match spec_req_str(j, "url"@) {
        Err(e) => Err(e),
        Ok(url) => match spec_credential_from(j) {
            Err(e) => Err(e),
            Ok(credential) => Ok(ElasticSearchV { url, credential }),
        },
    }
}

impl ElasticSearch {
    /// The Elasticsearch connection of document `j`.
    pub fn from_json(j: &Json) -> (r: Result<ElasticSearch, JsonError>)
        ensures
            match r {
                Ok(v) => spec_elastic_search_from(j@) == Ok::<ElasticSearchV, JsonErrorV>(v@),
                Err(e) => spec_elastic_search_from(j@) == Err::<ElasticSearchV, JsonErrorV>(e@),
            },
    {
        let url = match j.req_str("url") {
            Ok(v) => v,
            Err(e) => return Err(e),
        };
        let credential = match Credential::from_json(j) {
            Ok(v) => v,
            Err(e) => return Err(e),
        };
        Ok(ElasticSearch { url, credential })
    }
}

/// An InfluxDB backend connection.
#[derive(Debug, PartialEq)]
pub struct Influx {
    pub host: String,
    pub port: u32,
    pub credential: Credential,
}

/// The mathematical value of an [`Influx`].
pub struct InfluxV {
    pub host: Seq<char>,
    pub port: u32,
    pub credential: CredentialV,
}

impl View for Influx {
    type V = InfluxV;

    open spec fn view(&self) -> InfluxV {
        InfluxV { host: self.host@, port: self.port, credential: self.credential@ }
    }
}

/// The InfluxDB connection read from a configuration object.
pub open spec fn spec_influx_from(j: JsonV) -> Result<InfluxV, JsonErrorV> {
    match spec_req_str(j, "host"@) {
        Err(e) => Err(e),
        Ok(host) => match spec_req_u32(j, "port"@) {
            Err(e) => Err(e),
            Ok(port) => match spec_credential_from(j) {
                Err(e) => Err(e),
                Ok(credential) => Ok(InfluxV { host, port, credential }),
            },
        },
    }
}

impl Influx {
    /// The InfluxDB connection of document `j`.
    pub fn from_json(j: &Json) -> (r: Result<Influx, JsonError>)
        ensures
            match r {
                Ok(v) => spec_influx_from(j@) == Ok::<InfluxV, JsonErrorV>(v@),
                Err(e) => spec_influx_from(j@) == Err::<InfluxV, JsonErrorV>(e@),
            },
    {
        let host = match j.req_str("host") {
            Ok(v) => v,
            Err(e) => return Err(e),
        };
        let port = match j.req_u32("port") {
            Ok(v) => v,
            Err(e) => return Err(e),
        };
        let credential = match Credential::from_json(j) {
            Ok(v) => v,
            Err(e) => return Err(e),
        };
        Ok(Influx { host, port, credential })
    }
}

/// An SQL backend connection (MySQL, PostgreSQL, Oracle or MSSQL).
#[derive(Debug, PartialEq)]
pub struct SQL {
    /// The `connection_url` field.
    pub url: String,
    /// The pool limits, when all three of their fields are present.
    pub connection: Option<ConnectionDetail>,
    pub credential: BasicCredential,
}

/// The mathematical value of an [`SQL`].
pub struct SQLV {
    pub url: Seq<char>,
    pub connection: Option<ConnectionDetail>,
    pub credential: BasicCredentialV,
}

impl View for SQL {
    type V = SQLV;

    open spec fn view(&self) -> SQLV {
        SQLV { url: self.url@, connection: self.connection, credential: self.credential@ }
    }
}

/// The pool limits read from an SQL configuration object, when all three of
/// their fields are present; none at all otherwise.
pub open spec fn spec_sql_connection_from(j: JsonV) -> Result<
    Option<ConnectionDetail>,
    JsonErrorV,
> {
    if lookup(j, "max_open_connections"@) is Some && lookup(j, "max_idle_connections"@) is Some
        && lookup(j, "max_lifetime_connections"@) is Some {
        match spec_connection_detail_from(j) {
            Ok(c) => Ok(Some(c)),
            Err(e) => Err(e),
        }
    } else {
        Ok(None)
    }
}

/// The SQL connection read from a configuration object.
pub open spec fn spec_sql_from(j: JsonV) -> Result<SQLV, JsonErrorV> {
    match spec_req_str(j, "connection_url"@) {
        Err(e) => Err(e),
        Ok(url) => match spec_sql_connection_from(j) {
            Err(e) => Err(e),
            Ok(connection) => match spec_basic_credential_from(j) {
                Err(e) => Err(e),
                Ok(credential) => Ok(SQLV { url, connection, credential }),
            },
        },
    }
}

impl SQL {
    /// The SQL connection of document `j`.
    pub fn from_json(j: &Json) -> (r: Result<SQL, JsonError>)
        ensures
            match r {
                Ok(v) => spec_sql_from(j@) == Ok::<SQLV, JsonErrorV>(v@),
                Err(e) => spec_sql_from(j@) == Err::<SQLV, JsonErrorV>(e@),
            },
    {
        let url = match j.req_str("connection_url") {
            Ok(v) => v,
            Err(e) => return Err(e),
        };
        let connection = if j.get("max_open_connections").is_some() && j.get(
            "max_idle_connections",
        ).is_some() && j.get("max_lifetime_connections").is_some() {
            match ConnectionDetail::from_json(j) {
                Ok(c) => Some(c),
                Err(e) => return Err(e),
            }
        } else {
            None
        };
        let credential = match BasicCredential::from_json(j) {
            Ok(v) => v,
            Err(e) => return Err(e),
        };
        Ok(SQL { url, connection, credential })
    }
}

/// A MongoDB backend connection.
#[derive(Debug, PartialEq)]
pub struct MongoDB {
    /// The `connection_url` field.
    pub url: String,
    pub write_concern: String,
    pub credential: BasicCredential,
}

/// The mathematical value of a [`MongoDB`].
pub struct MongoDBV {
    pub url: Seq<char>,
    pub write_concern: Seq<char>,
    pub credential: BasicCredentialV,
}

impl View for MongoDB {
    type V = MongoDBV;

    open spec fn view(&self) -> MongoDBV {
        MongoDBV {
            url: self.url@,
            write_concern: self.write_concern@,
            credential: self.credential@,
        }
    }
}

/// The MongoDB connection read from a configuration object.
pub open spec fn spec_mongo_db_from(j: JsonV) -> Result<MongoDBV, JsonErrorV> {
    match spec_req_str(j, "connection_url"@) {
        Err(e) => Err(e),
        Ok(url) => match spec_req_str(j, "write_concern"@) {
            Err(e) => Err(e),
            Ok(write_concern) => match spec_basic_credential_from(j) {
                Err(e) => Err(e),
                Ok(credential) => Ok(MongoDBV { url, write_concern, credential }),
            },
        },
    }
}

impl MongoDB {
    /// The MongoDB connection of document `j`.
    pub fn from_json(j: &Json) -> (r: Result<MongoDB, JsonError>)
        ensures
            match r {
                Ok(v) => spec_mongo_db_from(j@) == Ok::<MongoDBV, JsonErrorV>(v@),
                Err(e) => spec_mongo_db_from(j@) == Err::<MongoDBV, JsonErrorV>(e@),
            },
    {
        let url = match j.req_str("connection_url") {
            Ok(v) => v,
            Err(e) => return Err(e),
        };
        let write_concern = match j.req_str("write_concern") {
            Ok(v) => v,
            Err(e) => return Err(e),
        };
        let credential = match BasicCredential::from_json(j) {
            Ok(v) => v,
            Err(e) => return Err(e),
        };
        Ok(MongoDB { url, write_concern, credential })
    }
}

/// A configured database backend, by kind.
#[derive(Debug, PartialEq)]
pub enum Database {
    SQL(SQL),
    MongoDB(MongoDB),
    ElasticSearch(ElasticSearch),
    Influx(Influx),
    Cassandra(Cassandra),
}

/// The mathematical value of a [`Database`].
pub enum DatabaseV {
    SQL(SQLV),
    MongoDB(MongoDBV),
    ElasticSearch(ElasticSearchV),
    Influx(InfluxV),
    Cassandra(CassandraV),
}

impl View for Database {
    type V = DatabaseV;

    open spec fn view(&self) -> DatabaseV {
        match self {
            Database::SQL(v) => DatabaseV::SQL(v@),
            Database::MongoDB(v) => DatabaseV::MongoDB(v@),
            Database::ElasticSearch(v) => DatabaseV::ElasticSearch(v@),
            Database::Influx(v) => DatabaseV::Influx(v@),
            Database::Cassandra(v) => DatabaseV::Cassandra(v@),
        }
    }
}

/// A database secret-engine configuration: the backend connection together
/// with the roles allowed to use it and the statements rotating its root
/// credential.
#[derive(Debug, PartialEq)]
pub struct Backend {
    /// The `allowed_roles` field.
    pub roles: Vec<String>,
    /// The `root_rotation_statements` field; empty when absent or malformed.
    pub rotations: Vec<String>,
    pub backend: Database,
}

/// The mathematical value of a [`Backend`].
pub struct BackendV {
    pub roles: Seq<Seq<char>>,
    pub rotations: Seq<Seq<char>>,
    pub backend: DatabaseV,
}

impl View for Backend {
    type V = BackendV;

    open spec fn view(&self) -> BackendV {
        BackendV {
            roles: strs_v(self.roles@),
            rotations: strs_v(self.rotations@),
            backend: self.backend@,
        }
    }
}

/// Whether a plugin name names one of the SQL backends.
pub open spec fn spec_is_sql_plugin(name: Seq<char>) -> bool {
    ||| name == "mysql-database-plugin"@
    ||| name == "postgresql-database-plugin"@
    ||| name == "oracle-database-plugin"@
    ||| name == "mssql-database-plugin"@
}

/// The root-rotation statements of a configuration object: the
/// `root_rotation_statements` field when it is an array of strings, and
/// nothing otherwise.
pub open spec fn spec_rotations_from(j: JsonV) -> Seq<Seq<char>> {
    match lookup_str_arr(j, "root_rotation_statements"@) {
        Some(v) => v,
        None => Seq::empty(),
    }
}

/// The backend configuration read from a configuration object: the
/// `plugin_name` string picks the connection schema the rest of the object
/// is read by, and a name this library does not know is rejected.
pub open spec fn spec_backend_from(j: JsonV) -> Result<BackendV, JsonErrorV> {
    match lookup_str(j, "plugin_name"@) {
        None => Err(JsonErrorV::MissingField("plugin_name"@)),
        Some(name) => match spec_req_str_arr(j, "allowed_roles"@) {
            Err(e) => Err(e),
            Ok(roles) => {
                let rotations = spec_rotations_from(j);
                if spec_is_sql_plugin(name) {
                    match spec_sql_from(j) {
                        Ok(b) => Ok(BackendV { roles, rotations, backend: DatabaseV::SQL(b) }),
                        Err(e) => Err(e),
                    }
                } else if name == "cassandra-database-plugin"@ {
                    match spec_cassandra_from(j) {
                        Ok(b) => Ok(
                            BackendV { roles, rotations, backend: DatabaseV::Cassandra(b) },
                        ),
                        Err(e) => Err(e),
                    }
                } else if name == "elasticsearch-database-plugin"@ {
                    match spec_elastic_search_from(j) {
                        Ok(b) => Ok(
                            BackendV { roles, rotations, backend: DatabaseV::ElasticSearch(b) },
                        ),
                        Err(e) => Err(e),
                    }
                } else if name == "influxdb-database-plugin"@ {
                    match spec_influx_from(j) {
                        Ok(b) => Ok(
                            BackendV { roles, rotations, backend: DatabaseV::Influx(b) },
                        ),
                        Err(e) => Err(e),
                    }
                } else if name == "mongodb-database-plugin"@ {
                    match spec_mongo_db_from(j) {
                        Ok(b) => Ok(
                            BackendV { roles, rotations, backend: DatabaseV::MongoDB(b) },
                        ),
                        Err(e) => Err(e),
                    }
                } else {
                    Err(JsonErrorV::UnsupportedPlugin(name))
                }
            },
        },
    }
}

impl Backend {
    /// The backend configuration of document `j`.
    pub fn from_json(j: &Json) -> (r: Result<Backend, JsonError>)
        ensures
            match r {
                Ok(v) => spec_backend_from(j@) == Ok::<BackendV, JsonErrorV>(v@),
                Err(e) => spec_backend_from(j@) == Err::<BackendV, JsonErrorV>(e@),
            },
    {
        let name = match j.get_str("plugin_name") {
            Some(s) => s.clone(),
            None => return Err(JsonError::MissingField(String::from_str("plugin_name"))),
        };
        let roles = match j.req_str_arr("allowed_roles") {
            Ok(v) => v,
            Err(e) => return Err(e),
        };
        let rotations = match j.get_str_arr("root_rotation_statements") {
            Some(v) => v,
            None => Vec::new(),
        };
        proof {
            assert(strs_v(Seq::<String>::empty()) =~= Seq::<Seq<char>>::empty());
        }
        let is_sql = name == String::from_str("mysql-database-plugin") || name
            == String::from_str("postgresql-database-plugin") || name == String::from_str(
            "oracle-database-plugin",
        ) || name == String::from_str("mssql-database-plugin");
        if is_sql {
            match SQL::from_json(j) {
                Ok(b) => Ok(Backend { roles, rotations, backend: Database::SQL(b) }),
                Err(e) => Err(e),
            }
        } else if name == String::from_str("cassandra-database-plugin") {
            match Cassandra::from_json(j) {
                Ok(b) => Ok(Backend { roles, rotations, backend: Database::Cassandra(b) }),
                Err(e) => Err(e),
            }
        } else if name == String::from_str("elasticsearch-database-plugin") {
            match ElasticSearch::from_json(j) {
                Ok(b) => Ok(Backend { roles, rotations, backend: Database::ElasticSearch(b) }),
                Err(e) => Err(e),
            }
        } else if name == String::from_str("influxdb-database-plugin") {
            match Influx::from_json(j) {
                Ok(b) => Ok(Backend { roles, rotations, backend: Database::Influx(b) }),
                Err(e) => Err(e),
            }
        } else if name == String::from_str("mongodb-database-plugin") {
            match MongoDB::from_json(j) {
                Ok(b) => Ok(Backend { roles, rotations, backend: Database::MongoDB(b) }),
                Err(e) => Err(e),
            }
        } else {
            Err(JsonError::UnsupportedPlugin(name))
        }
    }

    /// The backend configuration read out of a JSON text.
    pub fn decode(text: &str) -> (r: Result<Backend, JsonError>)
        ensures
            match parsed_json(text@) {
                None => r matches Err(e) && e@ == JsonErrorV::Syntax,
                Some(j) => match r {
                    Ok(v) => spec_backend_from(j) == Ok::<BackendV, JsonErrorV>(v@),
                    Err(e) => spec_backend_from(j) == Err::<BackendV, JsonErrorV>(e@),
                },
            },
    {
        match parse_json(text) {
            Some(j) => Backend::from_json(&j),
            None => Err(JsonError::Syntax),
        }
    }
}

/// The statements a dynamic role runs at each point of a credential's life.
#[derive(Debug, PartialEq)]
pub struct RoleStatement {
    /// The `creation_statements` field.
    pub create: Vec<String>,
    /// The `revocation_statements` field.
    pub revoke: Vec<String>,
    /// The `rollback_statements` field.
    pub rollback: Vec<String>,
    /// The `renew_statements` field.
    pub renew: Vec<String>,
}

/// A dynamic role of a database backend.
#[derive(Debug, PartialEq)]
pub struct Role {
    pub name: String,
    /// The `db_name` field.
    pub db: String,
    /// The default and largest time-to-live, in seconds.
    pub ttl: (u64, u64),
    pub statements: RoleStatement,
}

/// How a static role's credential is rotated.
#[derive(Debug, PartialEq)]
pub struct StaticRotation {
    /// The `rotation_period` field.
    pub rotation: usize,
    /// The `rotation_statements` field.
    pub statement: Vec<String>,
}

/// A static role of a database backend.
#[derive(Debug, PartialEq)]
pub struct StaticRole {
    pub name: String,
    pub username: String,
    /// The `db_name` field.
    pub db: String,
    pub rotation: StaticRotation,
}

} // verus!

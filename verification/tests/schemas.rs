use vaultr::error::JsonError;
use vaultr::leader;
use vaultr::secret::kv::Config;
use vaultr::sys::health::HealthInfo;
use vaultr::sys::init::KeysInfo;
use vaultr::sys::key::KeyRegenStatus;
use vaultr::sys::lease::{LeaseStatus, ListLeaseData, Status};
use vaultr::sys::mount::MountInfo;
use vaultr::sys::namespace::Namespace;

#[test]
fn health_reads_every_field() {
    let text = r#"{"initialized": true, "sealed": false, "standby": false, "performance_standby": false, "replication_perf_mode": "disabled", "replication_dr_mode": "disabled", "server_time": 1569184851, "version": "1.2.3", "cluster_name": "vault-cluster-a", "cluster_id": "5f20f5ab"}"#;
    let h = HealthInfo::decode(text).unwrap();
    assert!(h.initialized);
    assert!(!h.sealed);
    assert_eq!(h.server_time, 1569184851);
    assert_eq!(h.version, "1.2.3");
    assert_eq!(h.cluster_name, "vault-cluster-a");
    assert_eq!(h.cluster_id, "5f20f5ab");
}

#[test]
fn health_requires_its_fields() {
    let r = HealthInfo::decode(r#"{"initialized": true}"#);
    assert_eq!(r, Err(JsonError::MissingField(String::from("sealed"))));
    let r = HealthInfo::decode(r#"{"initialized": "yes"}"#);
    assert_eq!(r, Err(JsonError::WrongType(String::from("initialized"))));
}

#[test]
fn lease_status_reads_its_tag() {
    let renewable = r#"{"Renewable": {"id": "l-1", "issue_time": 10, "expire_time": 20, "last_renewal_time": 15, "ttl": 5}}"#;
    match LeaseStatus::decode(renewable).unwrap() {
        LeaseStatus::Renewable(s) => {
            assert_eq!(s.id, "l-1");
            assert_eq!(s.last_renewal_time, Some(15));
            assert_eq!(s.ttl, 5);
        }
        other => panic!("wrong status: {:?}", other),
    }

    let fixed = r#"{"Static": {"id": "l-2", "issue_time": 10, "expire_time": 20, "ttl": 5}}"#;
    match LeaseStatus::decode(fixed).unwrap() {
        LeaseStatus::Static(s) => {
            assert_eq!(s.id, "l-2");
            assert_eq!(s.last_renewal_time, None);
        }
        other => panic!("wrong status: {:?}", other),
    }

    let neither = r#"{"id": "l-3"}"#;
    assert_eq!(
        LeaseStatus::decode(neither),
        Err(JsonError::WrongType(String::from("LeaseStatus")))
    );
}

#[test]
fn lease_status_defaults_to_an_empty_static_lease() {
    let status: LeaseStatus = Default::default();
    assert_eq!(status, LeaseStatus::Static(Status::default()));
    match status {
        LeaseStatus::Static(s) => {
            assert_eq!(s.id, "");
            assert_eq!(s.ttl, 0);
        }
        other => panic!("wrong default: {:?}", other),
    }
}

#[test]
fn lease_listing_unwraps_data_keys() {
    let text = r#"{"data": {"keys": ["aws/creds/a/1", "aws/creds/a/2"]}}"#;
    let l = ListLeaseData::decode(text).unwrap();
    assert_eq!(
        l.keys,
        vec![String::from("aws/creds/a/1"), String::from("aws/creds/a/2")]
    );
    assert_eq!(
        ListLeaseData::decode(r#"{"keys": []}"#),
        Err(JsonError::MissingField(String::from("data")))
    );
}

#[test]
fn namespace_reads_id_and_path() {
    let n = Namespace::decode(r#"{"id": "ns1", "path": "team-a/"}"#).unwrap();
    assert_eq!(n.id, "ns1");
    assert_eq!(n.path, "team-a/");
}

#[test]
fn keys_info_reads_the_key_material() {
    let text = r#"{"keys": ["k1", "k2"], "keys_base64": ["azE=", "azI="], "root_token": "root-token"}"#;
    let k = KeysInfo::decode(text).unwrap();
    assert_eq!(k.keys, vec![String::from("k1"), String::from("k2")]);
    assert_eq!(k.keys_base64, vec![String::from("azE="), String::from("azI=")]);
    assert_eq!(k.root_token, "root-token");
}

#[test]
fn mount_info_reads_its_nested_config() {
    let text = r#"{"type": "kv", "description": "key value store", "config": {"default_lease": 3600, "max_lease": 7200, "force_no_cache": false, "seal_wrap": true}}"#;
    let m = MountInfo::decode(text).unwrap();
    assert_eq!(m.kind, "kv");
    assert_eq!(m.description, "key value store");
    assert_eq!(m.config.default_lease, 3600);
    assert_eq!(m.config.max_lease, 7200);
    assert!(!m.config.force_no_cache);
    assert!(m.config.seal_wrap);

    let r = MountInfo::decode(r#"{"type": "kv", "description": ""}"#);
    assert_eq!(r, Err(JsonError::MissingField(String::from("config"))));
}

#[test]
fn kv_config_maps_its_renamed_fields() {
    let c = Config::decode(
        r#"{"cas_required": true, "max_version": 10, "delete_version_after": "3h"}"#,
    )
    .unwrap();
    assert!(c.atomic);
    assert_eq!(c.version, 10);
    assert_eq!(c.timeout, "3h");
}

#[test]
fn key_regen_status_reads_every_field() {
    let text = r#"{"started": true, "nonce": "2dbd10f1", "t": 3, "n": 5, "progress": 1, "required": 3, "pgp_fingerprints": ["abcd"], "backup": false, "verification_required": false}"#;
    let k = KeyRegenStatus::decode(text).unwrap();
    assert!(k.started);
    assert_eq!(k.nonce, "2dbd10f1");
    assert_eq!(k.t, 3);
    assert_eq!(k.n, 5);
    assert_eq!(k.pgp_fingerprints, vec![String::from("abcd")]);
}

#[test]
fn leader_report_reads_the_addresses() {
    let text = r#"{"ha_enabled": true, "is_self": false, "leader_address": "https://127.0.0.1:8200/", "leader_cluster_address": "https://127.0.0.1:8201/", "performance_standby": false, "performance_standby_last_remote_wal": 0}"#;
    let l = leader::Response::decode(text).unwrap();
    assert!(l.ha_enabled);
    assert!(!l.is_self);
    assert_eq!(l.leader.leader, "https://127.0.0.1:8200/");
    assert_eq!(l.leader.cluster, "https://127.0.0.1:8201/");
    assert_eq!(l.standby_last_remote_wal, 0);
}

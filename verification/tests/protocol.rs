use vaultr::error::{Error, JsonError};
use vaultr::protocol::{Method, SystemProtocol};
use vaultr::sys::mount::{KeyPairs, Mount, MountConfig, Visibility};

fn proto() -> SystemProtocol {
    SystemProtocol::new(
        String::from("/v1"),
        String::from("https"),
        String::from("vault.local:8200"),
    )
}

#[test]
fn health_is_a_bare_get() {
    let q = proto().health().unwrap();
    assert_eq!(q.method, Method::Get);
    assert_eq!(q.uri, "https://vault.local:8200/v1/sys/health");
    assert_eq!(q.body, None);
}

#[test]
fn read_lease_puts_the_lease_id() {
    let q = proto().read_lease("abc-1").unwrap();
    assert_eq!(q.method, Method::Put);
    assert_eq!(q.uri, "https://vault.local:8200/v1/sys/leases/lookup");
    assert_eq!(q.body.as_deref(), Some(r#"{"lease_id":"abc-1"}"#));
}

#[test]
fn list_lease_appends_the_prefix() {
    let q = proto().list_lease(Some("aws")).unwrap();
    assert_eq!(q.method, Method::List);
    assert_eq!(q.uri, "https://vault.local:8200/v1/sys/leases/lookup/aws");
    assert_eq!(q.body, None);

    let q = proto().list_lease(None).unwrap();
    assert_eq!(q.uri, "https://vault.local:8200/v1/sys/leases/lookup");
}

#[test]
fn renew_lease_carries_the_increment() {
    let q = proto().renew_lease("abc-1", 60).unwrap();
    assert_eq!(q.method, Method::Put);
    assert_eq!(q.uri, "https://vault.local:8200/v1/sys/leases/renew");
    assert_eq!(q.body.as_deref(), Some(r#"{"increment":60,"lease_id":"abc-1"}"#));
}

#[test]
fn revoke_prefix_picks_force_or_prefix_path() {
    let q = proto().revoke_prefix("aws", true).unwrap();
    assert_eq!(q.uri, "https://vault.local:8200/v1/sys/leases/revoke-force/aws");
    let q = proto().revoke_prefix("aws", false).unwrap();
    assert_eq!(q.uri, "https://vault.local:8200/v1/sys/leases/revoke-prefix/aws");
    assert_eq!(q.method, Method::Put);
    assert_eq!(q.body, None);
}

#[test]
fn namespace_builders_cover_the_four_verbs() {
    let q = proto().list_namespace().unwrap();
    assert_eq!(q.method, Method::List);
    assert_eq!(q.uri, "https://vault.local:8200/v1/sys/namespaces");

    let q = proto().create_namespace("team-a").unwrap();
    assert_eq!(q.method, Method::Post);
    assert_eq!(q.uri, "https://vault.local:8200/v1/sys/namespaces/team-a");

    let q = proto().delete_namespace("team-a").unwrap();
    assert_eq!(q.method, Method::Delete);

    let q = proto().show_namespace("team-a").unwrap();
    assert_eq!(q.method, Method::Get);
    assert_eq!(q.body, None);
}

#[test]
fn unseal_defaults_its_flags_to_false() {
    let q = proto().unseal(String::from("share-1"), None, None).unwrap();
    assert_eq!(q.method, Method::Put);
    assert_eq!(q.uri, "https://vault.local:8200/v1/sys/unseal");
    assert_eq!(
        q.body.as_deref(),
        Some(r#"{"key":"share-1","migrate":false,"reset":false}"#)
    );

    let q = proto().unseal(String::from("share-1"), Some(true), None).unwrap();
    assert_eq!(
        q.body.as_deref(),
        Some(r#"{"key":"share-1","migrate":false,"reset":true}"#)
    );
}

#[test]
fn seal_and_seal_info_hit_their_paths() {
    let q = proto().seal().unwrap();
    assert_eq!(q.method, Method::Put);
    assert_eq!(q.uri, "https://vault.local:8200/v1/sys/seal");

    let q = proto().seal_info().unwrap();
    assert_eq!(q.method, Method::Get);
    assert_eq!(q.uri, "https://vault.local:8200/v1/sys/seal-status");
}

#[test]
fn mount_builders_hit_their_paths() {
    let q = proto().list_mounts().unwrap();
    assert_eq!(q.method, Method::Get);
    assert_eq!(q.uri, "https://vault.local:8200/v1/sys/mounts");

    let q = proto().unmount(String::from("kv")).unwrap();
    assert_eq!(q.method, Method::Delete);
    assert_eq!(q.uri, "https://vault.local:8200/v1/sys/mounts/kv");

    let q = proto().read_mount(String::from("kv")).unwrap();
    assert_eq!(q.method, Method::Get);
    assert_eq!(q.uri, "https://vault.local:8200/v1/sys/mounts/kv/tune");

    let q = proto().remount(String::from("kv"), String::from("kv2")).unwrap();
    assert_eq!(q.method, Method::Post);
    assert_eq!(q.uri, "https://vault.local:8200/v1/sys/remount");
    assert_eq!(q.body.as_deref(), Some(r#"{"from":"kv","to":"kv2"}"#));
}

#[test]
fn mount_payloads_cannot_be_formed() {
    assert!(Mount::create(
        String::from("kv"),
        String::from("kv"),
        None,
        Vec::new(),
        None
    )
    .is_err());
    assert!(MountConfig::create(
        String::from("kv"),
        (0, 0),
        KeyPairs::default(),
        Visibility::Hidden,
        KeyPairs::default()
    )
    .is_err());

    let r = proto().mount(String::from("kv"), String::from("kv"), None, Vec::new(), None);
    assert_eq!(r, Err(Error::JsonError(JsonError::Unserializable)));
    let r = proto().modify_mount(
        String::from("kv"),
        (0, 0),
        KeyPairs::default(),
        Visibility::Hidden,
        KeyPairs::default(),
    );
    assert_eq!(r, Err(Error::JsonError(JsonError::Unserializable)));
}

use vaultr::error::JsonError;
use vaultr::sys::seal::{ClusterInfo, SealInfo, SealStatus, Sealed, Unsealed};

#[test]
fn serde_status_test_serde() {
    let raw = [
        r#"{"sealed": true,"t": 3, "n": 5, "progress": 2, "version": "0.6.2"}"#,
        r#"{"sealed": false, "t": 3, "n": 5, "progress": 0, "version": "0.6.2", "cluster_name": "vault-cluster-d6ec3c7f", "cluster_id": "3e8b3fec-3749-e056-ba41-b62a63b997e8"}"#,
    ];

    let exp: Vec<_> = vec![
        SealStatus::Sealed(Sealed {
            info: SealInfo {
                kind: None,
                threshold: 3,
                shares: 5,
                progress: 2,
                nonce: None,
                version: String::from("0.6.2"),
            },
        }),
        SealStatus::Unsealed(Unsealed {
            info: SealInfo {
                kind: None,
                threshold: 3,
                shares: 5,
                progress: 0,
                nonce: None,
                version: String::from("0.6.2"),
            },
            cluster: ClusterInfo {
                id: String::from("3e8b3fec-3749-e056-ba41-b62a63b997e8"),
                name: String::from("vault-cluster-d6ec3c7f"),
            },
        }),
    ];

    for (idx, response) in raw.iter().enumerate() {
        let result = SealStatus::decode(response);
        assert!(result.is_ok());
        let inner = result.unwrap();
        assert_eq!(inner, exp[idx]);

        let serialized = inner.encode();
        let result2 = SealStatus::decode(&serialized);
        assert!(result2.is_ok());
        assert_eq!(result2.unwrap(), inner);
    }
}

#[test]
fn sealed_status_encodes_to_the_exact_text() {
    let status = SealStatus::Sealed(Sealed {
        info: SealInfo {
            kind: None,
            threshold: 3,
            shares: 5,
            progress: 2,
            nonce: None,
            version: String::from("0.6.2"),
        },
    });
    assert_eq!(
        status.encode(),
        r#"{"n":5,"nonce":null,"progress":2,"sealed":true,"t":3,"type":null,"version":"0.6.2"}"#
    );
}

#[test]
fn seal_status_reports_missing_tag() {
    let r = SealStatus::decode(r#"{"t": 3, "n": 5, "progress": 2, "version": "0.6.2"}"#);
    assert_eq!(r, Err(JsonError::MissingField(String::from("sealed"))));
}

#[test]
fn seal_status_reports_syntax_faults() {
    let r = SealStatus::decode("{not json");
    assert_eq!(r, Err(JsonError::Syntax));
}

#[test]
fn seal_status_keeps_type_and_nonce() {
    let r = SealStatus::decode(
        r#"{"sealed": true, "type": "shamir", "t": 1, "n": 1, "progress": 0, "nonce": "abc", "version": "1.0.0"}"#,
    );
    let status = r.unwrap();
    match &status {
        SealStatus::Sealed(s) => {
            assert_eq!(s.info.kind.as_deref(), Some("shamir"));
            assert_eq!(s.info.nonce.as_deref(), Some("abc"));
        }
        SealStatus::Unsealed(_) => panic!("sealed report read as unsealed"),
    }
    let round = SealStatus::decode(&status.encode()).unwrap();
    assert_eq!(round, status);
}

#[test]
fn unsealed_without_cluster_identity_is_rejected() {
    let r = SealStatus::decode(
        r#"{"sealed": false, "t": 3, "n": 5, "progress": 0, "version": "0.6.2"}"#,
    );
    assert_eq!(r, Err(JsonError::MissingField(String::from("cluster_id"))));
}

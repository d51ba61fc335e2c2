use vaultr::error::JsonError;
use vaultr::secret::database::{Backend, BundledCert, Credential, Database};

#[test]
fn test_configure_connection_serde() {
    let payloads = vec![
        r#"{"plugin_name": "mysql-database-plugin", "allowed_roles": ["readonly"], "connection_url": "{{username}}:{{password}}@tcp(127.0.0.1:3306)/", "max_open_connections": 5, "max_connection_lifetime": "5s", "username": "root", "password": "mysql"}"#,
        r#"{"plugin_name": "cassandra-database-plugin","allowed_roles": ["readonly"],"hosts": ["cassandra1.local"],"username": "user","password": "pass"}"#,
    ];

    for payload in payloads {
        let result = Backend::decode(payload);
        println!("result: {:?}", result);
        assert!(result.is_ok());
    }
}

#[test]
fn mysql_backend_reads_the_sql_schema() {
    let payload = r#"{"plugin_name": "mysql-database-plugin", "allowed_roles": ["readonly", "writer"], "connection_url": "mysql://db", "username": "root", "password": "mysql"}"#;
    let backend = Backend::decode(payload).unwrap();
    assert_eq!(backend.roles, vec![String::from("readonly"), String::from("writer")]);
    assert_eq!(backend.rotations, Vec::<String>::new());
    match &backend.backend {
        Database::SQL(sql) => {
            assert_eq!(sql.url, "mysql://db");
            assert_eq!(sql.connection, None);
            assert_eq!(sql.credential.username, "root");
            assert_eq!(sql.credential.password, "mysql");
        }
        other => panic!("wrong backend: {:?}", other),
    }
}

#[test]
fn sql_pool_limits_need_all_three_fields() {
    let with_all = r#"{"plugin_name": "postgresql-database-plugin", "allowed_roles": [], "connection_url": "pg://db", "username": "u", "password": "p", "max_open_connections": 5, "max_idle_connections": 2, "max_lifetime_connections": 7}"#;
    let backend = Backend::decode(with_all).unwrap();
    match &backend.backend {
        Database::SQL(sql) => {
            let conn = sql.connection.as_ref().unwrap();
            assert_eq!(conn.open_max, 5);
            assert_eq!(conn.idle_max, 2);
            assert_eq!(conn.lifetime_max, 7);
        }
        other => panic!("wrong backend: {:?}", other),
    }
}

#[test]
fn cassandra_defaults_fill_the_gaps() {
    let payload = r#"{"plugin_name": "cassandra-database-plugin", "allowed_roles": [], "hosts": ["c1", "c2"], "username": "u", "password": "p"}"#;
    let backend = Backend::decode(payload).unwrap();
    match &backend.backend {
        Database::Cassandra(c) => {
            assert_eq!(c.hosts, vec![String::from("c1"), String::from("c2")]);
            assert_eq!(c.port, 9042);
            assert_eq!(c.version, 2);
            assert_eq!(c.consistency, "");
            assert_eq!(c.connection.timeout, 5);
            assert_eq!(c.connection.keep_alive, 0);
        }
        other => panic!("wrong backend: {:?}", other),
    }
}

#[test]
fn durations_read_phrases_and_raw_seconds() {
    let payload = r#"{"plugin_name": "cassandra-database-plugin", "allowed_roles": [], "hosts": ["c1"], "username": "u", "password": "p", "connect_timeout": "2m", "socket_keep_alive": 30}"#;
    let backend = Backend::decode(payload).unwrap();
    match &backend.backend {
        Database::Cassandra(c) => {
            assert_eq!(c.connection.timeout, 120);
            assert_eq!(c.connection.keep_alive, 30);
        }
        other => panic!("wrong backend: {:?}", other),
    }
}

#[test]
fn root_rotation_statements_are_kept() {
    let payload = r#"{"plugin_name": "mongodb-database-plugin", "allowed_roles": ["r"], "root_rotation_statements": ["s1", "s2"], "connection_url": "mongodb://db", "write_concern": "majority", "username": "u", "password": "p"}"#;
    let backend = Backend::decode(payload).unwrap();
    assert_eq!(backend.rotations, vec![String::from("s1"), String::from("s2")]);
    match &backend.backend {
        Database::MongoDB(m) => {
            assert_eq!(m.url, "mongodb://db");
            assert_eq!(m.write_concern, "majority");
        }
        other => panic!("wrong backend: {:?}", other),
    }
}

#[test]
fn unknown_plugins_are_rejected_by_name() {
    let payload = r#"{"plugin_name": "sqlite-database-plugin", "allowed_roles": []}"#;
    let r = Backend::decode(payload);
    assert_eq!(
        r,
        Err(JsonError::UnsupportedPlugin(String::from("sqlite-database-plugin")))
    );
}

#[test]
fn missing_plugin_name_is_reported_first() {
    let r = Backend::decode(r#"{"allowed_roles": []}"#);
    assert_eq!(r, Err(JsonError::MissingField(String::from("plugin_name"))));
}

#[test]
fn elastic_and_influx_read_their_credentials() {
    let elastic = r#"{"plugin_name": "elasticsearch-database-plugin", "allowed_roles": [], "url": "http://es", "username": "eu", "password": "ep"}"#;
    let backend = Backend::decode(elastic).unwrap();
    match &backend.backend {
        Database::ElasticSearch(e) => {
            assert_eq!(e.url, "http://es");
            match &e.credential {
                Credential::Basic(b) => assert_eq!(b.username, "eu"),
                other => panic!("wrong credential: {:?}", other),
            }
        }
        other => panic!("wrong backend: {:?}", other),
    }

    let influx = r#"{"plugin_name": "influxdb-database-plugin", "allowed_roles": [], "host": "influx.local", "port": 8086, "username": "iu", "password": "ip"}"#;
    let backend = Backend::decode(influx).unwrap();
    match &backend.backend {
        Database::Influx(i) => {
            assert_eq!(i.host, "influx.local");
            assert_eq!(i.port, 8086);
        }
        other => panic!("wrong backend: {:?}", other),
    }
}

#[test]
fn tls_credentials_read_pem_bundles_by_line_count() {
    let two = r#"{"plugin_name": "influxdb-database-plugin", "allowed_roles": [], "host": "h", "port": 1, "tls": true, "pem_bundle": "CERT\nKEY"}"#;
    let backend = Backend::decode(two).unwrap();
    match &backend.backend {
        Database::Influx(i) => match &i.credential {
            Credential::BundledCert(BundledCert::SimpleBundle { certificate, private_key }) => {
                assert_eq!(certificate, "CERT");
                assert_eq!(private_key, "KEY");
            }
            other => panic!("wrong credential: {:?}", other),
        },
        other => panic!("wrong backend: {:?}", other),
    }

    let one = r#"{"plugin_name": "influxdb-database-plugin", "allowed_roles": [], "host": "h", "port": 1, "tls": true, "pem_bundle": "CA"}"#;
    let backend = Backend::decode(one).unwrap();
    match &backend.backend {
        Database::Influx(i) => match &i.credential {
            Credential::BundledCert(BundledCert::CAOnly(ca)) => assert_eq!(ca, "CA"),
            other => panic!("wrong credential: {:?}", other),
        },
        other => panic!("wrong backend: {:?}", other),
    }

    let three = r#"{"plugin_name": "influxdb-database-plugin", "allowed_roles": [], "host": "h", "port": 1, "tls": true, "pem_bundle": "CERT\nKEY\nCA"}"#;
    let backend = Backend::decode(three).unwrap();
    match &backend.backend {
        Database::Influx(i) => match &i.credential {
            Credential::BundledCert(BundledCert::FullBundle {
                certificate,
                private_key,
                issuing_ca,
            }) => {
                assert_eq!(certificate, "CERT");
                assert_eq!(private_key, "KEY");
                assert_eq!(issuing_ca, "CA");
            }
            other => panic!("wrong credential: {:?}", other),
        },
        other => panic!("wrong backend: {:?}", other),
    }
}

#[test]
fn oversized_pem_bundles_are_rejected_with_their_length() {
    let four = r#"{"plugin_name": "influxdb-database-plugin", "allowed_roles": [], "host": "h", "port": 1, "tls": true, "pem_bundle": "A\nB\nC\nD"}"#;
    let r = Backend::decode(four);
    assert_eq!(r, Err(JsonError::InvalidBundleLength(4)));
}

#[test]
fn tls_credentials_fall_back_to_pem_json() {
    let payload = r#"{"plugin_name": "influxdb-database-plugin", "allowed_roles": [], "host": "h", "port": 1, "tls": true, "pem_json": "{\"certificate\": \"C\", \"private_key\": \"K\"}"}"#;
    let backend = Backend::decode(payload).unwrap();
    match &backend.backend {
        Database::Influx(i) => match &i.credential {
            Credential::BundledCert(BundledCert::SimpleBundle { certificate, private_key }) => {
                assert_eq!(certificate, "C");
                assert_eq!(private_key, "K");
            }
            other => panic!("wrong credential: {:?}", other),
        },
        other => panic!("wrong backend: {:?}", other),
    }
}

#[test]
fn pem_json_with_stray_fields_is_an_invalid_combination() {
    let payload = r#"{"plugin_name": "influxdb-database-plugin", "allowed_roles": [], "host": "h", "port": 1, "tls": true, "pem_json": "{\"issuing_ca\": \"CA\", \"private_key\": \"K\"}"}"#;
    let r = Backend::decode(payload);
    assert_eq!(r, Err(JsonError::InvalidCombination));
}

#[test]
fn tls_without_any_pem_misses_the_bundle() {
    let payload = r#"{"plugin_name": "influxdb-database-plugin", "allowed_roles": [], "host": "h", "port": 1, "tls": true}"#;
    let r = Backend::decode(payload);
    assert_eq!(r, Err(JsonError::MissingField(String::from("pem_bundle"))));
}

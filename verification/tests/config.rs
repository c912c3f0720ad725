use git_patch::config::{Config, ConfigError, ConfigSerde, MultiaddrUnixSocket, MultiaddrUnixSocketError};

fn serde_config(keypair: &str, swarm: &str, api: &str) -> ConfigSerde {
    ConfigSerde {
        keypair: keypair.to_owned(),
        repo_dir: "repo".to_owned(),
        database_path: "db.yaml".to_owned(),
        swarm_listen: swarm.to_owned(),
        api_listen: api.to_owned(),
    }
}

#[test]
fn parse_multiaddr() {
    let s = "/ip4/127.0.0.1/tcp/8080";
    match MultiaddrUnixSocket::from_str(s) {
        Ok(MultiaddrUnixSocket::Multiaddr(a)) => {
            assert_eq!(a, s.parse::<libp2p::Multiaddr>().unwrap());
        }
        other => panic!("expected multiaddr, got {other:?}"),
    }
}

#[test]
fn parse_unix_socket() {
    let s = "/unix/path/to/socket";
    match MultiaddrUnixSocket::from_str(s) {
        Ok(MultiaddrUnixSocket::UnixSocket(path)) => assert_eq!(path, "/path/to/socket"),
        other => panic!("expected unix socket path, got {other:?}"),
    }
}

#[test]
fn parse_rejects_unknown_scheme() {
    match MultiaddrUnixSocket::from_str("/notunix/path") {
        Err(MultiaddrUnixSocketError::ParseFailure(_)) => {}
        other => panic!("expected parse failure, got {other:?}"),
    }
}

#[test]
fn parse_rejects_missing_path() {
    match MultiaddrUnixSocket::from_str("nopath") {
        Err(MultiaddrUnixSocketError::EmptyPath(s)) => assert_eq!(s, "nopath"),
        other => panic!("expected empty path error, got {other:?}"),
    }
}

#[test]
fn config_accepts_valid_fields() {
    let keypair = multibase::encode(multibase::Base::Base58Btc, [7u8; 32]);
    let raw = serde_config(&keypair, "/ip4/127.0.0.1/udp/0", "/unix/tmp/api.sock");
    let config = Config::try_from(raw).unwrap();
    assert_eq!(config.repo_dir, "repo");
    assert_eq!(config.database_path, "db.yaml");
    assert!(matches!(config.api_listen, MultiaddrUnixSocket::UnixSocket(p) if p == "/tmp/api.sock"));
}

#[test]
fn config_accepts_multiaddr_api_listen() {
    let keypair = multibase::encode(multibase::Base::Base58Btc, [9u8; 32]);
    let raw = serde_config(&keypair, "/ip4/0.0.0.0/udp/4001", "/ip4/127.0.0.1/tcp/9000");
    let config = Config::try_from(raw).unwrap();
    assert!(matches!(config.api_listen, MultiaddrUnixSocket::Multiaddr(_)));
}

#[test]
fn config_rejects_bad_keypair_encoding() {
    let raw = serde_config("", "/ip4/127.0.0.1/udp/0", "/unix/tmp/api.sock");
    match Config::try_from(raw) {
        Err(ConfigError::BadKeypairEncoding(_)) => {}
        other => panic!("expected bad keypair encoding, got {:?}", other.is_ok()),
    }
}

#[test]
fn config_rejects_short_keypair() {
    let keypair = multibase::encode(multibase::Base::Base58Btc, [7u8; 16]);
    let raw = serde_config(&keypair, "/ip4/127.0.0.1/udp/0", "/unix/tmp/api.sock");
    match Config::try_from(raw) {
        Err(ConfigError::BadKeypair(_)) => {}
        other => panic!("expected bad keypair, got {:?}", other.is_ok()),
    }
}

#[test]
fn config_rejects_bad_swarm_listen() {
    let keypair = multibase::encode(multibase::Base::Base58Btc, [7u8; 32]);
    let raw = serde_config(&keypair, "not-an-address", "/unix/tmp/api.sock");
    match Config::try_from(raw) {
        Err(ConfigError::BadSwarmListen(_)) => {}
        other => panic!("expected bad swarm listen, got {:?}", other.is_ok()),
    }
}

#[test]
fn config_rejects_bad_api_listen() {
    let keypair = multibase::encode(multibase::Base::Base58Btc, [7u8; 32]);
    let raw = serde_config(&keypair, "/ip4/127.0.0.1/udp/0", "nopath");
    match Config::try_from(raw) {
        Err(ConfigError::BadApiListen(MultiaddrUnixSocketError::EmptyPath(_))) => {}
        other => panic!("expected bad api listen, got {:?}", other.is_ok()),
    }
}

use warpgate_core::config::{
    ConfigProviderKind, HTTPConfig, LogConfig, MySQLConfig, RecordingsConfig, SSHConfig, SshHostKeyVerificationMode,
    UserRequireCredentialsPolicy, WarpgateConfig, WarpgateConfigStore, WarpgateError,
};
use warpgate_core::config::{Target, User};
use warpgate_core::data::{SessionRow, SessionSnapshot, UserSnapshot};

fn config(external_host: Option<&str>, port: u16) -> WarpgateConfig {
    let mut store = WarpgateConfigStore::default();
    store.external_host = external_host.map(|h| h.to_string());
    store.http.listen.port = port;
    WarpgateConfig { store, paths_relative_to: ".".to_string() }
}

#[test]
fn defaults_of_the_listeners() {
    let ssh = SSHConfig::default();
    assert!(!ssh.enable);
    assert_eq!((ssh.listen.host.as_str(), ssh.listen.port()), ("0.0.0.0", 2222));
    assert_eq!(ssh.keys, "./data/keys");
    assert_eq!(ssh.host_key_verification, SshHostKeyVerificationMode::Prompt);
    let http = HTTPConfig::default();
    assert!(!http.enable && !http.trust_x_forwarded_for);
    assert_eq!((http.listen.host.as_str(), http.listen.port()), ("0.0.0.0", 8888));
    assert_eq!((http.certificate.as_str(), http.key.as_str()), ("", ""));
    let mysql = MySQLConfig::default();
    assert!(!mysql.enable);
    assert_eq!((mysql.listen.host.as_str(), mysql.listen.port()), ("0.0.0.0", 33306));
    assert_eq!((mysql.certificate.as_str(), mysql.key.as_str()), ("", ""));
}

#[test]
fn defaults_of_the_store() {
    let store = WarpgateConfigStore::default();
    assert!(store.targets.is_empty() && store.users.is_empty() && store.roles.is_empty());
    assert!(store.sso_providers.is_empty());
    assert!(!store.recordings.enable);
    assert_eq!(store.recordings.path, "./data/recordings");
    assert_eq!(store.external_host, None);
    assert_eq!(store.database_url.expose_secret(), "sqlite:data/db");
    assert_eq!(store.ssh.listen.port(), 2222);
    assert_eq!(store.http.listen.port(), 8888);
    assert_eq!(store.mysql.listen.port(), 33306);
    assert_eq!(store.log.retention, 7 * 24 * 60 * 60);
    assert_eq!(store.log.send_to, None);
    assert_eq!(store.config_provider, ConfigProviderKind::Database);
}

#[test]
fn defaults_of_the_small_parts() {
    assert_eq!(SshHostKeyVerificationMode::default(), SshHostKeyVerificationMode::Prompt);
    assert_eq!(ConfigProviderKind::default(), ConfigProviderKind::Database);
    let rec = RecordingsConfig::default();
    assert!(!rec.enable);
    assert_eq!(rec.path, "./data/recordings");
    let log = LogConfig::default();
    assert_eq!(log.retention, 604800);
    assert!(log.send_to.is_none());
    let policy = UserRequireCredentialsPolicy::default();
    assert!(policy.http.is_none() && policy.ssh.is_none() && policy.mysql.is_none());
}

#[test]
fn external_url_from_the_host_header() {
    let c = config(Some("gate.example.org"), 8888);
    let host = "Example.COM".to_string();
    assert_eq!(c.construct_external_url(Some(&host), None).ok().unwrap(), "https://example.com/");
    let with_port = "example.com:8443".to_string();
    assert_eq!(c.construct_external_url(Some(&with_port), None).ok().unwrap(), "https://example.com:8443/");
}

#[test]
fn external_url_takes_the_forwarded_scheme() {
    let c = config(None, 8888);
    let host = "example.com".to_string();
    let http = "http".to_string();
    assert_eq!(c.construct_external_url(Some(&host), Some(&http)).ok().unwrap(), "http://example.com/");
    let odd = "not a scheme".to_string();
    assert_eq!(c.construct_external_url(Some(&host), Some(&odd)).ok().unwrap(), "https://example.com/");
}

#[test]
fn external_url_from_the_configured_host() {
    let c = config(Some("gate.example.org"), 8888);
    assert_eq!(c.construct_external_url(None, None).ok().unwrap(), "https://gate.example.org:8888/");
    let c = config(Some("gate.example.org"), 443);
    assert_eq!(c.construct_external_url(None, None).ok().unwrap(), "https://gate.example.org/");
    let http = "http".to_string();
    assert_eq!(c.construct_external_url(None, Some(&http)).ok().unwrap(), "https://gate.example.org/");
}

#[test]
fn external_url_errors() {
    let c = config(None, 8888);
    assert!(matches!(c.construct_external_url(None, None), Err(WarpgateError::ExternalHostNotSet)));
    let bad = "exa mple.com".to_string();
    assert!(matches!(c.construct_external_url(Some(&bad), None), Err(WarpgateError::UrlParse(_))));
    let c = config(Some(""), 8888);
    assert!(matches!(c.construct_external_url(None, None), Err(WarpgateError::UrlParse(_))));
}

#[test]
fn snapshots_copy_their_source() {
    let user = User { id: 1, username: "amy".to_string(), credentials: vec![], credential_policy: None, roles: vec![] };
    assert_eq!(UserSnapshot::new(&user).username, "amy");
    let target = Target { name: "db".to_string(), allow_roles: vec!["ops".to_string()], ssh: None };
    let row = SessionRow {
        id: 3,
        username: Some("amy".to_string()),
        target_snapshot: Some(target.clone()),
        started: 10,
        ended: Some(20),
        ticket_id: None,
        protocol: "SSH".to_string(),
    };
    let snapshot = SessionSnapshot::from(row);
    assert_eq!(
        snapshot,
        SessionSnapshot {
            id: 3,
            username: Some("amy".to_string()),
            target: Some(target),
            started: 10,
            ended: Some(20),
            ticket_id: None,
            protocol: "SSH".to_string(),
        }
    );
}

#[test]
fn external_url_within_limits_is_made() {
    let c = config(Some("gate.example.org"), 8888);
    assert!(c.external_url_is_in_reach(None, None));
    assert_eq!(c.try_construct_external_url(None, None).unwrap().ok().unwrap(), "https://gate.example.org:8888/");
    let host = "example.com".to_string();
    let http = "http".to_string();
    assert!(c.external_url_is_in_reach(Some(&host), Some(&http)));
    assert_eq!(c.try_construct_external_url(Some(&host), Some(&http)).unwrap().ok().unwrap(), "http://example.com/");
    let none = config(None, 8888);
    assert!(matches!(none.try_construct_external_url(None, None), Some(Err(WarpgateError::ExternalHostNotSet))));
    let bad = "exa mple.com".to_string();
    assert!(matches!(none.try_construct_external_url(Some(&bad), Some(&http)), Some(Err(WarpgateError::UrlParse(_)))));
}

#[test]
fn external_url_out_of_limits_is_not_attempted() {
    let c = config(Some("gate.example.org"), 8888);
    let host = "example.com".to_string();
    let long_scheme = "a".repeat(0x1000_0000);
    assert!(!c.external_url_is_in_reach(Some(&host), Some(&long_scheme)));
    assert!(c.try_construct_external_url(Some(&host), Some(&long_scheme)).is_none());
    assert!(c.external_url_is_in_reach(None, Some(&long_scheme)));
    assert_eq!(
        c.try_construct_external_url(None, Some(&long_scheme)).unwrap().ok().unwrap(),
        "https://gate.example.org:8888/"
    );
    let just_under = "a".repeat(0x1000_0000 - 1);
    assert!(c.external_url_is_in_reach(Some(&host), Some(&just_under)));
}

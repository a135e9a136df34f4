use warpgate_core::known_hosts::{HostKey, KnownHostValidationResult, KnownHosts};

fn key(kind: &str, text: &str) -> HostKey {
    HostKey { key_type: kind.to_string(), key_base64: text.to_string() }
}

#[test]
fn unseen_host_is_unknown() {
    let store = KnownHosts::new();
    assert_eq!(store.len(), 0);
    assert_eq!(store.validate(&"db.internal".to_string(), 22, &key("ssh-ed25519", "AAAA")), KnownHostValidationResult::Unknown);
}

#[test]
fn trusted_key_is_valid_and_another_is_invalid() {
    let mut store = KnownHosts::new();
    let host = "db.internal".to_string();
    store.trust(&host, 22, &key("ssh-ed25519", "AAAA"), 1000);
    assert_eq!(store.validate(&host, 22, &key("ssh-ed25519", "AAAA")), KnownHostValidationResult::Valid);
    assert_eq!(
        store.validate(&host, 22, &key("ssh-ed25519", "BBBB")),
        KnownHostValidationResult::Invalid { key_type: "ssh-ed25519".to_string(), key_base64: "AAAA".to_string() }
    );
    assert_eq!(
        store.validate(&host, 22, &key("ssh-rsa", "AAAA")),
        KnownHostValidationResult::Invalid { key_type: "ssh-ed25519".to_string(), key_base64: "AAAA".to_string() }
    );
}

#[test]
fn address_is_host_and_port() {
    let mut store = KnownHosts::new();
    let host = "db.internal".to_string();
    store.trust(&host, 22, &key("ssh-ed25519", "AAAA"), 1000);
    assert_eq!(store.validate(&host, 2222, &key("ssh-ed25519", "AAAA")), KnownHostValidationResult::Unknown);
    assert_eq!(store.validate(&"db.external".to_string(), 22, &key("ssh-ed25519", "AAAA")), KnownHostValidationResult::Unknown);
}

#[test]
fn repeated_trust_leaves_one_entry() {
    let mut store = KnownHosts::new();
    let host = "db.internal".to_string();
    store.trust(&host, 22, &key("ssh-ed25519", "AAAA"), 1000);
    store.trust(&host, 22, &key("ssh-ed25519", "AAAA"), 2000);
    store.trust(&host, 22, &key("ssh-ed25519", "AAAA"), 3000);
    assert_eq!(store.len(), 1);
    let entry = store.get(0).unwrap();
    assert_eq!(entry.host, "db.internal");
    assert_eq!(entry.port, 22);
    assert_eq!(entry.key_type, "ssh-ed25519");
    assert_eq!(entry.key_base64, "AAAA");
    assert_eq!(entry.trusted_at, 3000);
    assert!(store.get(1).is_none());
}

#[test]
fn trust_replaces_the_key_on_file() {
    let mut store = KnownHosts::new();
    let host = "db.internal".to_string();
    store.trust(&host, 22, &key("ssh-ed25519", "AAAA"), 1000);
    store.trust(&"other".to_string(), 22, &key("ssh-rsa", "CCCC"), 1500);
    store.trust(&host, 22, &key("ssh-ed25519", "BBBB"), 2000);
    assert_eq!(store.len(), 2);
    assert!(store.is_well_formed());
    assert_eq!(store.validate(&host, 22, &key("ssh-ed25519", "BBBB")), KnownHostValidationResult::Valid);
    assert_eq!(store.validate(&"other".to_string(), 22, &key("ssh-rsa", "CCCC")), KnownHostValidationResult::Valid);
    assert_eq!(
        store.validate(&host, 22, &key("ssh-ed25519", "AAAA")),
        KnownHostValidationResult::Invalid { key_type: "ssh-ed25519".to_string(), key_base64: "BBBB".to_string() }
    );
}

use warpgate_core::auth::{
    authorize, authorize_login, authorize_user, check_secret, credential_verifies, find_user, AuthResult,
    PresentedCredential, Protocol, SecretVerifier,
};
use warpgate_core::config::{
    User, UserAuthCredential, UserPasswordCredential, UserPublicKeyCredential, UserRequireCredentialsPolicy,
    UserSsoCredential, UserTotpCredential,
};
use warpgate_core::cred::{AuthCredential, CredentialKind};
use warpgate_core::secret::Secret;

fn password(ok: bool) -> PresentedCredential {
    PresentedCredential {
        credential: AuthCredential::Password(Secret::new("hunter2".to_string())),
        secret_accepted: ok,
    }
}

fn otp(ok: bool) -> PresentedCredential {
    PresentedCredential { credential: AuthCredential::Otp(Secret::new("123456".to_string())), secret_accepted: ok }
}

fn public_key(kind: &str, bytes: &[u8]) -> PresentedCredential {
    PresentedCredential {
        credential: AuthCredential::PublicKey { kind: kind.to_string(), public_key_bytes: bytes.to_vec() },
        secret_accepted: false,
    }
}

fn sso(provider: &str, email: &str) -> PresentedCredential {
    PresentedCredential {
        credential: AuthCredential::Sso { provider: provider.to_string(), email: email.to_string() },
        secret_accepted: false,
    }
}

fn stored_all() -> Vec<UserAuthCredential> {
    vec![
        UserAuthCredential::Password(UserPasswordCredential { hash: Secret::new("$argon2id$x".to_string()) }),
        UserAuthCredential::Totp(UserTotpCredential { key: Secret::new(vec![1, 2, 3]) }),
        UserAuthCredential::PublicKey(UserPublicKeyCredential {
            key: Secret::new("ssh-ed25519 SGVsbG8gd29ybGQ=".to_string()),
        }),
        UserAuthCredential::Sso(UserSsoCredential { provider: Some("google".to_string()), email: "amy@example.com".to_string() }),
    ]
}

fn user(name: &str, policy: Option<UserRequireCredentialsPolicy>) -> User {
    User { id: 7, username: name.to_string(), credentials: stored_all(), credential_policy: policy, roles: vec![] }
}

fn http_policy(kinds: Vec<CredentialKind>) -> Option<UserRequireCredentialsPolicy> {
    Some(UserRequireCredentialsPolicy { http: Some(kinds), ssh: None, mysql: None })
}

fn accepted(name: &str) -> AuthResult {
    AuthResult::Accepted { username: name.to_string() }
}

#[test]
fn presented_kinds() {
    assert_eq!(password(true).credential.kind(), CredentialKind::Password);
    assert_eq!(otp(true).credential.kind(), CredentialKind::Otp);
    assert_eq!(public_key("ssh-rsa", b"k").credential.kind(), CredentialKind::PublicKey);
    assert_eq!(sso("google", "a@b").credential.kind(), CredentialKind::Sso);
}

#[test]
fn stored_kinds() {
    let kinds: Vec<CredentialKind> = stored_all().iter().map(|c| c.kind()).collect();
    assert_eq!(
        kinds,
        vec![CredentialKind::Password, CredentialKind::Otp, CredentialKind::PublicKey, CredentialKind::Sso]
    );
}

#[test]
fn kind_tags() {
    assert_eq!(CredentialKind::Password.tag(), "password");
    assert_eq!(CredentialKind::PublicKey.tag(), "publickey");
    assert_eq!(CredentialKind::Otp.tag(), "otp");
    assert_eq!(CredentialKind::Sso.tag(), "sso");
}

#[test]
fn one_matching_credential_without_policy_is_accepted() {
    let users = vec![user("amy", None)];
    let name = "amy".to_string();
    for creds in [
        vec![password(true)],
        vec![otp(true)],
        vec![public_key("ssh-ed25519", b"Hello world")],
        vec![sso("google", "amy@example.com")],
    ] {
        for protocol in [Protocol::Http, Protocol::Ssh, Protocol::Database] {
            assert_eq!(authorize(&users, &name, &creds, protocol), accepted("amy"));
        }
    }
}

#[test]
fn password_then_otp() {
    let users = vec![user("amy", http_policy(vec![CredentialKind::Password, CredentialKind::Otp]))];
    let name = "amy".to_string();
    assert_eq!(authorize(&users, &name, &vec![password(true)], Protocol::Http), AuthResult::Need(CredentialKind::Otp));
    assert_eq!(authorize(&users, &name, &vec![password(true), otp(true)], Protocol::Http), accepted("amy"));
    assert_eq!(authorize(&users, &name, &vec![password(true), otp(false)], Protocol::Http), AuthResult::Rejected);
}

#[test]
fn need_names_the_first_missing_kind_in_policy_order() {
    let users = vec![user("amy", http_policy(vec![CredentialKind::Sso, CredentialKind::Password, CredentialKind::Otp]))];
    let name = "amy".to_string();
    assert_eq!(authorize(&users, &name, &vec![otp(true)], Protocol::Http), AuthResult::Need(CredentialKind::Sso));
    assert_eq!(
        authorize(&users, &name, &vec![sso("google", "amy@example.com")], Protocol::Http),
        AuthResult::Need(CredentialKind::Password)
    );
}

#[test]
fn policy_of_another_protocol_is_not_applied() {
    let users = vec![user("amy", http_policy(vec![CredentialKind::Password, CredentialKind::Otp]))];
    let name = "amy".to_string();
    assert_eq!(authorize(&users, &name, &vec![password(true)], Protocol::Ssh), accepted("amy"));
    assert_eq!(authorize(&users, &name, &vec![password(true)], Protocol::Database), accepted("amy"));
}

#[test]
fn database_policy_is_read_for_database_logins() {
    let policy = Some(UserRequireCredentialsPolicy { http: None, ssh: None, mysql: Some(vec![CredentialKind::Otp]) });
    let u = user("amy", policy);
    assert_eq!(authorize_user(&u, &vec![password(true)], Protocol::Database), AuthResult::Need(CredentialKind::Otp));
    assert_eq!(authorize_user(&u, &vec![password(true)], Protocol::Http), accepted("amy"));
}

#[test]
fn empty_policy_list_asks_for_nothing_more() {
    let users = vec![user("amy", http_policy(vec![]))];
    assert_eq!(authorize(&users, &"amy".to_string(), &vec![otp(true)], Protocol::Http), accepted("amy"));
}

#[test]
fn unknown_user_is_rejected() {
    let users = vec![user("amy", None)];
    assert_eq!(authorize(&users, &"bob".to_string(), &vec![password(true)], Protocol::Http), AuthResult::Rejected);
    assert_eq!(authorize(&vec![], &"amy".to_string(), &vec![password(true)], Protocol::Http), AuthResult::Rejected);
}

#[test]
fn nothing_presented_is_rejected() {
    let users = vec![user("amy", None)];
    assert_eq!(authorize(&users, &"amy".to_string(), &vec![], Protocol::Http), AuthResult::Rejected);
    let strict = vec![user("amy", http_policy(vec![CredentialKind::Password]))];
    assert_eq!(authorize(&strict, &"amy".to_string(), &vec![], Protocol::Http), AuthResult::Rejected);
}

#[test]
fn a_failed_credential_overrides_need() {
    let users = vec![user("amy", http_policy(vec![CredentialKind::Password, CredentialKind::Otp]))];
    assert_eq!(authorize(&users, &"amy".to_string(), &vec![password(false)], Protocol::Http), AuthResult::Rejected);
}

#[test]
fn public_key_is_compared_by_algorithm_and_bytes() {
    let stored = stored_all();
    assert!(credential_verifies(&public_key("ssh-ed25519", b"Hello world"), &stored));
    assert!(!credential_verifies(&public_key("ssh-ed25519", b"Hello worle"), &stored));
    assert!(!credential_verifies(&public_key("ssh-rsa", b"Hello world"), &stored));
    assert!(!credential_verifies(&public_key("ssh-ed25519", b"SGVsbG8gd29ybGQ="), &stored));
}

#[test]
fn sso_is_compared_by_provider_and_email() {
    let stored = stored_all();
    assert!(credential_verifies(&sso("google", "amy@example.com"), &stored));
    assert!(!credential_verifies(&sso("github", "amy@example.com"), &stored));
    assert!(!credential_verifies(&sso("google", "bob@example.com"), &stored));
    let any_provider =
        vec![UserAuthCredential::Sso(UserSsoCredential { provider: None, email: "amy@example.com".to_string() })];
    assert!(credential_verifies(&sso("github", "amy@example.com"), &any_provider));
}

#[test]
fn secret_needs_a_stored_credential_of_its_kind() {
    let only_key = vec![UserAuthCredential::PublicKey(UserPublicKeyCredential { key: Secret::new("k".to_string()) })];
    assert!(!credential_verifies(&password(true), &only_key));
    assert!(!credential_verifies(&otp(true), &only_key));
    assert!(credential_verifies(&password(true), &stored_all()));
    assert!(!credential_verifies(&password(false), &stored_all()));
}

#[test]
fn first_user_of_a_name_is_found() {
    let users = vec![user("amy", None), user("bob", None), user("amy", http_policy(vec![CredentialKind::Otp]))];
    assert_eq!(find_user(&users, &"amy".to_string()), Some(0));
    assert_eq!(find_user(&users, &"bob".to_string()), Some(1));
    assert_eq!(find_user(&users, &"eve".to_string()), None);
    assert_eq!(authorize(&users, &"amy".to_string(), &vec![password(true)], Protocol::Http), accepted("amy"));
}

#[test]
fn protocol_names() {
    assert_eq!(Protocol::Http.name(), "HTTP");
    assert_eq!(Protocol::Ssh.name(), "SSH");
    assert_eq!(Protocol::Database.name(), "MySQL");
}

struct Fixed {
    password: &'static str,
    code: &'static str,
}

impl SecretVerifier for Fixed {
    fn verify_password(&self, password: &String, hash: &String) -> bool {
        hash == "$argon2id$x" && password == self.password
    }

    fn verify_totp(&self, code: &String, key: &Vec<u8>) -> bool {
        key == &vec![1, 2, 3] && code == self.code
    }
}

const VERIFIER: Fixed = Fixed { password: "hunter2", code: "123456" };

#[test]
fn secrets_are_checked_against_stored_credentials_of_their_kind() {
    let stored = stored_all();
    assert!(check_secret(&VERIFIER, &password(false).credential, &stored));
    assert!(check_secret(&VERIFIER, &otp(false).credential, &stored));
    let wrong = AuthCredential::Password(Secret::new("hunter3".to_string()));
    assert!(!check_secret(&VERIFIER, &wrong, &stored));
    let swapped = AuthCredential::Otp(Secret::new("hunter2".to_string()));
    assert!(!check_secret(&VERIFIER, &swapped, &stored));
    assert!(!check_secret(&VERIFIER, &sso("google", "amy@example.com").credential, &stored));
    assert!(!check_secret(&VERIFIER, &password(false).credential, &vec![]));
}

#[test]
fn login_with_checked_secrets() {
    let users = vec![user("amy", http_policy(vec![CredentialKind::Password, CredentialKind::Otp]))];
    let name = "amy".to_string();
    let good_password = AuthCredential::Password(Secret::new("hunter2".to_string()));
    let bad_password = AuthCredential::Password(Secret::new("hunter3".to_string()));
    let good_code = AuthCredential::Otp(Secret::new("123456".to_string()));
    let bad_code = AuthCredential::Otp(Secret::new("000000".to_string()));
    assert_eq!(
        authorize_login(&VERIFIER, &users, &name, vec![good_password.clone()], Protocol::Http),
        AuthResult::Need(CredentialKind::Otp)
    );
    assert_eq!(
        authorize_login(&VERIFIER, &users, &name, vec![good_password.clone(), good_code.clone()], Protocol::Http),
        accepted("amy")
    );
    assert_eq!(
        authorize_login(&VERIFIER, &users, &name, vec![good_password.clone(), bad_code], Protocol::Http),
        AuthResult::Rejected
    );
    assert_eq!(
        authorize_login(&VERIFIER, &users, &name, vec![bad_password, good_code], Protocol::Http),
        AuthResult::Rejected
    );
    assert_eq!(authorize_login(&VERIFIER, &users, &name, vec![good_password.clone()], Protocol::Ssh), accepted("amy"));
    assert_eq!(
        authorize_login(&VERIFIER, &users, &"bob".to_string(), vec![good_password], Protocol::Ssh),
        AuthResult::Rejected
    );
    assert_eq!(authorize_login(&VERIFIER, &users, &name, vec![], Protocol::Ssh), AuthResult::Rejected);
}

#[test]
fn login_without_secrets_does_not_depend_on_the_verifier() {
    let users = vec![user("amy", None)];
    let name = "amy".to_string();
    let key = public_key("ssh-ed25519", b"Hello world").credential;
    let other = public_key("ssh-ed25519", b"Hello there").credential;
    assert_eq!(authorize_login(&VERIFIER, &users, &name, vec![key], Protocol::Ssh), accepted("amy"));
    assert_eq!(authorize_login(&VERIFIER, &users, &name, vec![other], Protocol::Ssh), AuthResult::Rejected);
    let assertion = sso("google", "amy@example.com").credential;
    assert_eq!(authorize_login(&VERIFIER, &users, &name, vec![assertion], Protocol::Http), accepted("amy"));
}

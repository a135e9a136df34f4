use warpgate_core::auth::{AuthResult, SecretVerifier};
use warpgate_core::config::{User, UserAuthCredential, UserPasswordCredential, UserRequireCredentialsPolicy, UserTotpCredential};
use warpgate_core::cred::{AuthCredential, CredentialKind};
use warpgate_core::login::{
    Api, LoginFailureReason, LoginFailureResponse, LoginOutcome, LoginRequest, LoginResponse, LogoutResponse,
};
use warpgate_core::secret::Secret;

fn users(require_otp: bool) -> Vec<User> {
    let policy = if require_otp {
        Some(UserRequireCredentialsPolicy {
            http: Some(vec![CredentialKind::Password, CredentialKind::Otp]),
            ssh: None,
            mysql: None,
        })
    } else {
        None
    };
    vec![User {
        id: 1,
        username: "amy".to_string(),
        credentials: vec![
            UserAuthCredential::Password(UserPasswordCredential { hash: Secret::new("h".to_string()) }),
            UserAuthCredential::Totp(UserTotpCredential { key: Secret::new(vec![9]) }),
        ],
        credential_policy: policy,
        roles: vec![],
    }]
}

struct Fixed;

impl SecretVerifier for Fixed {
    fn verify_password(&self, password: &String, hash: &String) -> bool {
        hash == "h" && password == "pw"
    }

    fn verify_totp(&self, code: &String, key: &Vec<u8>) -> bool {
        key == &vec![9] && code == "000111"
    }
}

fn request(password: &str, otp: Option<&str>) -> LoginRequest {
    LoginRequest { username: "amy".to_string(), password: password.to_string(), otp: otp.map(|c| c.to_string()) }
}

fn failure(reason: LoginFailureReason) -> LoginOutcome {
    LoginOutcome { response: LoginResponse::Failure(LoginFailureResponse { reason }), username: None }
}

fn success(name: &str) -> LoginOutcome {
    LoginOutcome { response: LoginResponse::Success, username: Some(name.to_string()) }
}

#[test]
fn request_presents_password_then_code() {
    let one = Api::credentials(&request("pw", None));
    assert_eq!(one.len(), 1);
    assert!(matches!(&one[0], AuthCredential::Password(p) if p.expose_secret() == "pw"));
    let two = Api::credentials(&request("pw", Some("000111")));
    assert_eq!(two.len(), 2);
    assert!(matches!(&two[0], AuthCredential::Password(p) if p.expose_secret() == "pw"));
    assert!(matches!(&two[1], AuthCredential::Otp(c) if c.expose_secret() == "000111"));
}

#[test]
fn login_answers() {
    assert_eq!(Api.api_auth_login(&Fixed, &users(false), &request("pw", None)), success("amy"));
    assert_eq!(
        Api.api_auth_login(&Fixed, &users(true), &request("pw", None)),
        failure(LoginFailureReason::OtpNeeded)
    );
    assert_eq!(Api.api_auth_login(&Fixed, &users(true), &request("pw", Some("000111"))), success("amy"));
    assert_eq!(
        Api.api_auth_login(&Fixed, &users(true), &request("pw", Some("1"))),
        failure(LoginFailureReason::InvalidCredentials)
    );
    assert_eq!(
        Api.api_auth_login(&Fixed, &users(false), &request("wrong", None)),
        failure(LoginFailureReason::InvalidCredentials)
    );
    assert_eq!(
        Api.api_auth_login(&Fixed, &vec![], &request("pw", None)),
        failure(LoginFailureReason::InvalidCredentials)
    );
}

#[test]
fn verdicts_become_answers() {
    assert_eq!(Api::respond(AuthResult::Accepted { username: "amy".to_string() }), success("amy"));
    assert_eq!(Api::respond(AuthResult::Rejected), failure(LoginFailureReason::InvalidCredentials));
    assert_eq!(Api::respond(AuthResult::Need(CredentialKind::Otp)), failure(LoginFailureReason::OtpNeeded));
    assert_eq!(Api::respond(AuthResult::Need(CredentialKind::Sso)), failure(LoginFailureReason::SsoNeeded));
    assert_eq!(
        Api::respond(AuthResult::Need(CredentialKind::Password)),
        failure(LoginFailureReason::InvalidCredentials)
    );
    assert_eq!(
        Api::respond(AuthResult::Need(CredentialKind::PublicKey)),
        failure(LoginFailureReason::InvalidCredentials)
    );
}

#[test]
fn answers_have_their_status() {
    assert_eq!(LoginResponse::Success.status(), 201);
    assert_eq!(
        LoginResponse::Failure(LoginFailureResponse { reason: LoginFailureReason::OtpNeeded }).status(),
        401
    );
    assert_eq!(Api.api_auth_logout(), LogoutResponse::Success);
}

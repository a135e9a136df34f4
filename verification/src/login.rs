use crate::auth::{
    authorize_login, authorize_spec, checked_by, lemma_user_index, with_checks, AuthResult, AuthResultModel,
    Protocol, SecretVerifier,
};
use crate::config::User;
use crate::cred::{AuthCredential, CredentialKind};
use crate::secret::Secret;
use vstd::prelude::*;

verus! {

/// The login interface of the HTTP front-end.
pub struct Api;

pub struct LoginRequest {
    pub username: String,
    pub password: String,
    pub otp: Option<String>,
}

#[derive(Debug, Clone, Copy, PartialEq, Eq, Structural)]
pub enum LoginFailureReason {
    InvalidCredentials,
    OtpNeeded,
    SsoNeeded,
}

#[derive(Debug, PartialEq, Eq)]
pub struct LoginFailureResponse {
    pub reason: LoginFailureReason,
}

#[derive(Debug, PartialEq, Eq)]
pub enum LoginResponse {
    Success,
    Failure(LoginFailureResponse),
}

#[derive(Debug, PartialEq, Eq)]
pub enum LogoutResponse {
    Success,
}

/// The answer to a login, and the name to bind the session to where it succeeded.
#[derive(Debug, PartialEq, Eq)]
pub struct LoginOutcome {
    pub response: LoginResponse,
    pub username: Option<String>,
}

/// The credentials that a login request presents: the password, then the
/// one-time code if there is one.
pub open spec fn presented_by(body: LoginRequest) -> Seq<AuthCredential> {
    let password = AuthCredential::Password(Secret::new_spec(body.password));
    match body.otp {
        None => seq![password],
        Some(code) => seq![password, AuthCredential::Otp(Secret::new_spec(code))],
    }
}

/// Whether the outcome fits the verdict. Success carries the accepted name;
/// any other verdict gives its failure and no name.
pub open spec fn outcome_fits(r: LoginOutcome, verdict: AuthResultModel) -> bool {
    match verdict {
        AuthResultModel::Accepted { username } => r.response is Success && r.username is Some
            && r.username.unwrap()@ == username,
        other => r.username is None && r.response == LoginResponse::Failure(
            LoginFailureResponse { reason: failure_reason(other) },
        ),
    }
}

/// The failure that a verdict other than acceptance is answered with: only
/// a request for a one-time code or for single sign-on is told apart.
pub open spec fn failure_reason(verdict: AuthResultModel) -> LoginFailureReason {
    match verdict {
        AuthResultModel::Need(CredentialKind::Otp) => LoginFailureReason::OtpNeeded,
        AuthResultModel::Need(CredentialKind::Sso) => LoginFailureReason::SsoNeeded,
        _ => LoginFailureReason::InvalidCredentials,
    }
}

impl LoginResponse {
    /// The HTTP status that the response is sent with.
    pub open spec fn status_spec(self) -> u16 {
        match self {
            LoginResponse::Success => 201,
            LoginResponse::Failure(_) => 401,
        }
    }

    pub fn status(&self) -> (r: u16)
        ensures
            r == self.status_spec(),
    {
        match self {
            LoginResponse::Success => 201,
            LoginResponse::Failure(_) => 401,
        }
    }
}

impl Api {
    /// The credentials that the request presents.
    pub fn credentials(body: &LoginRequest) -> (r: Vec<AuthCredential>)
        ensures
            r@ == presented_by(*body),
    {
        let mut credentials: Vec<AuthCredential> = Vec::new();
        credentials.push(AuthCredential::Password(Secret::new(body.password.clone())));
        if let Some(code) = &body.otp {
            credentials.push(AuthCredential::Otp(Secret::new(code.clone())));
        }
        proof {
            assert(credentials@ =~= presented_by(*body));
        }
        credentials
    }

    /// The answer that a verdict is sent back as.
    pub fn respond(result: AuthResult) -> (r: LoginOutcome)
        ensures
            outcome_fits(r, result@),
    {
        match result {
            AuthResult::Accepted { username } => LoginOutcome {
                response: LoginResponse::Success,
                username: Some(username),
            },
            AuthResult::Rejected => LoginOutcome {
                response: LoginResponse::Failure(
                    LoginFailureResponse { reason: LoginFailureReason::InvalidCredentials },
                ),
                username: None,
            },
            AuthResult::Need(CredentialKind::Otp) => LoginOutcome {
                response: LoginResponse::Failure(LoginFailureResponse { reason: LoginFailureReason::OtpNeeded }),
                username: None,
            },
            AuthResult::Need(CredentialKind::Sso) => LoginOutcome {
                response: LoginResponse::Failure(LoginFailureResponse { reason: LoginFailureReason::SsoNeeded }),
                username: None,
            },
            AuthResult::Need(_) => LoginOutcome {
                response: LoginResponse::Failure(
                    LoginFailureResponse { reason: LoginFailureReason::InvalidCredentials },
                ),
                username: None,
            },
        }
    }

    /// Decides a login that came in over HTTP: the password and the code of
    /// the request are checked by the verifier and held against the user's
    /// credentials and policy, and the verdict is turned into the answer.
    /// The outcome fits the verdict on the request's credentials with what
    /// the verifier's answers come to for each of them.
    pub fn api_auth_login<V: SecretVerifier>(&self, verifier: &V, users: &Vec<User>, body: &LoginRequest) -> (r:
        LoginOutcome)
        ensures
            exists|accepted: Seq<bool>|
                {
                    &&& accepted.len() == presented_by(*body).len()
                    &&& checked_by(verifier, users@, body.username@, presented_by(*body), accepted)
                    &&& outcome_fits(
                        r,
                        authorize_spec(
                            users@,
                            body.username@,
                            #[trigger] with_checks(presented_by(*body), accepted),
                            Protocol::Http,
                        ),
                    )
                },
            r.response is Success ==> r.username is Some && r.username.unwrap()@ == body.username@,
    {
        let credentials = Api::credentials(body);
        let result = authorize_login(verifier, users, &body.username, credentials, Protocol::Http);
        proof {
            lemma_user_index(users@, body.username@, 0);
        }
        Api::respond(result)
    }

    /// Ends the login: there is one answer.
    pub fn api_auth_logout(&self) -> (r: LogoutResponse)
        ensures
            r is Success,
    {
        LogoutResponse::Success
    }
}

} // verus!

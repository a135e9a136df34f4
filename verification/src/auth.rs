use crate::config::{User, UserAuthCredential};
use crate::cred::{AuthCredential, CredentialKind};
use crate::encoding::{base64_encode, base64_text};
use crate::text::push_str;
use vstd::prelude::*;

verus! {

/// The protocol that a login comes in by.
#[derive(Debug, Clone, Copy, PartialEq, Eq, Structural)]
pub enum Protocol {
    Http,
    Ssh,
    Database,
}

impl Protocol {
    pub open spec fn name_spec(self) -> Seq<char> {
        match self {
            Protocol::Http => "HTTP"@,
            Protocol::Ssh => "SSH"@,
            Protocol::Database => "MySQL"@,
        }
    }

    /// The name under which sessions of the protocol are listed.
    pub fn name(&self) -> (r: &'static str)
        ensures
            r@ == self.name_spec(),
    {
        match self {
            Protocol::Http => "HTTP",
            Protocol::Ssh => "SSH",
            Protocol::Database => "MySQL",
        }
    }
}

/// The verdict on a login.
#[derive(Debug, PartialEq, Eq)]
pub enum AuthResult {
    Accepted { username: String },
    /// One more credential of this kind is owed.
    Need(CredentialKind),
    Rejected,
}

pub ghost enum AuthResultModel {
    Accepted { username: Seq<char> },
    Need(CredentialKind),
    Rejected,
}

impl AuthResult {
    pub open spec fn view(self) -> AuthResultModel {
        match self {
            AuthResult::Accepted { username } => AuthResultModel::Accepted { username: username@ },
            AuthResult::Need(k) => AuthResultModel::Need(k),
            AuthResult::Rejected => AuthResultModel::Rejected,
        }
    }
}

/// A credential shown at login, together with what the check of its secret
/// found.
#[derive(Clone, PartialEq, Eq)]
pub struct PresentedCredential {
    pub credential: AuthCredential,
    /// For a password or a one-time code: whether the hash check or the
    /// time-window check accepted it against a credential of that kind on
    /// file for the user. Not read for a public key or a single-sign-on
    /// assertion, which are compared here.
    pub secret_accepted: bool,
}

/// The one-line text form of a public key: algorithm, a space, base64 of the bytes.
pub open spec fn public_key_line(kind: Seq<char>, bytes: Seq<u8>) -> Seq<char> {
    kind + " "@ + base64_text(bytes)
}

/// Whether the presented credential proves the stored one.
pub open spec fn proves(p: PresentedCredential, stored: UserAuthCredential) -> bool {
    match (p.credential, stored) {
        (AuthCredential::Password(_), UserAuthCredential::Password(_)) => p.secret_accepted,
        (AuthCredential::Otp(_), UserAuthCredential::Totp(_)) => p.secret_accepted,
        (AuthCredential::PublicKey { kind, public_key_bytes }, UserAuthCredential::PublicKey(c)) => c.key.value()@
            == public_key_line(kind@, public_key_bytes@),
        (AuthCredential::Sso { provider, email }, UserAuthCredential::Sso(c)) => c.email@ == email@ && (match c.provider {
            None => true,
            Some(p) => p@ == provider@,
        }),
        _ => false,
    }
}

/// Whether the presented credential proves one of the stored ones.
pub open spec fn verifies(p: PresentedCredential, stored: Seq<UserAuthCredential>) -> bool {
    exists|j: int| 0 <= j < stored.len() && proves(p, #[trigger] stored[j])
}

/// Whether a credential of the kind is among those presented.
pub open spec fn presents(creds: Seq<PresentedCredential>, kind: CredentialKind) -> bool {
    exists|i: int| 0 <= i < creds.len() && (#[trigger] creds[i]).credential.kind_spec() == kind
}

/// The first required kind, from position `from` on, of which nothing was presented.
pub open spec fn first_missing(required: Seq<CredentialKind>, creds: Seq<PresentedCredential>, from: int) -> Option<
    CredentialKind,
>
    decreases required.len() - from,
{
    if from < 0 || from >= required.len() {
        None
    } else if !presents(creds, required[from]) {
        Some(required[from])
    } else {
        first_missing(required, creds, from + 1)
    }
}

/// The kinds that the user's policy requires for the protocol, if it names any.
pub open spec fn required_kinds(user: User, protocol: Protocol) -> Option<Seq<CredentialKind>> {
    match user.credential_policy {
        None => None,
        Some(policy) => {
            let list = match protocol {
                Protocol::Http => policy.http,
                Protocol::Ssh => policy.ssh,
                Protocol::Database => policy.mysql,
            };
            match list {
                None => None,
                Some(v) => Some(v@),
            }
        },
    }
}

/// Position of the first user of that name from position `from` on.
pub open spec fn user_index_from(users: Seq<User>, name: Seq<char>, from: int) -> Option<int>
    decreases users.len() - from,
{
    if from < 0 || from >= users.len() {
        None
    } else if users[from].username@ == name {
        Some(from)
    } else {
        user_index_from(users, name, from + 1)
    }
}

/// Position of the first user of that name.
pub open spec fn user_index(users: Seq<User>, name: Seq<char>) -> Option<int> {
    user_index_from(users, name, 0)
}

/// What `user_index_from` finds: the first position from `from` on whose
/// user has the name, or nothing where no user from there on has it.
pub proof fn lemma_user_index(users: Seq<User>, name: Seq<char>, from: int)
    requires
        0 <= from,
    ensures
        match user_index_from(users, name, from) {
            Some(i) => from <= i < users.len() && users[i].username@ == name && forall|j: int|
                from <= j < i ==> (#[trigger] users[j]).username@ != name,
            None => forall|j: int| from <= j < users.len() ==> (#[trigger] users[j]).username@ != name,
        },
    decreases users.len() - from,
{
    if from < users.len() && users[from].username@ != name {
        lemma_user_index(users, name, from + 1);
    }
}

/// The verdict for a known user: rejected where nothing was presented or a
/// presented credential proves nothing on file; else the first required kind
/// that is still owed; else accepted.
pub open spec fn verdict_for(user: User, creds: Seq<PresentedCredential>, protocol: Protocol) -> AuthResultModel {
    if creds.len() == 0 || exists|i: int| 0 <= i < creds.len() && !verifies(#[trigger] creds[i], user.credentials@) {
        AuthResultModel::Rejected
    } else {
        match required_kinds(user, protocol) {
            None => AuthResultModel::Accepted { username: user.username@ },
            Some(required) => match first_missing(required, creds, 0) {
                Some(kind) => AuthResultModel::Need(kind),
                None => AuthResultModel::Accepted { username: user.username@ },
            },
        }
    }
}

/// The verdict on a login by name: an unknown name is rejected like a wrong credential.
pub open spec fn authorize_spec(
    users: Seq<User>,
    username: Seq<char>,
    creds: Seq<PresentedCredential>,
    protocol: Protocol,
) -> AuthResultModel {
    match user_index(users, username) {
        None => AuthResultModel::Rejected,
        Some(i) => verdict_for(users[i], creds, protocol),
    }
}

/// Whether the presented credential proves one of the stored ones.
pub fn credential_verifies(p: &PresentedCredential, stored: &Vec<UserAuthCredential>) -> (r: bool)
    ensures
        r == verifies(*p, stored@),
{
    let line = match &p.credential {
        AuthCredential::PublicKey { kind, public_key_bytes } => {
            let mut line = kind.clone();
            push_str(&mut line, " ");
            let encoded = base64_encode(public_key_bytes);
            push_str(&mut line, encoded.as_str());
            line
        },
        _ => String::new(),
    };
    let mut j: usize = 0;
    while j < stored.len()
        invariant
            j <= stored.len(),
            p.credential is PublicKey ==> line@ == public_key_line(
                p.credential->kind@,
                p.credential->public_key_bytes@,
            ),
            forall|k: int| 0 <= k < j ==> !proves(*p, #[trigger] stored[k]),
        decreases stored.len() - j,
    {
        let hit = match (&p.credential, &stored[j]) {
            (AuthCredential::Password(_), UserAuthCredential::Password(_)) => p.secret_accepted,
            (AuthCredential::Otp(_), UserAuthCredential::Totp(_)) => p.secret_accepted,
            (AuthCredential::PublicKey { .. }, UserAuthCredential::PublicKey(c)) => *c.key.expose_secret() == line,
            (AuthCredential::Sso { provider, email }, UserAuthCredential::Sso(c)) => {
                let provider_fits = match &c.provider {
                    None => true,
                    Some(name) => *name == *provider,
                };
                c.email == *email && provider_fits
            },
            _ => false,
        };
        if hit {
            return true;
        }
        j += 1;
    }
    false
}

/// Whether a credential of the kind is among those presented.
fn kind_presented(creds: &Vec<PresentedCredential>, kind: CredentialKind) -> (r: bool)
    ensures
        r == presents(creds@, kind),
{
    let mut i: usize = 0;
    while i < creds.len()
        invariant
            i <= creds.len(),
            forall|k: int| 0 <= k < i ==> (#[trigger] creds[k]).credential.kind_spec() != kind,
        decreases creds.len() - i,
    {
        if creds[i].credential.kind() == kind {
            return true;
        }
        i += 1;
    }
    false
}

/// Position of the first user of that name.
pub fn find_user(users: &Vec<User>, username: &String) -> (r: Option<usize>)
    ensures
        match r {
            Some(i) => user_index(users@, username@) == Some(i as int) && i < users.len(),
            None => user_index(users@, username@).is_none(),
        },
{
    let mut i: usize = 0;
    while i < users.len()
        invariant
            i <= users.len(),
            user_index(users@, username@) == user_index_from(users@, username@, i as int),
        decreases users.len() - i,
    {
        if users[i].username == *username {
            return Some(i);
        }
        i += 1;
    }
    None
}

/// The verdict on the presented credentials for a user on file.
pub fn authorize_user(user: &User, credentials: &Vec<PresentedCredential>, protocol: Protocol) -> (r: AuthResult)
    ensures
        r@ == verdict_for(*user, credentials@, protocol),
{
    if credentials.len() == 0 {
        return AuthResult::Rejected;
    }
    let mut i: usize = 0;
    while i < credentials.len()
        invariant
            i <= credentials.len(),
            forall|k: int| 0 <= k < i ==> verifies(#[trigger] credentials[k], user.credentials@),
        decreases credentials.len() - i,
    {
        if !credential_verifies(&credentials[i], &user.credentials) {
            return AuthResult::Rejected;
        }
        i += 1;
    }
    let required = match &user.credential_policy {
        None => None,
        Some(policy) => match protocol {
            Protocol::Http => policy.http.as_ref(),
            Protocol::Ssh => policy.ssh.as_ref(),
            Protocol::Database => policy.mysql.as_ref(),
        },
    };
    match required {
        None => AuthResult::Accepted { username: user.username.clone() },
        Some(kinds) => {
            let mut k: usize = 0;
            while k < kinds.len()
                invariant
                    k <= kinds.len(),
                    credentials.len() > 0,
                    forall|c: int| 0 <= c < credentials.len() ==> verifies(#[trigger] credentials[c], user.credentials@),
                    required_kinds(*user, protocol) == Some(kinds@),
                    first_missing(kinds@, credentials@, 0) == first_missing(kinds@, credentials@, k as int),
                decreases kinds.len() - k,
            {
                if !kind_presented(credentials, kinds[k]) {
                    return AuthResult::Need(kinds[k]);
                }
                k += 1;
            }
            AuthResult::Accepted { username: user.username.clone() }
        },
    }
}

/// Decides a login: looks the user up by name and holds the presented
/// credentials against what is on file and against the policy for the protocol.
pub fn authorize(users: &Vec<User>, username: &String, credentials: &Vec<PresentedCredential>, protocol: Protocol) -> (r:
    AuthResult)
    ensures
        r@ == authorize_spec(users@, username@, credentials@, protocol),
{
    match find_user(users, username) {
        None => AuthResult::Rejected,
        Some(i) => authorize_user(&users[i], credentials, protocol),
    }
}

/// The checks of secrets that the engine cannot make itself: they need a
/// hash function or the clock. Nothing is assumed of their answers.
pub trait SecretVerifier {
    /// Whether the password is the one that the stored hash was made from.
    fn verify_password(&self, password: &String, hash: &String) -> bool;

    /// Whether the code is one that the key gives at present.
    fn verify_totp(&self, code: &String, key: &Vec<u8>) -> bool;
}

/// Whether the credential is a secret that only a verifier can check.
pub open spec fn is_secret(c: AuthCredential) -> bool {
    c is Password || c is Otp
}

/// Whether a credential of the same kind as `c` is on file.
pub open spec fn kind_on_file(c: AuthCredential, stored: Seq<UserAuthCredential>) -> bool {
    exists|j: int| 0 <= j < stored.len() && (#[trigger] stored[j]).kind_spec() == c.kind_spec()
}

/// The credentials with what the checks of their secrets found.
pub open spec fn with_checks(credentials: Seq<AuthCredential>, accepted: Seq<bool>) -> Seq<PresentedCredential> {
    Seq::new(
        credentials.len(),
        |i: int| PresentedCredential { credential: credentials[i], secret_accepted: accepted[i] },
    )
}

/// Whether `fits` is an answer that the verifier may give when the
/// presented credential is held against the stored one: for a password and
/// a stored hash, an answer of `verify_password` on the two; for a code and
/// a stored key, an answer of `verify_totp` on the two; for any other pair,
/// which the verifier is not asked about, only `false`.
pub open spec fn may_answer<V: SecretVerifier>(
    verifier: &V,
    credential: AuthCredential,
    stored: UserAuthCredential,
    fits: bool,
) -> bool {
    match (credential, stored) {
        (AuthCredential::Password(p), UserAuthCredential::Password(s)) => call_ensures(
            V::verify_password,
            (verifier, &p.value(), &s.hash.value()),
            fits,
        ),
        (AuthCredential::Otp(code), UserAuthCredential::Totp(s)) => call_ensures(
            V::verify_totp,
            (verifier, &code.value(), &s.key.value()),
            fits,
        ),
        _ => !fits,
    }
}

/// Whether `accepted` is what the check of a presented credential against
/// the stored ones comes to, given the verifier's answers: accepted where
/// the verifier said yes to one stored credential after saying no to all
/// before it, refused where it said no to each.
pub open spec fn secret_check<V: SecretVerifier>(
    verifier: &V,
    credential: AuthCredential,
    stored: Seq<UserAuthCredential>,
    accepted: bool,
) -> bool {
    if accepted {
        exists|j: int|
            {
                &&& 0 <= j < stored.len()
                &&& may_answer(verifier, credential, #[trigger] stored[j], true)
                &&& forall|k: int| 0 <= k < j ==> may_answer(verifier, credential, #[trigger] stored[k], false)
            }
    } else {
        forall|j: int| 0 <= j < stored.len() ==> may_answer(verifier, credential, #[trigger] stored[j], false)
    }
}

/// Asks the verifier whether a presented secret fits one of the stored
/// credentials of its kind, trying them in order until one fits. The secret
/// is accepted where the verifier said yes to one stored credential after
/// saying no to all before it, and refused where it said no to each; for a
/// pair of other kinds the verifier is not asked. So only a secret is
/// accepted, and only where a credential of its kind is on file.
pub fn check_secret<V: SecretVerifier>(verifier: &V, credential: &AuthCredential, stored: &Vec<UserAuthCredential>) -> (r:
    bool)
    ensures
        secret_check(verifier, *credential, stored@, r),
        r ==> is_secret(*credential) && kind_on_file(*credential, stored@),
{
    let mut j: usize = 0;
    while j < stored.len()
        invariant
            j <= stored.len(),
            forall|k: int| 0 <= k < j ==> may_answer(verifier, *credential, #[trigger] stored@[k], false),
        decreases stored.len() - j,
    {
        let fits = match (credential, &stored[j]) {
            (AuthCredential::Password(p), UserAuthCredential::Password(s)) => verifier.verify_password(
                p.expose_secret(),
                s.hash.expose_secret(),
            ),
            (AuthCredential::Otp(code), UserAuthCredential::Totp(s)) => verifier.verify_totp(
                code.expose_secret(),
                s.key.expose_secret(),
            ),
            _ => false,
        };
        assert(may_answer(verifier, *credential, stored@[j as int], fits));
        if fits {
            assert(stored@[j as int].kind_spec() == credential.kind_spec());
            return true;
        }
        j += 1;
    }
    false
}

/// Whether `accepted` holds, for each presented credential, what its check
/// against the credentials of the user of that name comes to, given the
/// verifier's answers. For a name that no user has nothing is checked.
pub open spec fn checked_by<V: SecretVerifier>(
    verifier: &V,
    users: Seq<User>,
    username: Seq<char>,
    credentials: Seq<AuthCredential>,
    accepted: Seq<bool>,
) -> bool {
    user_index(users, username) matches Some(at) ==> forall|i: int|
        0 <= i < credentials.len() ==> secret_check(
            verifier,
            credentials[i],
            users[at].credentials@,
            #[trigger] accepted[i],
        )
}

/// Decides a login from the credentials as they were presented: has the
/// verifier check the secrets among them against what is on file for the
/// user, then decides as `authorize` does. The verdict is the one that
/// `authorize_spec` gives for the outcome of those checks, each of which is
/// what the verifier's answers come to: accepted where it said yes to a
/// stored credential after saying no to all before it, refused where it
/// said no to each. For a name that no user has the verifier is not asked.
pub fn authorize_login<V: SecretVerifier>(
    verifier: &V,
    users: &Vec<User>,
    username: &String,
    credentials: Vec<AuthCredential>,
    protocol: Protocol,
) -> (r: AuthResult)
    ensures
        user_index(users@, username@) is None ==> r@ == AuthResultModel::Rejected,
        exists|accepted: Seq<bool>|
            {
                &&& accepted.len() == credentials@.len()
                &&& forall|i: int|
                    0 <= i < accepted.len() && #[trigger] accepted[i] ==> is_secret(credentials@[i])
                &&& checked_by(verifier, users@, username@, credentials@, accepted)
                &&& r@ == authorize_spec(users@, username@, #[trigger] with_checks(credentials@, accepted), protocol)
            },
        (forall|i: int| 0 <= i < credentials@.len() ==> !is_secret(#[trigger] credentials@[i])) ==> r@
            == authorize_spec(
            users@,
            username@,
            with_checks(credentials@, Seq::new(credentials@.len(), |i: int| false)),
            protocol,
        ),
{
    let ghost all = credentials@;
    match find_user(users, username) {
        None => {
            proof {
                let none = Seq::new(all.len(), |i: int| false);
                assert(checked_by(verifier, users@, username@, all, none));
                assert(authorize_spec(users@, username@, with_checks(all, none), protocol)
                    == AuthResultModel::Rejected);
            }
            AuthResult::Rejected
        },
        Some(at) => {
            let mut rest = credentials;
            let mut presented: Vec<PresentedCredential> = Vec::new();
            let ghost mut accepted: Seq<bool> = Seq::empty();
            while rest.len() > 0
                invariant
                    at < users.len(),
                    accepted.len() == presented@.len(),
                    presented@.len() + rest@.len() == all.len(),
                    forall|k: int|
                        0 <= k < presented@.len() ==> (#[trigger] presented@[k]).credential == all[k]
                            && presented@[k].secret_accepted == accepted[k],
                    forall|k: int| 0 <= k < accepted.len() && #[trigger] accepted[k] ==> is_secret(all[k]),
                    forall|k: int|
                        0 <= k < accepted.len() ==> secret_check(
                            verifier,
                            all[k],
                            users@[at as int].credentials@,
                            #[trigger] accepted[k],
                        ),
                    forall|k: int| 0 <= k < rest@.len() ==> #[trigger] rest@[k] == all[presented@.len() + k],
                decreases rest@.len(),
            {
                let credential = rest.remove(0);
                let ok = check_secret(verifier, &credential, &users[at].credentials);
                proof {
                    accepted = accepted.push(ok);
                }
                presented.push(PresentedCredential { credential, secret_accepted: ok });
            }
            proof {
                assert(presented@ =~= with_checks(all, accepted));
                assert(checked_by(verifier, users@, username@, all, accepted));
                if forall|i: int| 0 <= i < all.len() ==> !is_secret(#[trigger] all[i]) {
                    assert(accepted =~= Seq::new(all.len(), |i: int| false));
                }
            }
            authorize_user(&users[at], &presented, protocol)
        },
    }
}

/// Where the user's policy names no kinds for the protocol, credentials that
/// each prove something on file are accepted, however few: one is enough.
pub proof fn law_any_one_credential_suffices(
    users: Seq<User>,
    username: Seq<char>,
    creds: Seq<PresentedCredential>,
    protocol: Protocol,
)
    requires
        user_index(users, username) is Some,
        required_kinds(users[user_index(users, username).unwrap()], protocol) is None,
        creds.len() >= 1,
        forall|i: int|
            0 <= i < creds.len() ==> verifies(
                #[trigger] creds[i],
                users[user_index(users, username).unwrap()].credentials@,
            ),
    ensures
        authorize_spec(users, username, creds, protocol) == (AuthResultModel::Accepted {
            username: users[user_index(users, username).unwrap()].username@,
        }),
        users[user_index(users, username).unwrap()].username@ == username,
{
    lemma_user_index(users, username, 0);
}

/// Under a policy that asks for a password and a one-time code: a correct
/// password alone is answered with a request for the code; with a correct
/// code beside it the login is accepted; with a wrong code it is rejected.
pub proof fn law_password_then_otp(
    users: Seq<User>,
    username: Seq<char>,
    password: PresentedCredential,
    otp: PresentedCredential,
    protocol: Protocol,
)
    requires
        user_index(users, username) is Some,
        required_kinds(users[user_index(users, username).unwrap()], protocol) == Some(
            seq![CredentialKind::Password, CredentialKind::Otp],
        ),
        password.credential is Password,
        otp.credential is Otp,
        verifies(password, users[user_index(users, username).unwrap()].credentials@),
    ensures
        authorize_spec(users, username, seq![password], protocol) == AuthResultModel::Need(CredentialKind::Otp),
        verifies(otp, users[user_index(users, username).unwrap()].credentials@) ==> authorize_spec(
            users,
            username,
            seq![password, otp],
            protocol,
        ) == (AuthResultModel::Accepted { username }),
        !verifies(otp, users[user_index(users, username).unwrap()].credentials@) ==> authorize_spec(
            users,
            username,
            seq![password, otp],
            protocol,
        ) == AuthResultModel::Rejected,
{
    lemma_user_index(users, username, 0);
    let user = users[user_index(users, username).unwrap()];
    let required = seq![CredentialKind::Password, CredentialKind::Otp];
    let one = seq![password];
    let both = seq![password, otp];
    reveal_with_fuel(first_missing, 3);
    assert(one[0].credential.kind_spec() == CredentialKind::Password);
    assert(presents(one, required[0]));
    assert(!presents(one, required[1]));
    assert(first_missing(required, one, 0) == Some(CredentialKind::Otp));
    assert(both[0].credential.kind_spec() == CredentialKind::Password);
    assert(both[1].credential.kind_spec() == CredentialKind::Otp);
    assert(presents(both, required[0]));
    assert(presents(both, required[1]));
    assert(first_missing(required, both, 0).is_none());
    if !verifies(otp, user.credentials@) {
        assert(!verifies(both[1], user.credentials@));
    }
}

/// A name that no user has is rejected whatever is presented, as a wrong
/// credential is.
pub proof fn law_unknown_user_is_rejected(
    users: Seq<User>,
    username: Seq<char>,
    creds: Seq<PresentedCredential>,
    protocol: Protocol,
)
    requires
        forall|i: int| 0 <= i < users.len() ==> (#[trigger] users[i]).username@ != username,
    ensures
        authorize_spec(users, username, creds, protocol) == AuthResultModel::Rejected,
{
    lemma_user_index(users, username, 0);
}

/// A login is accepted only if something was presented, every presented
/// credential proves something on file, and of each kind that the policy
/// requires one was presented; and a verdict that asks for a kind asks for a
/// required kind of which nothing was presented.
pub proof fn law_verdict_is_sound(user: User, creds: Seq<PresentedCredential>, protocol: Protocol)
    ensures
        verdict_for(user, creds, protocol) is Accepted ==> {
            &&& creds.len() > 0
            &&& forall|i: int| 0 <= i < creds.len() ==> verifies(#[trigger] creds[i], user.credentials@)
            &&& required_kinds(user, protocol) matches Some(required) ==> forall|k: int|
                0 <= k < required.len() ==> presents(creds, #[trigger] required[k])
        },
        verdict_for(user, creds, protocol) matches AuthResultModel::Need(kind) ==> {
            &&& required_kinds(user, protocol) matches Some(required) && required.contains(kind)
            &&& !presents(creds, kind)
        },
{
    if let Some(required) = required_kinds(user, protocol) {
        lemma_first_missing(required, creds, 0);
    }
}

/// What `first_missing` finds from `from` on: nothing only if every kind from
/// there on was presented; else a required kind that was not.
proof fn lemma_first_missing(required: Seq<CredentialKind>, creds: Seq<PresentedCredential>, from: int)
    requires
        0 <= from,
    ensures
        first_missing(required, creds, from) is None ==> forall|k: int|
            from <= k < required.len() ==> presents(creds, #[trigger] required[k]),
        first_missing(required, creds, from) matches Some(kind) ==> required.contains(kind) && !presents(
            creds,
            kind,
        ),
    decreases required.len() - from,
{
    if from < required.len() {
        if presents(creds, required[from]) {
            lemma_first_missing(required, creds, from + 1);
        } else {
            assert(required[from] == required[from]);
        }
    }
}

} // verus!

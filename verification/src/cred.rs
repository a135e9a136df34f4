use crate::secret::Secret;
use vstd::prelude::*;

verus! {

/// The category of a proof of identity.
#[derive(Debug, Clone, Copy, PartialEq, Eq, Hash, Structural)]
pub enum CredentialKind {
    Password,
    PublicKey,
    Otp,
    Sso,
}

impl CredentialKind {
    /// The stable tag under which the kind is stored and sent.
    pub open spec fn tag_spec(self) -> Seq<char> {
        match self {
            CredentialKind::Password => "password"@,
            CredentialKind::PublicKey => "publickey"@,
            CredentialKind::Otp => "otp"@,
            CredentialKind::Sso => "sso"@,
        }
    }

    pub fn tag(&self) -> (r: &'static str)
        ensures
            r@ == self.tag_spec(),
    {
        match self {
            CredentialKind::Password => "password",
            CredentialKind::PublicKey => "publickey",
            CredentialKind::Otp => "otp",
            CredentialKind::Sso => "sso",
        }
    }
}

/// A credential as it is presented at login time.
#[derive(Clone, PartialEq, Eq)]
pub enum AuthCredential {
    Otp(Secret<String>),
    Password(Secret<String>),
    PublicKey { kind: String, public_key_bytes: Vec<u8> },
    Sso { provider: String, email: String },
}

impl AuthCredential {
    pub open spec fn kind_spec(self) -> CredentialKind {
        match self {
            AuthCredential::Password(_) => CredentialKind::Password,
            AuthCredential::PublicKey { .. } => CredentialKind::PublicKey,
            AuthCredential::Otp(_) => CredentialKind::Otp,
            AuthCredential::Sso { .. } => CredentialKind::Sso,
        }
    }

    pub fn kind(&self) -> (r: CredentialKind)
        ensures
            r == self.kind_spec(),
    {
        match self {
            AuthCredential::Password(_) => CredentialKind::Password,
            AuthCredential::PublicKey { .. } => CredentialKind::PublicKey,
            AuthCredential::Otp(_) => CredentialKind::Otp,
            AuthCredential::Sso { .. } => CredentialKind::Sso,
        }
    }
}

} // verus!

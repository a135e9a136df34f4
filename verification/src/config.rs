use crate::cred::CredentialKind;
use crate::secret::Secret;
use crate::text::push_str;
use crate::web_address::{
    parse_url, parsed_url, set_port, set_scheme, url_with_port, url_with_scheme, URL_TEXT_LIMIT,
};
use vstd::string::StrSliceExecFns;
use vstd::prelude::*;

verus! {

/// The key from which one-time codes are derived.
pub type OtpSecretKey = Secret<Vec<u8>>;

/// A credential as it is registered for a user.
#[derive(Clone, PartialEq, Eq)]
pub enum UserAuthCredential {
    Password(UserPasswordCredential),
    PublicKey(UserPublicKeyCredential),
    Totp(UserTotpCredential),
    Sso(UserSsoCredential),
}

#[derive(Clone, PartialEq, Eq)]
pub struct UserPasswordCredential {
    pub hash: Secret<String>,
}

#[derive(Clone, PartialEq, Eq)]
pub struct UserPublicKeyCredential {
    /// The key in its one-line text form: algorithm, a space, base64 of the bytes.
    pub key: Secret<String>,
}

#[derive(Clone, PartialEq, Eq)]
pub struct UserTotpCredential {
    pub key: OtpSecretKey,
}

#[derive(Debug, Clone, PartialEq, Eq)]
pub struct UserSsoCredential {
    pub provider: Option<String>,
    pub email: String,
}

impl UserAuthCredential {
    pub open spec fn kind_spec(self) -> CredentialKind {
        match self {
            UserAuthCredential::Password(_) => CredentialKind::Password,
            UserAuthCredential::PublicKey(_) => CredentialKind::PublicKey,
            UserAuthCredential::Totp(_) => CredentialKind::Otp,
            UserAuthCredential::Sso(_) => CredentialKind::Sso,
        }
    }

    pub fn kind(&self) -> (r: CredentialKind)
        ensures
            r == self.kind_spec(),
    {
        match self {
            UserAuthCredential::Password(_) => CredentialKind::Password,
            UserAuthCredential::PublicKey(_) => CredentialKind::PublicKey,
            UserAuthCredential::Totp(_) => CredentialKind::Otp,
            UserAuthCredential::Sso(_) => CredentialKind::Sso,
        }
    }
}

/// For each protocol, the kinds of credential that a login must prove; `None`
/// where any one registered credential is enough.
#[derive(Clone, PartialEq, Eq)]
pub struct UserRequireCredentialsPolicy {
    pub http: Option<Vec<CredentialKind>>,
    pub ssh: Option<Vec<CredentialKind>>,
    pub mysql: Option<Vec<CredentialKind>>,
}

impl Default for UserRequireCredentialsPolicy {
    fn default() -> (r: Self)
        ensures
            r.http.is_none(),
            r.ssh.is_none(),
            r.mysql.is_none(),
    {
        UserRequireCredentialsPolicy { http: None, ssh: None, mysql: None }
    }
}

#[derive(Clone, PartialEq, Eq)]
pub struct User {
    pub id: u128,
    pub username: String,
    pub credentials: Vec<UserAuthCredential>,
    pub credential_policy: Option<UserRequireCredentialsPolicy>,
    pub roles: Vec<String>,
}

#[derive(Debug, Clone, PartialEq, Eq)]
pub struct Role {
    pub id: u128,
    pub name: String,
}

/// What to do with the key of a host that is not on file.
#[derive(Debug, Clone, Copy, PartialEq, Eq, Structural)]
pub enum SshHostKeyVerificationMode {
    Prompt,
    AutoAccept,
    AutoReject,
}

impl Default for SshHostKeyVerificationMode {
    fn default() -> (r: Self)
        ensures
            r == SshHostKeyVerificationMode::Prompt,
    {
        SshHostKeyVerificationMode::Prompt
    }
}

/// An address to listen on.
#[derive(Debug, Clone, PartialEq, Eq)]
pub struct ListenEndpoint {
    pub host: String,
    pub port: u16,
}

impl ListenEndpoint {
    pub fn port(&self) -> (p: u16)
        ensures
            p == self.port,
    {
        self.port
    }
}

#[derive(Debug, Clone)]
pub struct SSHConfig {
    pub enable: bool,
    pub listen: ListenEndpoint,
    pub keys: String,
    pub host_key_verification: SshHostKeyVerificationMode,
}

impl Default for SSHConfig {
    fn default() -> (r: Self)
        ensures
            !r.enable,
            r.listen.host@ == "0.0.0.0"@,
            r.listen.port == 2222,
            r.keys@ == "./data/keys"@,
            r.host_key_verification == SshHostKeyVerificationMode::Prompt,
    {
        SSHConfig {
            enable: false,
            listen: ListenEndpoint { host: "0.0.0.0".to_owned(), port: 2222 },
            keys: "./data/keys".to_owned(),
            host_key_verification: SshHostKeyVerificationMode::Prompt,
        }
    }
}

#[derive(Debug, Clone)]
pub struct HTTPConfig {
    pub enable: bool,
    pub listen: ListenEndpoint,
    pub certificate: String,
    pub key: String,
    pub trust_x_forwarded_for: bool,
}

impl Default for HTTPConfig {
    fn default() -> (r: Self)
        ensures
            !r.enable,
            r.listen.host@ == "0.0.0.0"@,
            r.listen.port == 8888,
            r.certificate@ == Seq::<char>::empty(),
            r.key@ == Seq::<char>::empty(),
            !r.trust_x_forwarded_for,
    {
        HTTPConfig {
            enable: false,
            listen: ListenEndpoint { host: "0.0.0.0".to_owned(), port: 8888 },
            certificate: String::new(),
            key: String::new(),
            trust_x_forwarded_for: false,
        }
    }
}

#[derive(Debug, Clone)]
pub struct MySQLConfig {
    pub enable: bool,
    pub listen: ListenEndpoint,
    pub certificate: String,
    pub key: String,
}

impl Default for MySQLConfig {
    fn default() -> (r: Self)
        ensures
            !r.enable,
            r.listen.host@ == "0.0.0.0"@,
            r.listen.port == 33306,
            r.certificate@ == Seq::<char>::empty(),
            r.key@ == Seq::<char>::empty(),
    {
        MySQLConfig {
            enable: false,
            listen: ListenEndpoint { host: "0.0.0.0".to_owned(), port: 33306 },
            certificate: String::new(),
            key: String::new(),
        }
    }
}

#[derive(Debug, Clone)]
pub struct RecordingsConfig {
    pub enable: bool,
    pub path: String,
}

impl Default for RecordingsConfig {
    fn default() -> (r: Self)
        ensures
            !r.enable,
            r.path@ == "./data/recordings"@,
    {
        RecordingsConfig { enable: false, path: "./data/recordings".to_owned() }
    }
}

/// Seconds in a week: how long log entries are kept unless configured.
pub const DEFAULT_LOG_RETENTION_SECS: u64 = 604800;

#[derive(Debug, Clone)]
pub struct LogConfig {
    /// How long log entries are kept, in seconds.
    pub retention: u64,
    pub send_to: Option<String>,
}

impl Default for LogConfig {
    fn default() -> (r: Self)
        ensures
            r.retention == DEFAULT_LOG_RETENTION_SECS,
            r.send_to.is_none(),
    {
        LogConfig { retention: DEFAULT_LOG_RETENTION_SECS, send_to: None }
    }
}

#[derive(Debug, Clone, Copy, PartialEq, Eq, Structural)]
pub enum ConfigProviderKind {
    File,
    Database,
}

impl Default for ConfigProviderKind {
    fn default() -> (r: Self)
        ensures
            r == ConfigProviderKind::Database,
    {
        ConfigProviderKind::Database
    }
}

/// How to reach a target over SSH.
#[derive(Debug, Clone, PartialEq, Eq)]
pub struct TargetSSHOptions {
    pub host: String,
    pub port: u16,
    pub username: String,
}

/// A destination that sessions are proxied to.
#[derive(Debug, Clone, PartialEq, Eq)]
pub struct Target {
    pub name: String,
    pub allow_roles: Vec<String>,
    pub ssh: Option<TargetSSHOptions>,
}

/// A single-sign-on provider, by the name that credentials refer to.
#[derive(Debug, Clone, PartialEq, Eq)]
pub struct SsoProviderConfig {
    pub name: String,
}

#[derive(Clone)]
pub struct WarpgateConfigStore {
    pub targets: Vec<Target>,
    pub users: Vec<User>,
    pub roles: Vec<Role>,
    pub sso_providers: Vec<SsoProviderConfig>,
    pub recordings: RecordingsConfig,
    pub external_host: Option<String>,
    pub database_url: Secret<String>,
    pub ssh: SSHConfig,
    pub http: HTTPConfig,
    pub mysql: MySQLConfig,
    pub log: LogConfig,
    pub config_provider: ConfigProviderKind,
}

impl Default for WarpgateConfigStore {
    fn default() -> (r: Self)
        ensures
            r.targets@.len() == 0,
            r.users@.len() == 0,
            r.roles@.len() == 0,
            r.sso_providers@.len() == 0,
            !r.recordings.enable,
            r.recordings.path@ == "./data/recordings"@,
            r.external_host.is_none(),
            r.database_url.value()@ == "sqlite:data/db"@,
            !r.ssh.enable,
            r.ssh.listen.host@ == "0.0.0.0"@,
            r.ssh.listen.port == 2222,
            r.ssh.keys@ == "./data/keys"@,
            r.ssh.host_key_verification == SshHostKeyVerificationMode::Prompt,
            !r.http.enable,
            r.http.listen.host@ == "0.0.0.0"@,
            r.http.listen.port == 8888,
            r.http.certificate@ == Seq::<char>::empty(),
            r.http.key@ == Seq::<char>::empty(),
            !r.http.trust_x_forwarded_for,
            !r.mysql.enable,
            r.mysql.listen.host@ == "0.0.0.0"@,
            r.mysql.listen.port == 33306,
            r.mysql.certificate@ == Seq::<char>::empty(),
            r.mysql.key@ == Seq::<char>::empty(),
            r.log.retention == DEFAULT_LOG_RETENTION_SECS,
            r.log.send_to.is_none(),
            r.config_provider == ConfigProviderKind::Database,
    {
        WarpgateConfigStore {
            targets: Vec::new(),
            users: Vec::new(),
            roles: Vec::new(),
            sso_providers: Vec::new(),
            recordings: RecordingsConfig::default(),
            external_host: None,
            database_url: Secret::new("sqlite:data/db".to_owned()),
            ssh: SSHConfig::default(),
            http: HTTPConfig::default(),
            mysql: MySQLConfig::default(),
            log: LogConfig::default(),
            config_provider: ConfigProviderKind::Database,
        }
    }
}

#[derive(Clone)]
pub struct WarpgateConfig {
    pub store: WarpgateConfigStore,
    pub paths_relative_to: String,
}

pub enum WarpgateError {
    /// No request names a host and none is configured.
    ExternalHostNotSet,
    UrlParse(url::ParseError),
}

/// The port on which `https` is served unless a URL says otherwise.
pub const HTTPS_PORT: u16 = 443;

/// The address of the root of `host` over `https`, as text to parse.
pub open spec fn https_root(host: Seq<char>) -> Seq<char> {
    "https://"@ + host + "/"@
}

/// The URL under which the gateway is reached from outside, `None` where it
/// cannot be told or does not parse. A request's `Host` header decides, with
/// the scheme that a proxy in front reports; without a request the
/// configured host does, with the port of the HTTP listener unless that is
/// the port of `https`.
pub open spec fn external_url_spec(
    host_header: Option<Seq<char>>,
    forwarded_proto: Option<Seq<char>>,
    external_host: Option<Seq<char>>,
    port: u16,
) -> Option<Seq<char>> {
    match host_header {
        Some(host) => match parsed_url(https_root(host)) {
            None => None,
            Some(u) => match forwarded_proto {
                Some(scheme) => Some(url_with_scheme(u, scheme)),
                None => Some(u),
            },
        },
        None => match external_host {
            None => None,
            Some(host) => match parsed_url(https_root(host)) {
                None => None,
                Some(u) => if port != HTTPS_PORT {
                    Some(url_with_port(u, port))
                } else {
                    Some(u)
                },
            },
        },
    }
}

pub open spec fn text_of(s: Option<&String>) -> Option<Seq<char>> {
    match s {
        Some(t) => Some(t@),
        None => None,
    }
}

/// Whether the URL of the root of `host`, if it parses, is short enough for
/// a scheme or a port to be set on it.
pub open spec fn root_url_fits(host: Seq<char>) -> bool {
    match parsed_url(https_root(host)) {
        Some(u) => u.len() < URL_TEXT_LIMIT,
        None => true,
    }
}

/// Whether the external URL can be made within the limits of URL texts:
/// where a scheme is to be set, the scheme and the URL of the `Host` header
/// are short enough; where a port is to be set, the URL of the configured
/// host is.
pub open spec fn external_url_in_reach(
    host_header: Option<Seq<char>>,
    forwarded_proto: Option<Seq<char>>,
    external_host: Option<Seq<char>>,
    port: u16,
) -> bool {
    match host_header {
        Some(host) => match forwarded_proto {
            Some(scheme) => scheme.len() < URL_TEXT_LIMIT && root_url_fits(host),
            None => true,
        },
        None => match external_host {
            Some(host) => port == HTTPS_PORT || root_url_fits(host),
            None => true,
        },
    }
}

/// The text of the root of `host` over `https`.
fn https_root_text(host: &String) -> (r: String)
    ensures
        r@ == https_root(host@),
{
    let mut text = "https://".to_owned();
    push_str(&mut text, host.as_str());
    push_str(&mut text, "/");
    text
}

/// Whether the URL of the root of `host`, if it parses, is short enough.
fn root_fits(host: &String) -> (r: bool)
    ensures
        r == root_url_fits(host@),
{
    let text = https_root_text(host);
    match parse_url(text.as_str()) {
        Err(_) => true,
        Ok(u) => u.as_str().unicode_len() < URL_TEXT_LIMIT,
    }
}

impl WarpgateConfig {
    pub open spec fn external_host_text(self) -> Option<Seq<char>> {
        match self.store.external_host {
            Some(t) => Some(t@),
            None => None,
        }
    }

    /// Whether `construct_external_url` can be called for these headers.
    pub fn external_url_is_in_reach(&self, host_header: Option<&String>, forwarded_proto: Option<&String>) -> (r:
        bool)
        ensures
            r == external_url_in_reach(
                text_of(host_header),
                text_of(forwarded_proto),
                self.external_host_text(),
                self.store.http.listen.port,
            ),
    {
        match host_header {
            Some(host) => match forwarded_proto {
                Some(scheme) => scheme.as_str().unicode_len() < URL_TEXT_LIMIT && root_fits(host),
                None => true,
            },
            None => match &self.store.external_host {
                Some(host) => self.store.http.listen.port() == HTTPS_PORT || root_fits(host),
                None => true,
            },
        }
    }

    /// The external URL where it can be made within the limits of URL
    /// texts, as `construct_external_url` gives it; `None` where a scheme or
    /// a URL is too long for that.
    pub fn try_construct_external_url(&self, host_header: Option<&String>, forwarded_proto: Option<&String>) -> (r:
        Option<Result<String, WarpgateError>>)
        ensures
            r is Some <==> external_url_in_reach(
                text_of(host_header),
                text_of(forwarded_proto),
                self.external_host_text(),
                self.store.http.listen.port,
            ),
            r matches Some(made) ==> {
                &&& match external_url_spec(
                    text_of(host_header),
                    text_of(forwarded_proto),
                    self.external_host_text(),
                    self.store.http.listen.port,
                ) {
                    Some(u) => made matches Ok(s) && s@ == u,
                    None => made is Err,
                }
                &&& made matches Err(e) ==> (e is ExternalHostNotSet <==> host_header is None
                    && self.store.external_host is None)
            },
    {
        if self.external_url_is_in_reach(host_header, forwarded_proto) {
            Some(self.construct_external_url(host_header, forwarded_proto))
        } else {
            None
        }
    }

    /// The URL under which the gateway is reached from outside, for a
    /// request with these `Host` and `X-Forwarded-Proto` headers, or for
    /// none: see `external_url_spec`. A reported scheme is read only beside
    /// a `Host` header. The texts have to be within the limits of URL texts;
    /// `try_construct_external_url` tests that first.
    pub fn construct_external_url(&self, host_header: Option<&String>, forwarded_proto: Option<&String>) -> (r:
        Result<String, WarpgateError>)
        requires
            external_url_in_reach(
                text_of(host_header),
                text_of(forwarded_proto),
                self.external_host_text(),
                self.store.http.listen.port,
            ),
        ensures
            match external_url_spec(
                text_of(host_header),
                text_of(forwarded_proto),
                self.external_host_text(),
                self.store.http.listen.port,
            ) {
                Some(u) => r matches Ok(s) && s@ == u,
                None => r is Err,
            },
            r matches Err(e) ==> (e is ExternalHostNotSet <==> host_header is None && self.store.external_host
                is None),
    {
        if let Some(host) = host_header {
            let text = https_root_text(host);
            match parse_url(text.as_str()) {
                Err(e) => Err(WarpgateError::UrlParse(e)),
                Ok(u) => {
                    if let Some(scheme) = forwarded_proto {
                        Ok(set_scheme(u, scheme.as_str()))
                    } else {
                        Ok(u)
                    }
                },
            }
        } else {
            match &self.store.external_host {
                None => Err(WarpgateError::ExternalHostNotSet),
                Some(host) => {
                    let text = https_root_text(host);
                    match parse_url(text.as_str()) {
                        Err(e) => Err(WarpgateError::UrlParse(e)),
                        Ok(u) => {
                            let port = self.store.http.listen.port();
                            if port != HTTPS_PORT {
                                Ok(set_port(u, port))
                            } else {
                                Ok(u)
                            }
                        },
                    }
                },
            }
        }
    }
}

} // verus!

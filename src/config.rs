//! Process-wide settings, loaded once at startup.

use vstd::prelude::*;

verus! {

#[derive(Debug)]
pub struct AppConfig {
    pub general: GeneralConfig,
    pub auth: AuthConfig,
    pub smtp: Option<EmailConfig>,
}

#[derive(Debug)]
pub struct GeneralConfig {
    pub listen_ip: Option<String>,
    pub listen_port: Option<u16>,
    /// The service's public origin, from which the SSO redirect target is derived.
    pub public_url: String,
    pub database_url: Option<String>,
}

#[derive(Debug)]
pub struct AuthConfig {
    pub disable_registration: bool,
    pub oidc: Option<OidcConfig>,
}

#[derive(Debug, Clone)]
pub struct OidcConfig {
    pub enabled: bool,
    pub issuer_url: String,
    pub client_id: String,
    pub client_secret: String,
    /// The scopes requested from the provider.
    pub claims: Vec<String>,
    /// Whether a first SSO login may provision a new local account.
    pub create_account: bool,
    pub disable_normal_login: bool,
}

#[derive(Debug, Clone, Copy, PartialEq, Eq)]
pub enum SmtpEncryption {
    /// No transport security.
    Plain,
    StartTls,
    Tls,
}

#[derive(Debug)]
pub struct EmailConfig {
    pub enabled: bool,
    pub hostname: String,
    pub port: u16,
    pub username: String,
    pub password: String,
    pub tls: Option<SmtpEncryption>,
    pub from_name: Option<String>,
    pub from_email: Option<String>,
}

impl OidcConfig {
    /// The issuer and the client's identity are all given.
    pub open spec fn is_complete(&self) -> bool {
        self.issuer_url@.len() > 0 && self.client_id@.len() > 0 && self.client_secret@.len() > 0
    }
}

impl AuthConfig {
    pub open spec fn spec_oidc_enabled(&self) -> bool {
        match self.oidc {
            Some(o) => o.enabled,
            None => false,
        }
    }

    /// Whether an OIDC section is present and switched on.
    pub fn oidc_enabled(&self) -> (r: bool)
        ensures
            r == self.spec_oidc_enabled(),
    {
        match &self.oidc {
            Some(o) => o.enabled,
            None => false,
        }
    }
}

} // verus!

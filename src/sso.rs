//! The SSO manager: starting an OpenID Connect authorization-code flow with PKCE and
//! deciding each step of its callback.

use vstd::prelude::*;
use vstd::string::*;
use crate::config::{AppConfig, OidcConfig};
use crate::identity::ExternalIdentity;
use crate::pending::{PendingAuthCache, SSOSessionData, PENDING_CAPACITY, PENDING_TTL_SECS};

verus! {

/// Why a flow, or the SSO setup, failed.
#[derive(Debug, Clone, Copy, PartialEq, Eq, Structural)]
pub enum SsoError {
    ConfigurationError,
    FlowExpiredOrUnknown,
    CsrfMismatch,
    CodeExchangeFailed,
    MissingIdentityToken,
    InvalidIdentityToken,
    AccessTokenMismatch,
    UserInfoFetchFailed,
    MissingRequiredClaim,
    AccountCreationDisabled,
    PersistenceError,
}

/// A development egress proxy; certificate checks are skipped only when asked for.
#[derive(Debug, Clone)]
pub struct HttpProxySettings {
    pub url: String,
    pub disable_cert_check: bool,
}

#[verifier::external_type_specification]
#[verifier::external_body]
pub struct ExPkceCodeChallenge(openidconnect::PkceCodeChallenge);

/// The S256 code challenge of a PKCE verifier: its SHA-256 digest in unpadded base64url.
pub uninterp spec fn pkce_s256(verifier: Seq<char>) -> Seq<char>;

/// A fresh PKCE pair: the challenge to send, its text, and the verifier to keep.
pub struct PkcePair {
    pub challenge: openidconnect::PkceCodeChallenge,
    pub challenge_text: String,
    pub verifier: String,
}

/// Relies on openidconnect's `PkceCodeChallenge::new_random_sha256`: the verifier is 32
/// random bytes in unpadded base64url (43 characters), and the challenge, whose text
/// `as_str` gives, is made by `from_code_verifier_sha256` from it (43 characters).
#[verifier::external_body]
fn new_pkce_pair() -> (r: PkcePair)
    ensures
        r.verifier@.len() == 43,
        r.challenge_text@ == pkce_s256(r.verifier@),
        r.challenge_text@.len() == 43,
{
    let (challenge, verifier) = openidconnect::PkceCodeChallenge::new_random_sha256();
    let challenge_text = challenge.as_str().to_string();
    PkcePair { challenge, challenge_text, verifier: verifier.into_secret() }
}

/// Relies on openidconnect's `CsrfToken::new_random`: 16 random bytes in unpadded
/// base64url, 22 characters.
#[verifier::external_body]
fn new_csrf_token() -> (r: String)
    ensures
        r@.len() == 22,
{
    openidconnect::CsrfToken::new_random().into_secret()
}

/// Relies on openidconnect's `Nonce::new_random`: 16 random bytes in unpadded base64url,
/// 22 characters.
#[verifier::external_body]
fn new_nonce() -> (r: String)
    ensures
        r@.len() == 22,
{
    openidconnect::Nonce::new_random().secret().clone()
}

/// Whether openidconnect accepts the text as an issuer URL.
pub uninterp spec fn issuer_url_parses(s: Seq<char>) -> bool;

/// Whether openidconnect accepts the text as a redirect URL.
pub uninterp spec fn redirect_url_parses(s: Seq<char>) -> bool;

/// Relies on openidconnect's `IssuerUrl::new`, which parses the text as a URL; the
/// outcome depends on the text alone.
#[verifier::external_body]
fn issuer_url_valid(s: &String) -> (r: bool)
    ensures
        r == issuer_url_parses(s@),
{
    openidconnect::IssuerUrl::new(s.clone()).is_ok()
}

/// Relies on openidconnect's `RedirectUrl::new`, which parses the text as a URL; the
/// outcome depends on the text alone.
#[verifier::external_body]
fn redirect_url_valid(s: &String) -> (r: bool)
    ensures
        r == redirect_url_parses(s@),
{
    openidconnect::RedirectUrl::new(s.clone()).is_ok()
}

/// What the user agent is sent to the provider with when a flow starts.
pub struct FlowStart {
    pub pkce_challenge: openidconnect::PkceCodeChallenge,
    /// The text of `pkce_challenge`.
    pub code_challenge: String,
    /// The anti-forgery token, sent as the `state` parameter.
    pub csrf_token: String,
    pub nonce: String,
}

/// Where a callback's flow stands.
#[derive(Debug, Clone, Copy, PartialEq, Eq, Structural)]
pub enum CallbackStage {
    ExchangingCode,
    FetchingUserInfo,
    Completed,
    Failed,
}

/// The outside work a callback asks for next, or how it ended.
#[derive(Debug, Clone)]
pub enum CallbackAction {
    /// Exchange the authorization code, sending the stored PKCE verifier.
    ExchangeCode { code: String, pkce_verifier: String },
    /// Fetch the provider's user info with the access token.
    FetchUserInfo { access_token: String },
    /// The flow completed; `return_to` is the target stored when it started.
    Finish { identity: ExternalIdentity, return_to: Option<String> },
    /// The flow failed; nothing of the identity is handed out.
    Abort(SsoError),
}

/// What the identity-token check found. Signature, issuer, audience and expiry are
/// checked by the protocol client; the nonce and the access-token hash are decided here.
#[derive(Debug, Clone)]
pub struct IdTokenReport {
    pub signature_valid: bool,
    /// The token's nonce claim.
    pub nonce: Option<String>,
    /// The token's access-token-hash claim.
    pub access_token_hash: Option<String>,
    /// The hash of the received access token under the token's signing algorithm, if
    /// it could be computed.
    pub recomputed_hash: Option<String>,
}

/// The result of the code exchange.
#[derive(Debug, Clone)]
pub enum TokenOutcome {
    Failed,
    Received { access_token: String, id_token: Option<IdTokenReport> },
}

/// The result of the user-info fetch.
#[derive(Debug, Clone)]
pub enum UserInfoOutcome {
    Failed,
    Received(ExternalIdentity),
}

/// A callback in progress, after its pending session was taken.
#[derive(Debug, Clone)]
pub struct CallbackFlow {
    pub stage: CallbackStage,
    pub nonce: String,
    pub return_to: Option<String>,
}

/// The pending session that a callback at `now` can use under `key`.
pub open spec fn lookup(pending: Map<u128, SSOSessionData>, key: u128, now: u64, ttl: u64) -> Option<SSOSessionData> {
    if pending.contains_key(key) && !pending[key].expired_at(now, ttl) {
        Some(pending[key])
    } else {
        None
    }
}

/// The first step of a callback, given the pending session found for it.
pub open spec fn start_action(found: Option<SSOSessionData>, code: String, state: Seq<char>) -> CallbackAction {
    match found {
        None => CallbackAction::Abort(SsoError::FlowExpiredOrUnknown),
        Some(s) => if s.csrf_token@ == state {
            CallbackAction::ExchangeCode { code, pkce_verifier: s.pkce_challenge }
        } else {
            CallbackAction::Abort(SsoError::CsrfMismatch)
        },
    }
}

/// The step after the code exchange, for a flow that stored `nonce`.
pub open spec fn token_action(nonce: Seq<char>, outcome: TokenOutcome) -> CallbackAction {
    match outcome {
        TokenOutcome::Failed => CallbackAction::Abort(SsoError::CodeExchangeFailed),
        TokenOutcome::Received { access_token, id_token } => match id_token {
            None => CallbackAction::Abort(SsoError::MissingIdentityToken),
            Some(rep) => if !rep.signature_valid || !(rep.nonce matches Some(n) && n@ == nonce) {
                CallbackAction::Abort(SsoError::InvalidIdentityToken)
            } else {
                match rep.access_token_hash {
                    None => CallbackAction::FetchUserInfo { access_token },
                    Some(expected) => match rep.recomputed_hash {
                        None => CallbackAction::Abort(SsoError::InvalidIdentityToken),
                        Some(actual) => if actual@ == expected@ {
                            CallbackAction::FetchUserInfo { access_token }
                        } else {
                            CallbackAction::Abort(SsoError::AccessTokenMismatch)
                        },
                    },
                }
            },
        },
    }
}

/// The step after the user-info fetch.
pub open spec fn user_info_action(return_to: Option<String>, outcome: UserInfoOutcome) -> CallbackAction {
    match outcome {
        UserInfoOutcome::Failed => CallbackAction::Abort(SsoError::UserInfoFetchFailed),
        UserInfoOutcome::Received(identity) => CallbackAction::Finish { identity, return_to },
    }
}

/// The stage a flow moves to on `action`.
pub open spec fn stage_after(action: CallbackAction) -> CallbackStage {
    match action {
        CallbackAction::ExchangeCode { .. } => CallbackStage::ExchangingCode,
        CallbackAction::FetchUserInfo { .. } => CallbackStage::FetchingUserInfo,
        CallbackAction::Finish { .. } => CallbackStage::Completed,
        CallbackAction::Abort(_) => CallbackStage::Failed,
    }
}

fn same_text(a: &Option<String>, b: &String) -> (r: bool)
    ensures
        r == (a matches Some(x) && x@ == b@),
{
    match a {
        Some(x) => x.eq(b),
        None => false,
    }
}

/// Checks a callback against the pending session found for it: there must be one, and
/// the callback's `state` must equal its anti-forgery token exactly.
pub fn check_callback(found: Option<SSOSessionData>, code: String, state: &String) -> (r: CallbackAction)
    ensures
        r == start_action(found, code, state@),
{
    match found {
        None => CallbackAction::Abort(SsoError::FlowExpiredOrUnknown),
        Some(s) => {
            if s.csrf_token.eq(state) {
                CallbackAction::ExchangeCode { code, pkce_verifier: s.pkce_challenge }
            } else {
                CallbackAction::Abort(SsoError::CsrfMismatch)
            }
        },
    }
}

impl CallbackFlow {
    /// Decides on the code exchange's result: an identity token is required, valid and
    /// carrying the stored nonce; an access-token-hash claim must equal the recomputed hash.
    pub fn on_tokens(&mut self, outcome: TokenOutcome) -> (r: CallbackAction)
        requires
            old(self).stage == CallbackStage::ExchangingCode,
        ensures
            r == token_action(old(self).nonce@, outcome),
            final(self).stage == stage_after(r),
            final(self).nonce == old(self).nonce,
            final(self).return_to == old(self).return_to,
    {
        let r = match outcome {
            TokenOutcome::Failed => CallbackAction::Abort(SsoError::CodeExchangeFailed),
            TokenOutcome::Received { access_token, id_token } => match id_token {
                None => CallbackAction::Abort(SsoError::MissingIdentityToken),
                Some(rep) => {
                    if !rep.signature_valid || !same_text(&rep.nonce, &self.nonce) {
                        CallbackAction::Abort(SsoError::InvalidIdentityToken)
                    } else {
                        match rep.access_token_hash {
                            None => CallbackAction::FetchUserInfo { access_token },
                            Some(expected) => {
                                if same_text(&rep.recomputed_hash, &expected) {
                                    CallbackAction::FetchUserInfo { access_token }
                                } else if rep.recomputed_hash.is_none() {
                                    CallbackAction::Abort(SsoError::InvalidIdentityToken)
                                } else {
                                    CallbackAction::Abort(SsoError::AccessTokenMismatch)
                                }
                            },
                        }
                    }
                },
            },
        };
        self.stage = match &r {
            CallbackAction::FetchUserInfo { .. } => CallbackStage::FetchingUserInfo,
            _ => CallbackStage::Failed,
        };
        r
    }

    /// Decides on the user-info fetch: its identity completes the flow.
    pub fn on_user_info(&mut self, outcome: UserInfoOutcome) -> (r: CallbackAction)
        requires
            old(self).stage == CallbackStage::FetchingUserInfo,
        ensures
            r == user_info_action(old(self).return_to, outcome),
            final(self).stage == stage_after(r),
            final(self).nonce == old(self).nonce,
            final(self).return_to == old(self).return_to,
    {
        match outcome {
            UserInfoOutcome::Failed => {
                self.stage = CallbackStage::Failed;
                CallbackAction::Abort(SsoError::UserInfoFetchFailed)
            },
            UserInfoOutcome::Received(identity) => {
                self.stage = CallbackStage::Completed;
                CallbackAction::Finish { identity, return_to: self.return_to.clone() }
            },
        }
    }
}

/// Where the user agent goes after a successful login: the stored target, else the
/// application root.
pub fn redirect_target(return_to: Option<String>) -> (r: String)
    ensures
        return_to matches Some(t) ==> r == t,
        return_to is None ==> r@ == "/"@,
{
    match return_to {
        Some(t) => t,
        None => "/".to_owned(),
    }
}

/// The SSO manager: the provider settings and the pending-flow cache it owns.
pub struct SSO {
    issuer_url: String,
    client_id: String,
    client_secret: Option<String>,
    public_url: String,
    scopes: Vec<String>,
    create_account: bool,
    cache: PendingAuthCache,
}

/// Whether `config` holds a usable OIDC section: complete, with an issuer and a
/// callback address that parse as URLs.
pub open spec fn sso_configured(config: &AppConfig) -> bool {
    &&& config.auth.oidc matches Some(o) && o.is_complete() && issuer_url_parses(o.issuer_url@)
    &&& redirect_url_parses(config.general.public_url@ + "/auth/sso/cb"@)
}

impl SSO {
    /// The flows waiting for their callback, by correlation key.
    pub closed spec fn pending(&self) -> Map<u128, SSOSessionData> {
        self.cache.entries()
    }

    /// Seconds a pending flow stays reachable.
    pub closed spec fn ttl(&self) -> u64 {
        self.cache.ttl()
    }

    /// The number of pending flows kept at most.
    pub closed spec fn capacity(&self) -> u64 {
        self.cache.capacity()
    }

    pub closed spec fn spec_issuer_url(&self) -> Seq<char> {
        self.issuer_url@
    }

    pub closed spec fn spec_client_id(&self) -> Seq<char> {
        self.client_id@
    }

    pub closed spec fn spec_client_secret(&self) -> Option<String> {
        self.client_secret
    }

    pub closed spec fn spec_public_url(&self) -> Seq<char> {
        self.public_url@
    }

    pub closed spec fn spec_scopes(&self) -> Seq<String> {
        self.scopes@
    }

    pub closed spec fn spec_create_account(&self) -> bool {
        self.create_account
    }

    /// Builds the manager from the startup configuration; a missing or incomplete OIDC
    /// section, or an issuer or callback address that is no URL, is a configuration error.
    pub fn create(config: &AppConfig) -> (r: Result<SSO, SsoError>)
        ensures
            r is Err <==> !sso_configured(config),
            r matches Err(e) ==> e == SsoError::ConfigurationError,
            r matches Ok(sso) ==> {
                let o = config.auth.oidc->0;
                &&& sso.pending().dom() == Set::<u128>::empty()
                &&& sso.ttl() == PENDING_TTL_SECS
                &&& sso.capacity() == PENDING_CAPACITY
                &&& sso.spec_issuer_url() == o.issuer_url@
                &&& sso.spec_client_id() == o.client_id@
                &&& sso.spec_client_secret() == Some(o.client_secret)
                &&& sso.spec_public_url() == config.general.public_url@
                &&& sso.spec_scopes() == o.claims@
                &&& sso.spec_create_account() == o.create_account
            },
    {
        let o: &OidcConfig = match &config.auth.oidc {
            Some(o) => o,
            None => return Err(SsoError::ConfigurationError),
        };
        if o.issuer_url.as_str().is_empty() || o.client_id.as_str().is_empty() || o.client_secret.as_str().is_empty() {
            return Err(SsoError::ConfigurationError);
        }
        if !issuer_url_valid(&o.issuer_url) {
            return Err(SsoError::ConfigurationError);
        }
        let redirect = config.general.public_url.clone().concat("/auth/sso/cb");
        if !redirect_url_valid(&redirect) {
            return Err(SsoError::ConfigurationError);
        }
        Ok(SSO {
            issuer_url: o.issuer_url.clone(),
            client_id: o.client_id.clone(),
            client_secret: Some(o.client_secret.clone()),
            public_url: config.general.public_url.clone(),
            scopes: clone_strings(&o.claims),
            create_account: o.create_account,
            cache: PendingAuthCache::new(PENDING_TTL_SECS, PENDING_CAPACITY),
        })
    }

    /// The development proxy: set only when a proxy URL is given; certificate checks are
    /// skipped only when that is asked for as well.
    pub fn setup_proxy(proxy_url: Option<String>, disable_cert_check: bool) -> (r: Option<HttpProxySettings>)
        ensures
            proxy_url is None <==> r is None,
            r matches Some(p) ==> Some(p.url) == proxy_url && p.disable_cert_check == disable_cert_check,
    {
        match proxy_url {
            Some(url) => Some(HttpProxySettings { url, disable_cert_check }),
            None => None,
        }
    }

    /// The provider that identities of this manager come from: its issuer URL.
    pub fn provider_id(&self) -> (r: String)
        ensures
            r@ == self.spec_issuer_url(),
    {
        self.issuer_url.clone()
    }

    pub fn issuer_url(&self) -> (r: String)
        ensures
            r@ == self.spec_issuer_url(),
    {
        self.issuer_url.clone()
    }

    pub fn client_id(&self) -> (r: String)
        ensures
            r@ == self.spec_client_id(),
    {
        self.client_id.clone()
    }

    pub fn client_secret(&self) -> (r: Option<String>)
        ensures
            r == self.spec_client_secret(),
    {
        match &self.client_secret {
            Some(s) => Some(s.clone()),
            None => None,
        }
    }

    /// Whether a first SSO login may create a local account.
    pub fn create_account(&self) -> (r: bool)
        ensures
            r == self.spec_create_account(),
    {
        self.create_account
    }

    /// The callback address registered with the provider.
    pub fn redirect_url(&self) -> (r: String)
        ensures
            r@ == self.spec_public_url() + "/auth/sso/cb"@,
    {
        self.public_url.clone().concat("/auth/sso/cb")
    }

    /// The scopes requested from the provider.
    pub fn scopes(&self) -> (r: Vec<String>)
        ensures
            r@ == self.spec_scopes(),
    {
        clone_strings(&self.scopes)
    }

    /// Starts a flow under `key` at `now`: fresh PKCE, anti-forgery and nonce secrets are
    /// stored, replacing any earlier flow under the key.
    pub fn initiate(&mut self, key: u128, return_to: Option<String>, now: u64) -> (r: FlowStart)
        ensures
            final(self).pending().contains_key(key),
            final(self).pending().remove(key) == old(self).pending().remove(key),
            ({
                let s = final(self).pending()[key];
                &&& s.csrf_token == r.csrf_token
                &&& s.nonce == r.nonce
                &&& s.return_to == return_to
                &&& s.created_at == now
                &&& s.pkce_challenge@.len() == 43
                &&& r.code_challenge@ == pkce_s256(s.pkce_challenge@)
                &&& r.csrf_token@.len() == 22
                &&& r.nonce@.len() == 22
            }),
            final(self).ttl() == old(self).ttl(),
            final(self).capacity() == old(self).capacity(),
    {
        let pair = new_pkce_pair();
        let verifier = pair.verifier;
        let csrf_token = new_csrf_token();
        let nonce = new_nonce();
        let session = SSOSessionData {
            pkce_challenge: verifier,
            nonce: nonce.clone(),
            csrf_token: csrf_token.clone(),
            return_to,
            created_at: now,
        };
        self.cache.put(key, session);
        assert(self.pending().remove(key) =~= old(self).pending().remove(key));
        FlowStart { pkce_challenge: pair.challenge, code_challenge: pair.challenge_text, csrf_token, nonce }
    }

    /// Starts the callback of the flow under `key`: its pending session is taken, so it
    /// can serve one callback only, and the callback's `state` is checked against it.
    /// The cache may have dropped the session early; the callback then fails as unknown.
    pub fn begin_callback(&mut self, key: u128, code: String, state: &String, now: u64) -> (r: (CallbackFlow, CallbackAction))
        ensures
            final(self).pending() == old(self).pending().remove(key),
            final(self).ttl() == old(self).ttl(),
            final(self).capacity() == old(self).capacity(),
            r.1 == start_action(lookup(old(self).pending(), key, now, old(self).ttl()), code, state@)
                || r.1 == CallbackAction::Abort(SsoError::FlowExpiredOrUnknown),
            r.0.stage == stage_after(r.1),
            r.1 is ExchangeCode ==> {
                let s = old(self).pending()[key];
                &&& r.0.nonce == s.nonce
                &&& r.0.return_to == s.return_to
            },
    {
        let found = self.cache.take(key, now);
        let nonce = match &found {
            Some(s) => s.nonce.clone(),
            None => String::new(),
        };
        let return_to = match &found {
            Some(s) => match &s.return_to {
                Some(t) => Some(t.clone()),
                None => None,
            },
            None => None,
        };
        let action = check_callback(found, code, state);
        let stage = match &action {
            CallbackAction::ExchangeCode { .. } => CallbackStage::ExchangingCode,
            _ => CallbackStage::Failed,
        };
        (CallbackFlow { stage, nonce, return_to }, action)
    }
}

fn clone_strings(v: &Vec<String>) -> (r: Vec<String>)
    ensures
        r@ == v@,
{
    let mut r: Vec<String> = Vec::new();
    let mut i: usize = 0;
    while i < v.len()
        invariant
            i <= v.len(),
            r@ == v@.subrange(0, i as int),
        decreases v.len() - i,
    {
        r.push(v[i].clone());
        i = i + 1;
        assert(r@ =~= v@.subrange(0, i as int));
    }
    assert(v@.subrange(0, v.len() as int) =~= v@);
    r
}

/// A flow whose callback presents its stored anti-forgery token, whose code exchange
/// returns a valid identity token with the stored nonce and a matching (or absent)
/// access-token hash, and whose user-info fetch succeeds, goes through each step to
/// completion. Its session is gone once taken, so a repeated callback under the same
/// key fails as unknown.
pub proof fn lemma_matching_flow_completes(
    pending: Map<u128, SSOSessionData>,
    key: u128,
    now: u64,
    later: u64,
    ttl: u64,
    code: String,
    access_token: String,
    report: IdTokenReport,
    identity: ExternalIdentity,
)
    requires
        pending.contains_key(key),
        !pending[key].expired_at(now, ttl),
        report.signature_valid,
        report.nonce matches Some(n) && n@ == pending[key].nonce@,
        report.access_token_hash matches Some(h) ==> (report.recomputed_hash matches Some(a) && a@ == h@),
    ensures
        ({
            let s = pending[key];
            &&& start_action(lookup(pending, key, now, ttl), code, s.csrf_token@)
                == (CallbackAction::ExchangeCode { code, pkce_verifier: s.pkce_challenge })
            &&& token_action(s.nonce@, TokenOutcome::Received { access_token, id_token: Some(report) })
                == (CallbackAction::FetchUserInfo { access_token })
            &&& user_info_action(s.return_to, UserInfoOutcome::Received(identity))
                == (CallbackAction::Finish { identity, return_to: s.return_to })
            &&& stage_after(user_info_action(s.return_to, UserInfoOutcome::Received(identity))) == CallbackStage::Completed
        }),
        start_action(lookup(pending.remove(key), key, later, ttl), code, pending[key].csrf_token@)
            == CallbackAction::Abort(SsoError::FlowExpiredOrUnknown),
{
}

/// A callback whose `state` differs from the anti-forgery token stored under its key
/// fails with a CSRF mismatch, whatever is stored under other keys, and asks for no
/// code exchange.
pub proof fn lemma_state_mismatch_refused(
    pending: Map<u128, SSOSessionData>,
    key: u128,
    now: u64,
    ttl: u64,
    code: String,
    state: Seq<char>,
)
    requires
        pending.contains_key(key),
        !pending[key].expired_at(now, ttl),
        pending[key].csrf_token@ != state,
    ensures
        start_action(lookup(pending, key, now, ttl), code, state) == CallbackAction::Abort(SsoError::CsrfMismatch),
{
}

/// An identity token whose access-token-hash claim differs from the hash of the
/// received access token ends the flow with an access-token mismatch, and no user-info
/// fetch is asked for.
pub proof fn lemma_substituted_access_token_refused(nonce: Seq<char>, access_token: String, report: IdTokenReport)
    requires
        report.signature_valid,
        report.nonce matches Some(n) && n@ == nonce,
        report.access_token_hash matches Some(h) && (report.recomputed_hash matches Some(a) && a@ != h@),
    ensures
        token_action(nonce, TokenOutcome::Received { access_token, id_token: Some(report) })
            == CallbackAction::Abort(SsoError::AccessTokenMismatch),
{
}

} // verus!

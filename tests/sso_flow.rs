use storage_server::config::{AppConfig, AuthConfig, GeneralConfig, OidcConfig};
use storage_server::identity::{generate_id, plan_lookup, resolve_user, ExternalIdentity, Resolution, SSOData, UserModel};
use storage_server::pending::{fresh_session, PendingAuthCache, SSOSessionData};
use storage_server::sso::{
    check_callback, redirect_target, CallbackAction, CallbackFlow, CallbackStage, IdTokenReport, SsoError, TokenOutcome,
    UserInfoOutcome, SSO,
};

fn config(oidc: Option<OidcConfig>) -> AppConfig {
    AppConfig {
        general: GeneralConfig {
            listen_ip: None,
            listen_port: None,
            public_url: "https://files.example.com".to_string(),
            database_url: None,
        },
        auth: AuthConfig { disable_registration: false, oidc },
        smtp: None,
    }
}

fn oidc() -> OidcConfig {
    OidcConfig {
        enabled: true,
        issuer_url: "https://id.example.com".to_string(),
        client_id: "files".to_string(),
        client_secret: "SECRET-REDACTED".to_string(),
        claims: vec!["openid".to_string(), "email".to_string(), "profile".to_string()],
        create_account: true,
        disable_normal_login: false,
    }
}

fn session(csrf: &str, created_at: u64) -> SSOSessionData {
    SSOSessionData {
        pkce_challenge: "v".repeat(43),
        nonce: "n0nce".to_string(),
        csrf_token: csrf.to_string(),
        return_to: None,
        created_at,
    }
}

fn valid_report(nonce: &str) -> IdTokenReport {
    IdTokenReport { signature_valid: true, nonce: Some(nonce.to_string()), access_token_hash: None, recomputed_hash: None }
}

fn alice() -> ExternalIdentity {
    ExternalIdentity {
        subject: "abc123".to_string(),
        email: Some("a@example.com".to_string()),
        preferred_username: Some("alice".to_string()),
        name: None,
    }
}

fn flow(stage: CallbackStage) -> CallbackFlow {
    CallbackFlow { stage, nonce: "n0nce".to_string(), return_to: Some("/library/1".to_string()) }
}

#[test]
fn end_to_end_login_creates_user_and_redirects_to_root() {
    let mut sso = SSO::create(&config(Some(oidc()))).unwrap();
    let start = sso.initiate(7, None, 1_000);
    assert_eq!(start.csrf_token.len(), 22);
    assert_eq!(start.nonce.len(), 22);
    let (mut flow, action) = sso.begin_callback(7, "the-code".to_string(), &start.csrf_token, 1_005);
    match action {
        CallbackAction::ExchangeCode { code, pkce_verifier } => {
            assert_eq!(code, "the-code");
            assert_eq!(pkce_verifier.len(), 43);
        }
        other => panic!("unexpected {:?}", other),
    }
    let tokens = TokenOutcome::Received { access_token: "at".to_string(), id_token: Some(valid_report(&start.nonce)) };
    let action = flow.on_tokens(tokens);
    assert!(matches!(&action, CallbackAction::FetchUserInfo { access_token } if access_token == "at"));
    let action = flow.on_user_info(UserInfoOutcome::Received(alice()));
    assert_eq!(flow.stage, CallbackStage::Completed);
    let (identity, return_to) = match action {
        CallbackAction::Finish { identity, return_to } => (identity, return_to),
        other => panic!("unexpected {:?}", other),
    };
    let plan = plan_lookup(&identity, &"provider-x".to_string()).unwrap();
    let expected_id = generate_id(Some(SSOData { provider_id: "provider-x".to_string(), sub: "abc123".to_string() }));
    match resolve_user(None, plan, &identity, true).unwrap() {
        Resolution::Create { id, user } => {
            assert_eq!(id, expected_id);
            assert_eq!(user.email, "a@example.com");
            assert_eq!(user.username, "alice");
            assert_eq!(user.name, Some("abc123".to_string()));
        }
        other => panic!("unexpected {:?}", other),
    }
    assert_eq!(redirect_target(return_to), "/");
}

#[test]
fn wrong_state_is_a_csrf_mismatch_without_exchange() {
    let action = check_callback(Some(session("right", 0)), "code".to_string(), &"wrong".to_string());
    assert!(matches!(action, CallbackAction::Abort(SsoError::CsrfMismatch)));
    let mut sso = SSO::create(&config(Some(oidc()))).unwrap();
    let _ = sso.initiate(1, None, 10);
    let (flow, action) = sso.begin_callback(1, "code".to_string(), &"wrong".to_string(), 11);
    assert!(matches!(action, CallbackAction::Abort(SsoError::CsrfMismatch)));
    assert_eq!(flow.stage, CallbackStage::Failed);
}

#[test]
fn substituted_access_token_is_refused_before_user_info() {
    let mut f = flow(CallbackStage::ExchangingCode);
    let report = IdTokenReport {
        signature_valid: true,
        nonce: Some("n0nce".to_string()),
        access_token_hash: Some("expected-hash".to_string()),
        recomputed_hash: Some("other-hash".to_string()),
    };
    let action = f.on_tokens(TokenOutcome::Received { access_token: "at".to_string(), id_token: Some(report) });
    assert!(matches!(action, CallbackAction::Abort(SsoError::AccessTokenMismatch)));
    assert_eq!(f.stage, CallbackStage::Failed);
}

#[test]
fn matching_access_token_hash_goes_on_to_user_info() {
    let mut f = flow(CallbackStage::ExchangingCode);
    let report = IdTokenReport {
        signature_valid: true,
        nonce: Some("n0nce".to_string()),
        access_token_hash: Some("h".to_string()),
        recomputed_hash: Some("h".to_string()),
    };
    let action = f.on_tokens(TokenOutcome::Received { access_token: "at".to_string(), id_token: Some(report) });
    assert!(matches!(action, CallbackAction::FetchUserInfo { .. }));
    assert_eq!(f.stage, CallbackStage::FetchingUserInfo);
}

#[test]
fn second_callback_with_same_state_is_unknown() {
    let mut sso = SSO::create(&config(Some(oidc()))).unwrap();
    let start = sso.initiate(9, Some("/library/2".to_string()), 50);
    let (flow, first) = sso.begin_callback(9, "c".to_string(), &start.csrf_token, 51);
    assert!(matches!(first, CallbackAction::ExchangeCode { .. }));
    assert_eq!(flow.return_to, Some("/library/2".to_string()));
    assert_eq!(flow.nonce, start.nonce);
    let (flow2, second) = sso.begin_callback(9, "c".to_string(), &start.csrf_token, 52);
    assert!(matches!(second, CallbackAction::Abort(SsoError::FlowExpiredOrUnknown)));
    assert_eq!(flow2.stage, CallbackStage::Failed);
}

#[test]
fn callback_under_a_key_without_session_is_unknown() {
    let mut sso = SSO::create(&config(Some(oidc()))).unwrap();
    let start = sso.initiate(1, None, 0);
    let (_, action) = sso.begin_callback(2, "c".to_string(), &start.csrf_token, 1);
    assert!(matches!(action, CallbackAction::Abort(SsoError::FlowExpiredOrUnknown)));
}

#[test]
fn newer_initiation_replaces_older_one() {
    let mut sso = SSO::create(&config(Some(oidc()))).unwrap();
    let old = sso.initiate(3, None, 0);
    let new = sso.initiate(3, None, 1);
    let (_, action) = sso.begin_callback(3, "c".to_string(), &old.csrf_token, 2);
    if old.csrf_token != new.csrf_token {
        assert!(matches!(action, CallbackAction::Abort(SsoError::CsrfMismatch)));
    }
}

#[test]
fn expired_session_is_unreachable() {
    let mut cache = PendingAuthCache::new(120, 100);
    cache.put(5, session("s", 1_000));
    assert!(cache.take(5, 1_120).is_none());
    assert!(cache.take(5, 1_000).is_none());
    cache.put(6, session("s", 1_000));
    let taken = cache.take(6, 1_119).unwrap();
    assert_eq!(taken.csrf_token, "s");
    assert!(cache.take(6, 1_119).is_none());
}

#[test]
fn expired_flow_callback_is_unknown() {
    let mut sso = SSO::create(&config(Some(oidc()))).unwrap();
    let start = sso.initiate(4, None, 0);
    let (_, action) = sso.begin_callback(4, "c".to_string(), &start.csrf_token, 120);
    assert!(matches!(action, CallbackAction::Abort(SsoError::FlowExpiredOrUnknown)));
}

#[test]
fn missing_session_is_unknown() {
    let action = check_callback(None, "c".to_string(), &"s".to_string());
    assert!(matches!(action, CallbackAction::Abort(SsoError::FlowExpiredOrUnknown)));
}

#[test]
fn failed_exchange_and_missing_or_invalid_id_token() {
    let mut f = flow(CallbackStage::ExchangingCode);
    assert!(matches!(f.on_tokens(TokenOutcome::Failed), CallbackAction::Abort(SsoError::CodeExchangeFailed)));
    let mut f = flow(CallbackStage::ExchangingCode);
    let a = f.on_tokens(TokenOutcome::Received { access_token: "at".to_string(), id_token: None });
    assert!(matches!(a, CallbackAction::Abort(SsoError::MissingIdentityToken)));
    let mut f = flow(CallbackStage::ExchangingCode);
    let a = f.on_tokens(TokenOutcome::Received { access_token: "at".to_string(), id_token: Some(valid_report("other")) });
    assert!(matches!(a, CallbackAction::Abort(SsoError::InvalidIdentityToken)));
    let mut f = flow(CallbackStage::ExchangingCode);
    let mut bad = valid_report("n0nce");
    bad.signature_valid = false;
    let a = f.on_tokens(TokenOutcome::Received { access_token: "at".to_string(), id_token: Some(bad) });
    assert!(matches!(a, CallbackAction::Abort(SsoError::InvalidIdentityToken)));
    let mut f = flow(CallbackStage::ExchangingCode);
    let mut no_hash = valid_report("n0nce");
    no_hash.access_token_hash = Some("h".to_string());
    let a = f.on_tokens(TokenOutcome::Received { access_token: "at".to_string(), id_token: Some(no_hash) });
    assert!(matches!(a, CallbackAction::Abort(SsoError::InvalidIdentityToken)));
}

#[test]
fn failed_user_info_fails_the_flow() {
    let mut f = flow(CallbackStage::FetchingUserInfo);
    assert!(matches!(f.on_user_info(UserInfoOutcome::Failed), CallbackAction::Abort(SsoError::UserInfoFetchFailed)));
    assert_eq!(f.stage, CallbackStage::Failed);
}

#[test]
fn finished_flow_keeps_its_return_target() {
    let mut f = flow(CallbackStage::FetchingUserInfo);
    match f.on_user_info(UserInfoOutcome::Received(alice())) {
        CallbackAction::Finish { return_to, .. } => assert_eq!(redirect_target(return_to), "/library/1"),
        other => panic!("unexpected {:?}", other),
    }
}

#[test]
fn relogin_yields_same_handle_and_no_new_account() {
    let provider = "provider-x".to_string();
    let first = plan_lookup(&alice(), &provider).unwrap();
    let second = plan_lookup(&alice(), &provider).unwrap();
    assert_eq!(first.handle, second.handle);
    let created = UserModel {
        id: first.handle.clone(),
        username: "alice".to_string(),
        email: "a@example.com".to_string(),
        created_at: 0,
        name: Some("abc123".to_string()),
    };
    match resolve_user(Some(created), second, &alice(), true).unwrap() {
        Resolution::Existing(u) => assert_eq!(u.id, first.handle),
        other => panic!("unexpected {:?}", other),
    }
}

#[test]
fn no_account_and_creation_disabled_fails() {
    let plan = plan_lookup(&alice(), &"provider-x".to_string()).unwrap();
    assert_eq!(resolve_user(None, plan, &alice(), false).unwrap_err(), SsoError::AccountCreationDisabled);
}

#[test]
fn missing_email_or_username_is_a_missing_claim() {
    let mut no_email = alice();
    no_email.email = None;
    assert_eq!(plan_lookup(&no_email, &"p".to_string()).unwrap_err(), SsoError::MissingRequiredClaim);
    let mut no_username = alice();
    no_username.preferred_username = None;
    assert_eq!(plan_lookup(&no_username, &"p".to_string()).unwrap_err(), SsoError::MissingRequiredClaim);
}

#[test]
fn new_account_takes_claimed_name() {
    let mut named = alice();
    named.name = Some("Alice A.".to_string());
    let plan = plan_lookup(&named, &"p".to_string()).unwrap();
    assert_eq!(plan.options.len(), 3);
    match resolve_user(None, plan, &named, true).unwrap() {
        Resolution::Create { user, .. } => assert_eq!(user.name, Some("Alice A.".to_string())),
        other => panic!("unexpected {:?}", other),
    }
}

#[test]
fn missing_or_incomplete_oidc_section_is_a_configuration_error() {
    assert_eq!(SSO::create(&config(None)).err(), Some(SsoError::ConfigurationError));
    let mut incomplete = oidc();
    incomplete.client_id = String::new();
    assert_eq!(SSO::create(&config(Some(incomplete))).err(), Some(SsoError::ConfigurationError));
}

#[test]
fn manager_exposes_its_settings() {
    let sso = SSO::create(&config(Some(oidc()))).unwrap();
    assert_eq!(sso.redirect_url(), "https://files.example.com/auth/sso/cb");
    assert_eq!(sso.scopes(), vec!["openid".to_string(), "email".to_string(), "profile".to_string()]);
    assert_eq!(sso.provider_id(), "https://id.example.com");
    assert_eq!(sso.client_id(), "files");
    assert_eq!(sso.client_secret(), Some("SECRET-REDACTED".to_string()));
    assert!(sso.create_account());
}

#[test]
fn proxy_only_when_url_given() {
    assert!(SSO::setup_proxy(None, true).is_none());
    let p = SSO::setup_proxy(Some("http://127.0.0.1:8080".to_string()), true).unwrap();
    assert_eq!(p.url, "http://127.0.0.1:8080");
    assert!(p.disable_cert_check);
}

#[test]
fn unparsable_issuer_or_public_address_is_a_configuration_error() {
    let mut bad_issuer = oidc();
    bad_issuer.issuer_url = "not a url".to_string();
    assert_eq!(SSO::create(&config(Some(bad_issuer))).err(), Some(SsoError::ConfigurationError));
    let mut cfg = config(Some(oidc()));
    cfg.general.public_url = String::new();
    assert_eq!(SSO::create(&cfg).err(), Some(SsoError::ConfigurationError));
}

#[test]
fn fresh_session_drops_only_expired_ones() {
    assert!(fresh_session(None, 10, 120).is_none());
    assert!(fresh_session(Some(session("s", 100)), 220, 120).is_none());
    assert_eq!(fresh_session(Some(session("s", 100)), 219, 120).unwrap().csrf_token, "s");
    assert_eq!(fresh_session(Some(session("s", 100)), 50, 120).unwrap().created_at, 100);
}

#[test]
fn take_right_after_put_returns_the_session() {
    let mut cache = PendingAuthCache::new(120, 100);
    cache.put(11, session("first", 0));
    cache.put(11, session("second", 1));
    assert_eq!(cache.take(11, 2).unwrap().csrf_token, "second");
}

#[test]
fn returned_challenge_is_s256_of_stored_verifier() {
    let mut sso = SSO::create(&config(Some(oidc()))).unwrap();
    let start = sso.initiate(21, None, 0);
    assert_eq!(start.code_challenge, start.pkce_challenge.as_str());
    let (_, action) = sso.begin_callback(21, "c".to_string(), &start.csrf_token, 1);
    let verifier = match action {
        CallbackAction::ExchangeCode { pkce_verifier, .. } => pkce_verifier,
        other => panic!("unexpected {:?}", other),
    };
    let expected = openidconnect::PkceCodeChallenge::from_code_verifier_sha256(&openidconnect::PkceCodeVerifier::new(verifier));
    assert_eq!(start.code_challenge, expected.as_str());
    assert_eq!(start.code_challenge.len(), 43);
}

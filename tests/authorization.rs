use yt_subscriber::{
    parse_callback, request_target, valid_verifier, AuthorizationFlow, CallbackFault,
    ConfigField, ErrorKind, FlowAction, FlowEvent, FlowState, OAuth2Service, OauthSecrets,
    PkceChallenge, ServiceError,
};

const RFC_VERIFIER: &str = "dBjftJeZ4CVP-mB92K27uhbUJU1p1r_wW1gFWFOEjXk";
const RFC_CHALLENGE: &str = "E9Melhoa2OwvFrEMTJguCHaoeK1t8URWbuGJSstw-cM";

fn secrets() -> OauthSecrets {
    OauthSecrets {
        client_id: "my-client".to_string(),
        client_secret: "SECRET-REDACTED".to_string(),
        auth_url: "https://accounts.google.com/o/oauth2/auth".to_string(),
        token_url: "https://oauth2.googleapis.com/token".to_string(),
        redirect_url: "http://localhost:8080".to_string(),
        access_token: String::new(),
    }
}

fn known_pkce(state: &str) -> PkceChallenge {
    PkceChallenge::from_verifier(RFC_VERIFIER.to_string(), state.to_string()).unwrap()
}

fn flow_awaiting_redirect(state: &str) -> AuthorizationFlow {
    let mut flow = AuthorizationFlow::new(secrets());
    let action = flow.step(FlowEvent::Begin(known_pkce(state)));
    assert!(matches!(action, FlowAction::PresentUrl(_)));
    let action = flow.step(FlowEvent::UrlPresented);
    assert!(matches!(action, FlowAction::AwaitRedirect));
    assert_eq!(flow.state(), FlowState::RedirectIssued);
    flow
}

#[test]
fn missing_code_is_parse_error() {
    let mut flow = flow_awaiting_redirect("xyz");
    let action = flow.step(FlowEvent::Redirect("GET /?state=xyz HTTP/1.1\r\n".to_string()));
    assert!(matches!(action, FlowAction::Finish));
    assert_eq!(flow.state(), FlowState::Failed);
    let e = flow.finish().unwrap_err();
    assert_eq!(e, ServiceError::MalformedCallback(CallbackFault::MissingCode));
    assert_eq!(e.kind(), ErrorKind::Parse);
}

#[test]
fn missing_code_leaves_token_empty() {
    let mut secrets = secrets();
    let mut flow = flow_awaiting_redirect("xyz");
    flow.step(FlowEvent::Redirect("GET /?state=xyz HTTP/1.1".to_string()));
    if let Ok(s) = flow.finish() {
        secrets = s;
    }
    assert!(secrets.access_token.is_empty());
}

#[test]
fn csrf_mismatch_fails_before_exchange() {
    let mut flow = flow_awaiting_redirect("expected-state");
    let action = flow.step(FlowEvent::Redirect(
        "GET /?code=4%2F0Ab&state=forged HTTP/1.1".to_string(),
    ));
    assert!(matches!(action, FlowAction::Finish));
    assert_eq!(flow.state(), FlowState::Failed);
    let action = flow.step(FlowEvent::TokenGranted("ya29.a0".to_string()));
    assert!(matches!(action, FlowAction::Finish));
    assert_eq!(flow.state(), FlowState::Failed);
    let e = flow.finish().unwrap_err();
    assert_eq!(e, ServiceError::CsrfMismatch);
    assert_eq!(e.kind(), ErrorKind::Security);
}

#[test]
fn full_login_sets_access_token() {
    let mut flow = flow_awaiting_redirect("s1");
    let action = flow.step(FlowEvent::Redirect("GET /?code=4%2F0Ab&state=s1 HTTP/1.1".to_string()));
    match action {
        FlowAction::ExchangeCode { code, verifier } => {
            assert_eq!(code, "4/0Ab");
            assert_eq!(verifier, RFC_VERIFIER);
        }
        other => panic!("unexpected action {:?}", other),
    }
    assert_eq!(flow.state(), FlowState::CodeReceived);
    let action = flow.step(FlowEvent::TokenGranted("ya29.a0".to_string()));
    assert!(matches!(action, FlowAction::Finish));
    assert_eq!(flow.state(), FlowState::Complete);
    let s = flow.finish().unwrap();
    assert_eq!(s.access_token, "ya29.a0");
    assert_eq!(s.client_id, "my-client");
}

#[test]
fn empty_access_token_fails() {
    let mut flow = flow_awaiting_redirect("s1");
    flow.step(FlowEvent::Redirect("GET /?code=c&state=s1 HTTP/1.1".to_string()));
    flow.step(FlowEvent::TokenGranted(String::new()));
    let e = flow.finish().unwrap_err();
    assert_eq!(e, ServiceError::EmptyAccessToken);
    assert_eq!(e.kind(), ErrorKind::Protocol);
}

#[test]
fn rejected_exchange_fails() {
    let mut flow = flow_awaiting_redirect("s1");
    flow.step(FlowEvent::Redirect("GET /?code=c&state=s1 HTTP/1.1".to_string()));
    flow.step(FlowEvent::ExchangeFailed("invalid_grant".to_string()));
    assert_eq!(
        flow.finish().unwrap_err(),
        ServiceError::TokenRejected("invalid_grant".to_string())
    );
}

#[test]
fn listener_failure_is_transport_error() {
    let mut flow = flow_awaiting_redirect("s1");
    flow.step(FlowEvent::ListenerFailed("timed out".to_string()));
    let e = flow.finish().unwrap_err();
    assert_eq!(e.kind(), ErrorKind::Transport);
}

#[test]
fn events_out_of_stage_are_ignored() {
    let mut flow = flow_awaiting_redirect("s1");
    let action = flow.step(FlowEvent::TokenGranted("early".to_string()));
    assert!(matches!(action, FlowAction::AwaitRedirect));
    assert_eq!(flow.state(), FlowState::RedirectIssued);
}

#[test]
fn authorization_url_carries_challenge_and_state() {
    let mut flow = AuthorizationFlow::new(secrets());
    assert!(matches!(flow.pending(), FlowAction::Generate));
    let action = flow.step(FlowEvent::Begin(known_pkce("state123")));
    let url = match action {
        FlowAction::PresentUrl(u) => u,
        other => panic!("unexpected action {:?}", other),
    };
    assert!(url.starts_with("https://accounts.google.com/o/oauth2/auth?"));
    assert!(url.contains("response_type=code"));
    assert!(url.contains("client_id=my-client"));
    assert!(url.contains("state=state123"));
    assert!(url.contains(&format!("code_challenge={}", RFC_CHALLENGE)));
    assert!(url.contains("code_challenge_method=S256"));
    assert!(url.contains("redirect_uri=http%3A%2F%2Flocalhost%3A8080"));
    assert!(url.contains("scope=https%3A%2F%2Fwww.googleapis.com%2Fauth%2Fyoutube"));
    assert!(!url.contains(RFC_VERIFIER));
}

#[test]
fn invalid_auth_url_is_configuration_error() {
    let mut s = secrets();
    s.auth_url = "not a url".to_string();
    let (flow, action) = OAuth2Service::start(s);
    assert!(matches!(action, FlowAction::Finish));
    let e = flow.finish().unwrap_err();
    assert_eq!(e, ServiceError::InvalidConfig(ConfigField::AuthUrl));
    assert_eq!(e.kind(), ErrorKind::Configuration);
}

#[test]
fn invalid_token_url_is_configuration_error() {
    let mut s = secrets();
    s.token_url = "::".to_string();
    let (flow, _) = OAuth2Service::start(s);
    assert_eq!(flow.finish().unwrap_err(), ServiceError::InvalidConfig(ConfigField::TokenUrl));
}

#[test]
fn invalid_redirect_url_is_configuration_error() {
    let mut s = secrets();
    s.redirect_url = "no url here".to_string();
    let (flow, _) = OAuth2Service::start(s);
    assert_eq!(flow.finish().unwrap_err(), ServiceError::InvalidConfig(ConfigField::RedirectUrl));
}

#[test]
fn start_presents_url() {
    let (flow, action) = OAuth2Service::start(secrets());
    assert_eq!(flow.state(), FlowState::ChallengeGenerated);
    assert!(matches!(action, FlowAction::PresentUrl(u) if u.contains("code_challenge=")));
}

#[test]
fn generated_challenge_is_hash_of_verifier() {
    let p = PkceChallenge::generate();
    assert_eq!(p.verifier.len(), 43);
    assert_eq!(p.csrf_token.len(), 22);
    assert!(valid_verifier(&p.verifier));
    let again = PkceChallenge::from_verifier(p.verifier.clone(), String::new()).unwrap();
    assert_eq!(again.challenge, p.challenge);
    assert_ne!(p.challenge, p.verifier);
}

#[test]
fn generate_twice_differs() {
    let a = PkceChallenge::generate();
    let b = PkceChallenge::generate();
    assert_ne!(a.verifier, b.verifier);
    assert_ne!(a.challenge, b.challenge);
    assert_ne!(a.csrf_token, b.csrf_token);
}

#[test]
fn rfc_challenge_vector() {
    let p = known_pkce("");
    assert_eq!(p.challenge, RFC_CHALLENGE);
}

#[test]
fn verifier_form() {
    assert!(!valid_verifier(&"a".repeat(42)));
    assert!(valid_verifier(&"a".repeat(43)));
    assert!(valid_verifier(&"Z-_9".repeat(32)));
    assert!(!valid_verifier(&"a".repeat(129)));
    assert!(!valid_verifier(&format!("{}~", "a".repeat(43))));
    assert!(PkceChallenge::from_verifier("short".to_string(), String::new()).is_none());
}

#[test]
fn callback_values_are_decoded() {
    let (code, state) =
        parse_callback("GET /?state=a%20b&code=4%2F0A+x&code=second HTTP/1.1").unwrap();
    assert_eq!(code, "4/0A x");
    assert_eq!(state, "a b");
}

#[test]
fn callback_faults() {
    assert_eq!(
        parse_callback("GET").unwrap_err(),
        ServiceError::MalformedCallback(CallbackFault::MissingTarget)
    );
    assert_eq!(
        parse_callback("   ").unwrap_err(),
        ServiceError::MalformedCallback(CallbackFault::MissingTarget)
    );
    assert_eq!(
        parse_callback("GET :99999/?code=a&state=b HTTP/1.1").unwrap_err(),
        ServiceError::MalformedCallback(CallbackFault::InvalidUrl)
    );
    assert_eq!(
        parse_callback("GET /?code=a HTTP/1.1").unwrap_err(),
        ServiceError::MalformedCallback(CallbackFault::MissingState)
    );
}

#[test]
fn request_target_is_second_word() {
    assert_eq!(request_target("GET /path?x=1 HTTP/1.1"), Some("/path?x=1".to_string()));
    assert_eq!(request_target("  GET\t/a  "), Some("/a".to_string()));
    assert_eq!(request_target("GET"), None);
    assert_eq!(request_target(""), None);
}

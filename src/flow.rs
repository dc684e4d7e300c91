use oauth2::basic::BasicClient;
use oauth2::{AuthUrl, ClientId, CsrfToken, PkceCodeChallenge, PkceCodeVerifier, RedirectUrl, Scope};
use vstd::prelude::*;

use crate::callback::{callback_of, parse_callback, parses_as_url, url_parses};
use crate::error::{ConfigField, ErrorKind, ErrorView, ServiceError};
use crate::models::{OauthSecrets, SecretsView};
use crate::pkce::{is_base64url, is_valid_verifier, PkceChallenge};

verus! {

/// The scope that the login asks for.
pub const YOUTUBE_SCOPE: &'static str = "https://www.googleapis.com/auth/youtube";

/// The authorization URL that oauth2 builds for a client: the provider's
/// authorization endpoint with `response_type=code`, the client id, the
/// state, the S256 challenge of the verifier, the redirect URL and the scope.
pub uninterp spec fn authorize_url_of(
    client_id: Seq<char>,
    auth_url: Seq<char>,
    redirect_url: Seq<char>,
    scope: Seq<char>,
    verifier: Seq<char>,
    state: Seq<char>,
) -> Seq<char>;

/// Relies on `oauth2::Client::authorize_url` with one scope and the S256
/// challenge of `verifier`, then `AuthorizationRequest::url`; `AuthUrl::new`
/// and `RedirectUrl::new` accept exactly what `url::Url::parse` accepts, and
/// `from_code_verifier_sha256` panics outside 43 to 128 bytes.
#[verifier::external_body]
fn authorization_url(client_id: &str, auth_url: &str, redirect_url: &str, scope: &str, verifier: &str, state: &str) -> (r: Option<String>)
    requires
        is_valid_verifier(verifier@),
    ensures
        r is Some <==> (parses_as_url(auth_url@) && parses_as_url(redirect_url@)),
        r matches Some(u) ==> u@ == authorize_url_of(client_id@, auth_url@, redirect_url@, scope@, verifier@, state@),
{
    let auth = AuthUrl::new(auth_url.to_string()).ok()?;
    let redirect = RedirectUrl::new(redirect_url.to_string()).ok()?;
    let id = ClientId::new(client_id.to_string());
    let client = BasicClient::new(id, None, auth, None).set_redirect_uri(redirect);
    let pkce = PkceCodeVerifier::new(verifier.to_string());
    let challenge = PkceCodeChallenge::from_code_verifier_sha256(&pkce);
    let csrf = CsrfToken::new(state.to_string());
    let request = client.authorize_url(move || csrf);
    let request = request.add_scope(Scope::new(scope.to_string()));
    Some(request.set_pkce_challenge(challenge).url().0.to_string())
}

/// The stages of a login.
#[derive(Clone, Copy, Debug, PartialEq, Eq, Structural)]
pub enum FlowState {
    /// Nothing generated yet.
    Init,
    /// The PKCE pair and the CSRF token exist, and the authorization URL.
    ChallengeGenerated,
    /// The operator has the URL; the listener waits for the redirect.
    RedirectIssued,
    /// The redirect brought a code with the expected state.
    CodeReceived,
    /// The access token is in the secrets.
    Complete,
    /// The login was abandoned; the secrets are as they were given.
    Failed,
}

/// What happened outside, handed to the login.
#[derive(Debug)]
pub enum FlowEvent {
    /// The PKCE pair and CSRF token for this attempt.
    Begin(PkceChallenge),
    /// The authorization URL was shown to the operator.
    UrlPresented,
    /// The first line of the request that reached the listener.
    Redirect(String),
    /// The listener could not be bound, or no redirect came in time.
    ListenerFailed(String),
    /// The token endpoint answered the exchange with this access token.
    TokenGranted(String),
    /// The exchange failed.
    ExchangeFailed(String),
}

/// What the login asks its driver to do next.
#[derive(Debug)]
pub enum FlowAction {
    /// Generate the PKCE pair and CSRF token.
    Generate,
    /// Show this authorization URL to the operator.
    PresentUrl(String),
    /// Listen for the single redirect request.
    AwaitRedirect,
    /// Exchange this code, with this verifier, at the token endpoint.
    ExchangeCode { code: String, verifier: String },
    /// Nothing is left to do.
    Finish,
}

pub enum EventView {
    Begin { verifier: Seq<char>, csrf: Seq<char>, valid: bool },
    UrlPresented,
    Redirect(Seq<char>),
    ListenerFailed(Seq<char>),
    TokenGranted(Seq<char>),
    ExchangeFailed(Seq<char>),
}

pub enum ActionView {
    Generate,
    PresentUrl(Seq<char>),
    AwaitRedirect,
    ExchangeCode { code: Seq<char>, verifier: Seq<char> },
    Finish,
}

impl View for FlowEvent {
    type V = EventView;

    open spec fn view(&self) -> EventView {
        match self {
            FlowEvent::Begin(p) => EventView::Begin {
                verifier: p.verifier@,
                csrf: p.csrf_token@,
                valid: is_valid_verifier(p.verifier@),
            },
            FlowEvent::UrlPresented => EventView::UrlPresented,
            FlowEvent::Redirect(l) => EventView::Redirect(l@),
            FlowEvent::ListenerFailed(m) => EventView::ListenerFailed(m@),
            FlowEvent::TokenGranted(t) => EventView::TokenGranted(t@),
            FlowEvent::ExchangeFailed(m) => EventView::ExchangeFailed(m@),
        }
    }
}

impl View for FlowAction {
    type V = ActionView;

    open spec fn view(&self) -> ActionView {
        match self {
            FlowAction::Generate => ActionView::Generate,
            FlowAction::PresentUrl(u) => ActionView::PresentUrl(u@),
            FlowAction::AwaitRedirect => ActionView::AwaitRedirect,
            FlowAction::ExchangeCode { code, verifier } => ActionView::ExchangeCode {
                code: code@,
                verifier: verifier@,
            },
            FlowAction::Finish => ActionView::Finish,
        }
    }
}

/// The mathematical value of an [`AuthorizationFlow`].
pub struct FlowView {
    pub state: FlowState,
    pub secrets: SecretsView,
    pub verifier: Seq<char>,
    pub csrf: Seq<char>,
    pub authorize_url: Seq<char>,
    pub code: Seq<char>,
    pub error: Option<ErrorView>,
}

/// A one-shot login by authorization code with PKCE. It decides; its driver
/// shows the URL, listens for the redirect and calls the token endpoint, and
/// hands back what came of each.
pub struct AuthorizationFlow {
    state: FlowState,
    secrets: OauthSecrets,
    verifier: String,
    csrf: String,
    authorize_url: String,
    code: String,
    error: Option<ServiceError>,
}

impl View for AuthorizationFlow {
    type V = FlowView;

    closed spec fn view(&self) -> FlowView {
        FlowView {
            state: self.state,
            secrets: self.secrets@,
            verifier: self.verifier@,
            csrf: self.csrf@,
            authorize_url: self.authorize_url@,
            code: self.code@,
            error: match self.error {
                Some(e) => Some(e@),
                None => None,
            },
        }
    }
}

/// A login for `secrets` before anything is generated.
pub open spec fn flow_init(secrets: SecretsView) -> FlowView {
    FlowView {
        state: FlowState::Init,
        secrets,
        verifier: Seq::empty(),
        csrf: Seq::empty(),
        authorize_url: Seq::empty(),
        code: Seq::empty(),
        error: None,
    }
}

/// The flow that fails with `e`, keeping the secrets as given.
pub open spec fn failed(v: FlowView, e: ErrorView) -> FlowView {
    FlowView { state: FlowState::Failed, error: Some(e), ..v }
}

/// How a login moves on an event. An event that does not fit the stage
/// changes nothing.
pub open spec fn flow_next(v: FlowView, e: EventView) -> FlowView {
    match (v.state, e) {
        (FlowState::Init, EventView::Begin { verifier, csrf, valid }) => {
            if !valid {
                v
            } else if !parses_as_url(v.secrets.auth_url) {
                failed(v, ErrorView::InvalidConfig(ConfigField::AuthUrl))
            } else if !parses_as_url(v.secrets.token_url) {
                failed(v, ErrorView::InvalidConfig(ConfigField::TokenUrl))
            } else if !parses_as_url(v.secrets.redirect_url) {
                failed(v, ErrorView::InvalidConfig(ConfigField::RedirectUrl))
            } else {
                FlowView {
                    state: FlowState::ChallengeGenerated,
                    verifier,
                    csrf,
                    authorize_url: authorize_url_of(
                        v.secrets.client_id,
                        v.secrets.auth_url,
                        v.secrets.redirect_url,
                        YOUTUBE_SCOPE@,
                        verifier,
                        csrf,
                    ),
                    ..v
                }
            }
        },
        (FlowState::ChallengeGenerated, EventView::UrlPresented) => FlowView {
            state: FlowState::RedirectIssued,
            ..v
        },
        (FlowState::RedirectIssued, EventView::Redirect(line)) => match callback_of(line) {
            Err(f) => failed(v, ErrorView::MalformedCallback(f)),
            Ok((code, state)) => if state != v.csrf {
                failed(v, ErrorView::CsrfMismatch)
            } else {
                FlowView { state: FlowState::CodeReceived, code, ..v }
            },
        },
        (FlowState::RedirectIssued, EventView::ListenerFailed(m)) => failed(
            v,
            ErrorView::Transport(m),
        ),
        (FlowState::CodeReceived, EventView::TokenGranted(t)) => if t.len() == 0 {
            failed(v, ErrorView::EmptyAccessToken)
        } else {
            FlowView {
                state: FlowState::Complete,
                secrets: SecretsView { access_token: t, ..v.secrets },
                ..v
            }
        },
        (FlowState::CodeReceived, EventView::ExchangeFailed(m)) => failed(
            v,
            ErrorView::TokenRejected(m),
        ),
        _ => v,
    }
}

/// What the driver is to do in a given stage.
pub open spec fn pending_action(v: FlowView) -> ActionView {
    match v.state {
        FlowState::Init => ActionView::Generate,
        FlowState::ChallengeGenerated => ActionView::PresentUrl(v.authorize_url),
        FlowState::RedirectIssued => ActionView::AwaitRedirect,
        FlowState::CodeReceived => ActionView::ExchangeCode { code: v.code, verifier: v.verifier },
        _ => ActionView::Finish,
    }
}

impl AuthorizationFlow {
    /// The internal invariant: an error exactly when failed, and a verifier
    /// of acceptable form once one is generated.
    pub closed spec fn wf(&self) -> bool {
        &&& (self.state == FlowState::Failed) == (self.error is Some)
        &&& self.state != FlowState::Init && self.state != FlowState::Failed ==> is_valid_verifier(
            self.verifier@,
        )
    }

    /// A login for `secrets`, before anything is generated.
    pub fn new(secrets: OauthSecrets) -> (r: AuthorizationFlow)
        ensures
            r.wf(),
            r@ == flow_init(secrets@),
    {
        AuthorizationFlow {
            state: FlowState::Init,
            secrets,
            verifier: String::new(),
            csrf: String::new(),
            authorize_url: String::new(),
            code: String::new(),
            error: None,
        }
    }

    /// The stage the login is in.
    pub fn state(&self) -> (r: FlowState)
        ensures
            r == self@.state,
    {
        self.state
    }

    /// Whether the login is over.
    pub fn is_finished(&self) -> (r: bool)
        ensures
            r == (self@.state == FlowState::Complete || self@.state == FlowState::Failed),
    {
        self.state == FlowState::Complete || self.state == FlowState::Failed
    }

    /// What the driver is to do next.
    pub fn pending(&self) -> (r: FlowAction)
        ensures
            r@ == pending_action(self@),
    {
        match self.state {
            FlowState::Init => FlowAction::Generate,
            FlowState::ChallengeGenerated => FlowAction::PresentUrl(self.authorize_url.clone()),
            FlowState::RedirectIssued => FlowAction::AwaitRedirect,
            FlowState::CodeReceived => FlowAction::ExchangeCode {
                code: self.code.clone(),
                verifier: self.verifier.clone(),
            },
            _ => FlowAction::Finish,
        }
    }

    fn fail(&mut self, e: ServiceError)
        ensures
            final(self)@ == failed(old(self)@, e@),
    {
        self.state = FlowState::Failed;
        self.error = Some(e);
    }

    /// Moves the login on an event, and says what to do next.
    pub fn step(&mut self, event: FlowEvent) -> (r: FlowAction)
        requires
            old(self).wf(),
        ensures
            final(self).wf(),
            final(self)@ == flow_next(old(self)@, event@),
            r@ == pending_action(final(self)@),
    {
        match (self.state, event) {
            (FlowState::Init, FlowEvent::Begin(pkce)) => {
                if !crate::pkce::valid_verifier(pkce.verifier.as_str()) {
                } else if !url_parses(self.secrets.auth_url.as_str()) {
                    self.fail(ServiceError::InvalidConfig(ConfigField::AuthUrl));
                } else if !url_parses(self.secrets.token_url.as_str()) {
                    self.fail(ServiceError::InvalidConfig(ConfigField::TokenUrl));
                } else {
                    match authorization_url(
                        self.secrets.client_id.as_str(),
                        self.secrets.auth_url.as_str(),
                        self.secrets.redirect_url.as_str(),
                        YOUTUBE_SCOPE,
                        pkce.verifier.as_str(),
                        pkce.csrf_token.as_str(),
                    ) {
                        None => {
                            self.fail(ServiceError::InvalidConfig(ConfigField::RedirectUrl));
                        },
                        Some(u) => {
                            self.state = FlowState::ChallengeGenerated;
                            self.verifier = pkce.verifier;
                            self.csrf = pkce.csrf_token;
                            self.authorize_url = u;
                        },
                    }
                }
            },
            (FlowState::ChallengeGenerated, FlowEvent::UrlPresented) => {
                self.state = FlowState::RedirectIssued;
            },
            (FlowState::RedirectIssued, FlowEvent::Redirect(line)) => {
                match parse_callback(line.as_str()) {
                    Err(e) => {
                        self.fail(e);
                    },
                    Ok((code, state)) => {
                        if !(state == self.csrf) {
                            self.fail(ServiceError::CsrfMismatch);
                        } else {
                            self.state = FlowState::CodeReceived;
                            self.code = code;
                        }
                    },
                }
            },
            (FlowState::RedirectIssued, FlowEvent::ListenerFailed(m)) => {
                self.fail(ServiceError::Transport(m));
            },
            (FlowState::CodeReceived, FlowEvent::TokenGranted(t)) => {
                if t.unicode_len() == 0 {
                    self.fail(ServiceError::EmptyAccessToken);
                } else {
                    self.state = FlowState::Complete;
                    self.secrets.access_token = t;
                }
            },
            (FlowState::CodeReceived, FlowEvent::ExchangeFailed(m)) => {
                self.fail(ServiceError::TokenRejected(m));
            },
            _ => {},
        }
        self.pending()
    }

    /// What a finished login came to: the secrets with their access token, or
    /// the error, the secrets left as they were.
    pub fn finish(self) -> (r: Result<OauthSecrets, ServiceError>)
        requires
            self.wf(),
            self@.state == FlowState::Complete || self@.state == FlowState::Failed,
        ensures
            self@.state == FlowState::Complete ==> (r matches Ok(x) && x@ == self@.secrets),
            self@.state == FlowState::Failed ==> (r matches Err(x) && self@.error == Some(x@)),
    {
        match self.error {
            Some(e) => Err(e),
            None => Ok(self.secrets),
        }
    }
}

/// The login after the given events, in order.
pub open spec fn run_flow(v: FlowView, events: Seq<EventView>) -> FlowView
    decreases events.len(),
{
    if events.len() == 0 {
        v
    } else {
        flow_next(run_flow(v, events.drop_last()), events.last())
    }
}

/// A finished login stays as it is, whatever events follow.
pub proof fn lemma_finished_flow_is_final(v: FlowView, events: Seq<EventView>)
    requires
        v.state == FlowState::Complete || v.state == FlowState::Failed,
    ensures
        run_flow(v, events) == v,
    decreases events.len(),
{
    if events.len() > 0 {
        lemma_finished_flow_is_final(v, events.drop_last());
    }
}

/// A redirect whose state differs from the CSRF token that was sent fails
/// the login with a security error. Whatever follows, the login stays
/// failed: it never reaches an exchange of the code, never asks for one, and
/// the secrets keep the access token they had.
pub proof fn lemma_csrf_mismatch_aborts(v: FlowView, line: Seq<char>, later: Seq<EventView>)
    requires
        v.state == FlowState::RedirectIssued,
        callback_of(line) matches Ok((code, state)) && state != v.csrf,
    ensures
        ({
            let w = flow_next(v, EventView::Redirect(line));
            &&& w.state == FlowState::Failed
            &&& w.error == Some(ErrorView::CsrfMismatch)
            &&& w.error->Some_0.kind() == ErrorKind::Security
            &&& run_flow(w, later) == w
            &&& pending_action(run_flow(w, later)) == ActionView::Finish
            &&& run_flow(w, later).secrets == v.secrets
        }),
{
    lemma_finished_flow_is_final(flow_next(v, EventView::Redirect(line)), later);
}

/// The secrets change only when the login completes, and then only by the
/// access token, which is the non-empty token granted.
pub proof fn lemma_secrets_change_only_on_completion(v: FlowView, e: EventView)
    ensures
        ({
            let w = flow_next(v, e);
            &&& w.state != FlowState::Complete || v.state == FlowState::Complete ==> w.secrets
                == v.secrets
            &&& w.state == FlowState::Complete && v.state != FlowState::Complete ==> {
                &&& v.state == FlowState::CodeReceived
                &&& e matches EventView::TokenGranted(t)
                &&& t.len() > 0
                &&& w.secrets == SecretsView { access_token: t, ..v.secrets }
            }
        }),
{
}

/// A login that has not completed, after any run of events that does not
/// complete it, holds the secrets it was given: a failed login leaves no
/// access token behind.
pub proof fn lemma_secrets_kept_until_completion(v: FlowView, events: Seq<EventView>)
    requires
        v.state != FlowState::Complete,
    ensures
        run_flow(v, events).state != FlowState::Complete ==> run_flow(v, events).secrets
            == v.secrets,
    decreases events.len(),
{
    if events.len() > 0 {
        let prev = run_flow(v, events.drop_last());
        lemma_secrets_kept_until_completion(v, events.drop_last());
        lemma_secrets_change_only_on_completion(prev, events.last());
    }
}

/// Starts logins: each one with a fresh PKCE pair and CSRF token.
#[derive(Debug, Default)]
pub struct OAuth2Service {}

impl OAuth2Service {
    /// A login for `secrets` with freshly generated PKCE pair and CSRF token,
    /// moved past generation: it either presents its authorization URL or
    /// has failed on the configuration.
    pub fn start(secrets: OauthSecrets) -> (r: (AuthorizationFlow, FlowAction))
        ensures
            r.0.wf(),
            r.1@ == pending_action(r.0@),
            exists|verifier: Seq<char>, csrf: Seq<char>|
                {
                    &&& verifier.len() == 43
                    &&& is_valid_verifier(verifier)
                    &&& csrf.len() == 22
                    &&& is_base64url(csrf)
                    &&& r.0@ == #[trigger] flow_next(
                        flow_init(secrets@),
                        EventView::Begin { verifier, csrf, valid: true },
                    )
                },
    {
        let mut flow = AuthorizationFlow::new(secrets);
        let pkce = PkceChallenge::generate();
        let ghost e = FlowEvent::Begin(pkce)@;
        let action = flow.step(FlowEvent::Begin(pkce));
        proof {
            assert(e == EventView::Begin {
                verifier: pkce.verifier@,
                csrf: pkce.csrf_token@,
                valid: true,
            });
        }
        (flow, action)
    }
}

} // verus!

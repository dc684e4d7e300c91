use vstd::prelude::*;

verus! {

/// The family an error belongs to.
#[derive(Clone, Copy, Debug, PartialEq, Eq, Structural)]
pub enum ErrorKind {
    /// The network or the local listener failed.
    Transport,
    /// The remote side answered, but not with success.
    Protocol,
    /// A reply or a redirect could not be read.
    Parse,
    /// The redirect does not belong to the request that was issued.
    Security,
    /// A required configuration value is missing or invalid.
    Configuration,
}

/// A configuration value that the authorization flow checks.
#[derive(Clone, Copy, Debug, PartialEq, Eq, Structural)]
pub enum ConfigField {
    AuthUrl,
    TokenUrl,
    RedirectUrl,
}

/// What was wrong with the redirect request that reached the listener.
#[derive(Clone, Copy, Debug, PartialEq, Eq, Structural)]
pub enum CallbackFault {
    /// The request line has no request target.
    MissingTarget,
    /// The request target does not form a URL.
    InvalidUrl,
    /// The query has no `code` parameter.
    MissingCode,
    /// The query has no `state` parameter.
    MissingState,
}

/// Every failure that the library reports.
#[derive(Clone, Debug, PartialEq, Eq)]
pub enum ServiceError {
    Transport(String),
    HttpStatus { status: u16, body: String },
    ApiError { body: String },
    MalformedJson(String),
    MalformedCallback(CallbackFault),
    CsrfMismatch,
    InvalidConfig(ConfigField),
    TokenRejected(String),
    EmptyAccessToken,
}

/// The mathematical value of a [`ServiceError`].
pub enum ErrorView {
    Transport(Seq<char>),
    HttpStatus { status: u16, body: Seq<char> },
    ApiError { body: Seq<char> },
    MalformedJson(Seq<char>),
    MalformedCallback(CallbackFault),
    CsrfMismatch,
    InvalidConfig(ConfigField),
    TokenRejected(Seq<char>),
    EmptyAccessToken,
}

impl ErrorView {
    pub open spec fn kind(self) -> ErrorKind {
        match self {
            ErrorView::Transport(_) => ErrorKind::Transport,
            ErrorView::HttpStatus { .. } => ErrorKind::Protocol,
            ErrorView::ApiError { .. } => ErrorKind::Protocol,
            ErrorView::MalformedJson(_) => ErrorKind::Parse,
            ErrorView::MalformedCallback(_) => ErrorKind::Parse,
            ErrorView::CsrfMismatch => ErrorKind::Security,
            ErrorView::InvalidConfig(_) => ErrorKind::Configuration,
            ErrorView::TokenRejected(_) => ErrorKind::Protocol,
            ErrorView::EmptyAccessToken => ErrorKind::Protocol,
        }
    }
}

impl View for ServiceError {
    type V = ErrorView;

    open spec fn view(&self) -> ErrorView {
        match self {
            ServiceError::Transport(m) => ErrorView::Transport(m@),
            ServiceError::HttpStatus { status, body } => ErrorView::HttpStatus {
                status: *status,
                body: body@,
            },
            ServiceError::ApiError { body } => ErrorView::ApiError { body: body@ },
            ServiceError::MalformedJson(m) => ErrorView::MalformedJson(m@),
            ServiceError::MalformedCallback(f) => ErrorView::MalformedCallback(*f),
            ServiceError::CsrfMismatch => ErrorView::CsrfMismatch,
            ServiceError::InvalidConfig(c) => ErrorView::InvalidConfig(*c),
            ServiceError::TokenRejected(m) => ErrorView::TokenRejected(m@),
            ServiceError::EmptyAccessToken => ErrorView::EmptyAccessToken,
        }
    }
}

impl ServiceError {
    /// The family of this error.
    pub fn kind(&self) -> (k: ErrorKind)
        ensures
            k == self@.kind(),
    {
        match self {
            ServiceError::Transport(_) => ErrorKind::Transport,
            ServiceError::HttpStatus { .. } => ErrorKind::Protocol,
            ServiceError::ApiError { .. } => ErrorKind::Protocol,
            ServiceError::MalformedJson(_) => ErrorKind::Parse,
            ServiceError::MalformedCallback(_) => ErrorKind::Parse,
            ServiceError::CsrfMismatch => ErrorKind::Security,
            ServiceError::InvalidConfig(_) => ErrorKind::Configuration,
            ServiceError::TokenRejected(_) => ErrorKind::Protocol,
            ServiceError::EmptyAccessToken => ErrorKind::Protocol,
        }
    }
}

} // verus!

//! OAuth2 (authorization code with PKCE) login, cursor-paginated listing and
//! batch channel subscription against a REST API, as verified state machines.
//!
//! Network and socket work is left to the caller: each machine hands out the
//! request to perform and takes back what came of it.

pub mod callback;
pub mod error;
pub mod flow;
pub mod json;
pub mod models;
pub mod paging;
pub mod pkce;
pub mod subscription;
pub mod text;

pub use callback::{parse_callback, request_target};
pub use error::{CallbackFault, ConfigField, ErrorKind, ServiceError};
pub use flow::{AuthorizationFlow, FlowAction, FlowEvent, FlowState, OAuth2Service, YOUTUBE_SCOPE};
pub use json::{check_reply, judge, JsonObject};
pub use models::{
    FailedYoutubeSubscription, OauthSecrets, YouTubeChannel, YouTubeSubscriptionResult,
};
pub use paging::{FetchStatus, PageBody, PageFetcher};
pub use pkce::{valid_verifier, PkceChallenge};
pub use subscription::{
    subscribe_request, subscription_outcome, BatchSubscriber, SubscribeRequest,
};
pub use text::decimal;

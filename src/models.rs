use vstd::prelude::*;

use crate::error::{ErrorView, ServiceError};

verus! {

/// The OAuth client configuration, and the access token once a login
/// completed.
#[derive(Clone, Debug, Default)]
pub struct OauthSecrets {
    pub client_id: String,
    pub client_secret: String,
    pub auth_url: String,
    pub token_url: String,
    pub redirect_url: String,
    pub access_token: String,
}

/// The mathematical value of an [`OauthSecrets`].
pub struct SecretsView {
    pub client_id: Seq<char>,
    pub client_secret: Seq<char>,
    pub auth_url: Seq<char>,
    pub token_url: Seq<char>,
    pub redirect_url: Seq<char>,
    pub access_token: Seq<char>,
}

impl View for OauthSecrets {
    type V = SecretsView;

    open spec fn view(&self) -> SecretsView {
        SecretsView {
            client_id: self.client_id@,
            client_secret: self.client_secret@,
            auth_url: self.auth_url@,
            token_url: self.token_url@,
            redirect_url: self.redirect_url@,
            access_token: self.access_token@,
        }
    }
}

/// A channel to subscribe to.
#[derive(Clone, Debug, Default)]
pub struct YouTubeChannel {
    pub channel_url: String,
    pub channel_id: String,
    pub channel_title: String,
}

/// The mathematical value of a [`YouTubeChannel`].
pub struct ChannelView {
    pub url: Seq<char>,
    pub id: Seq<char>,
    pub title: Seq<char>,
}

impl View for YouTubeChannel {
    type V = ChannelView;

    open spec fn view(&self) -> ChannelView {
        ChannelView { url: self.channel_url@, id: self.channel_id@, title: self.channel_title@ }
    }
}

/// A channel whose subscription failed, with the reason.
#[derive(Debug)]
pub struct FailedYoutubeSubscription {
    pub channel_url: String,
    pub channel_id: String,
    pub error: ServiceError,
}

/// The mathematical value of a [`FailedYoutubeSubscription`].
pub struct FailureView {
    pub url: Seq<char>,
    pub id: Seq<char>,
    pub error: ErrorView,
}

impl View for FailedYoutubeSubscription {
    type V = FailureView;

    open spec fn view(&self) -> FailureView {
        FailureView { url: self.channel_url@, id: self.channel_id@, error: self.error@ }
    }
}

/// The failure entry for `channel`.
pub open spec fn failure_of(channel: ChannelView, error: ErrorView) -> FailureView {
    FailureView { url: channel.url, id: channel.id, error }
}

/// The outcome of a batch of subscriptions: how many were asked for, how many
/// succeeded, and the failures in the order of the input.
#[derive(Debug, Default)]
pub struct YouTubeSubscriptionResult {
    pub expected: usize,
    pub successful: usize,
    pub failed: Vec<FailedYoutubeSubscription>,
}

/// The mathematical value of a [`YouTubeSubscriptionResult`].
pub struct ResultView {
    pub expected: nat,
    pub successful: nat,
    pub failed: Seq<FailureView>,
}

impl View for YouTubeSubscriptionResult {
    type V = ResultView;

    open spec fn view(&self) -> ResultView {
        ResultView {
            expected: self.expected as nat,
            successful: self.successful as nat,
            failed: self.failed@.map_values(|f: FailedYoutubeSubscription| f@),
        }
    }
}

impl ResultView {
    /// Every expected item has been accounted for.
    pub open spec fn complete(self) -> bool {
        self.expected == self.successful + self.failed.len()
    }
}

impl YouTubeSubscriptionResult {
    /// An empty tally for `expected` items.
    pub fn new(expected: usize) -> (r: YouTubeSubscriptionResult)
        ensures
            r@ == (ResultView { expected: expected as nat, successful: 0, failed: Seq::empty() }),
    {
        let r = YouTubeSubscriptionResult { expected, successful: 0, failed: Vec::new() };
        assert(r@.failed =~= Seq::<FailureView>::empty());
        r
    }

    /// Counts one success.
    pub fn record_success(&mut self)
        requires
            old(self).successful < usize::MAX,
        ensures
            final(self)@ == (ResultView { successful: old(self)@.successful + 1, ..old(self)@ }),
    {
        self.successful = self.successful + 1;
    }

    /// Appends the failure of `channel`.
    pub fn record_failure(&mut self, channel: &YouTubeChannel, error: ServiceError)
        ensures
            final(self)@ == (ResultView {
                failed: old(self)@.failed.push(failure_of(channel@, error@)),
                ..old(self)@
            }),
    {
        let f = FailedYoutubeSubscription {
            channel_url: channel.channel_url.clone(),
            channel_id: channel.channel_id.clone(),
            error,
        };
        self.failed.push(f);
        assert(self@.failed =~= old(self)@.failed.push(failure_of(channel@, error@)));
    }

    /// Whether every expected item has been accounted for.
    pub fn is_complete(&self) -> (r: bool)
        ensures
            r == self@.complete(),
    {
        self.successful as u128 + self.failed.len() as u128 == self.expected as u128
    }
}

} // verus!

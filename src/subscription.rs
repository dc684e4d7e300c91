use vstd::prelude::*;

use crate::error::{ErrorView, ServiceError};
use crate::json::{
    check_reply, clean_reply, is_success, json_object_text, json_string_literal, json_text_keys,
    protocol_rejection, quote,
};
use crate::models::{
    failure_of, ChannelView, FailureView, OauthSecrets, ResultView, YouTubeChannel,
    YouTubeSubscriptionResult,
};

verus! {

/// An HTTP POST to perform: where, with which headers, and with which body.
pub struct SubscribeRequest {
    pub url: String,
    pub headers: Vec<(String, String)>,
    pub body: String,
}

/// The mathematical value of a [`SubscribeRequest`].
pub struct RequestView {
    pub url: Seq<char>,
    pub headers: Seq<(Seq<char>, Seq<char>)>,
    pub body: Seq<char>,
}

impl View for SubscribeRequest {
    type V = RequestView;

    open spec fn view(&self) -> RequestView {
        RequestView {
            url: self.url@,
            headers: self.headers@.map_values(|h: (String, String)| (h.0@, h.1@)),
            body: self.body@,
        }
    }
}

/// The request that subscribes the holder of `access_token` to `channel_id`.
pub open spec fn subscribe_request_of(api_key: Seq<char>, channel_id: Seq<char>, access_token: Seq<char>) -> RequestView {
    RequestView {
        url: "https://youtube.googleapis.com/youtube/v3/subscriptions?part=snippet&key="@ + api_key,
        headers: seq![
            ("Authorization"@, "Bearer "@ + access_token),
            ("Accept"@, "application/json"@),
            ("Content-Type"@, "application/json"@),
        ],
        body: "{\"snippet\":{\"resourceId\":{\"kind\":\"youtube#channel\",\"channelId\":"@
            + json_string_literal(channel_id) + "}}}"@,
    }
}

/// Builds the request that subscribes to `channel`.
pub fn subscribe_request(api_key: &str, channel: &YouTubeChannel, access_token: &str) -> (r: SubscribeRequest)
    ensures
        r@ == subscribe_request_of(api_key@, channel@.id, access_token@),
{
    let mut url = String::from_str(
        "https://youtube.googleapis.com/youtube/v3/subscriptions?part=snippet&key=",
    );
    url.append(api_key);
    let mut bearer = String::from_str("Bearer ");
    bearer.append(access_token);
    let mut headers: Vec<(String, String)> = Vec::new();
    headers.push((String::from_str("Authorization"), bearer));
    headers.push((String::from_str("Accept"), String::from_str("application/json")));
    headers.push((String::from_str("Content-Type"), String::from_str("application/json")));
    let mut body = String::from_str(
        "{\"snippet\":{\"resourceId\":{\"kind\":\"youtube#channel\",\"channelId\":",
    );
    let id = quote(channel.channel_id.as_str());
    body.append(id.as_str());
    body.append("}}}");
    let r = SubscribeRequest { url, headers, body };
    assert(r@.headers =~= subscribe_request_of(api_key@, channel@.id, access_token@).headers);
    r
}

/// The outcome of one subscription, as a view: `None` for success.
pub open spec fn outcome_view(r: Result<(), ServiceError>) -> Option<ErrorView> {
    match r {
        Ok(_) => None,
        Err(e) => Some(e@),
    }
}

/// The tally of a batch after the first `outcomes.len()` channels: each
/// success counted, each failure appended in turn.
pub open spec fn tally(channels: Seq<ChannelView>, outcomes: Seq<Option<ErrorView>>) -> ResultView
    decreases outcomes.len(),
{
    if outcomes.len() == 0 {
        ResultView { expected: channels.len(), successful: 0, failed: Seq::empty() }
    } else {
        let prev = tally(channels, outcomes.drop_last());
        match outcomes.last() {
            None => ResultView { successful: prev.successful + 1, ..prev },
            Some(e) => ResultView {
                failed: prev.failed.push(failure_of(channels[outcomes.len() - 1], e)),
                ..prev
            },
        }
    }
}

/// The mathematical value of a [`BatchSubscriber`].
pub struct BatchView {
    pub api_key: Seq<char>,
    pub access_token: Seq<char>,
    pub channels: Seq<ChannelView>,
    pub outcomes: Seq<Option<ErrorView>>,
}

/// Subscribes to a list of channels one after the other, in input order,
/// with one access token for the whole batch. A failed item is recorded and
/// the batch goes on.
pub struct BatchSubscriber {
    api_key: String,
    access_token: String,
    channels: Vec<YouTubeChannel>,
    result: YouTubeSubscriptionResult,
    outcomes: Ghost<Seq<Option<ErrorView>>>,
}

impl View for BatchSubscriber {
    type V = BatchView;

    closed spec fn view(&self) -> BatchView {
        BatchView {
            api_key: self.api_key@,
            access_token: self.access_token@,
            channels: self.channels@.map_values(|c: YouTubeChannel| c@),
            outcomes: self.outcomes@,
        }
    }
}

proof fn lemma_tally_counts(channels: Seq<ChannelView>, outcomes: Seq<Option<ErrorView>>)
    ensures
        tally(channels, outcomes).expected == channels.len(),
        tally(channels, outcomes).successful + tally(channels, outcomes).failed.len()
            == outcomes.len(),
    decreases outcomes.len(),
{
    if outcomes.len() > 0 {
        lemma_tally_counts(channels, outcomes.drop_last());
    }
}

impl BatchSubscriber {
    /// The internal invariant: the tally is that of the outcomes so far, and
    /// there is no outcome beyond the channels.
    pub closed spec fn wf(&self) -> bool {
        &&& self.outcomes@.len() <= self.channels@.len()
        &&& self.result@ == tally(self@.channels, self.outcomes@)
    }

    /// A batch over `channels` that uses the access token of `secrets`.
    pub fn new(api_key: &str, channels: Vec<YouTubeChannel>, secrets: &OauthSecrets) -> (r: BatchSubscriber)
        ensures
            r.wf(),
            r@.api_key == api_key@,
            r@.access_token == secrets.access_token@,
            r@.channels == channels@.map_values(|c: YouTubeChannel| c@),
            r@.outcomes == Seq::<Option<ErrorView>>::empty(),
    {
        let result = YouTubeSubscriptionResult::new(channels.len());
        BatchSubscriber {
            api_key: String::from_str(api_key),
            access_token: secrets.access_token.clone(),
            channels,
            result,
            outcomes: Ghost(Seq::empty()),
        }
    }

    /// Whether every channel has its outcome.
    pub fn is_finished(&self) -> (r: bool)
        requires
            self.wf(),
        ensures
            r == (self@.outcomes.len() == self@.channels.len()),
    {
        proof {
            lemma_tally_counts(self@.channels, self.outcomes@);
        }
        self.result.successful + self.result.failed.len() == self.channels.len()
    }

    /// The request for the next channel, while one is left.
    pub fn next_request(&self) -> (r: Option<SubscribeRequest>)
        requires
            self.wf(),
        ensures
            r is Some <==> self@.outcomes.len() < self@.channels.len(),
            r matches Some(q) ==> q@ == subscribe_request_of(
                self@.api_key,
                self@.channels[self@.outcomes.len() as int].id,
                self@.access_token,
            ),
    {
        proof {
            lemma_tally_counts(self@.channels, self.outcomes@);
        }
        let next = self.result.successful + self.result.failed.len();
        if next < self.channels.len() {
            Some(subscribe_request(self.api_key.as_str(), &self.channels[next], self.access_token.as_str()))
        } else {
            None
        }
    }

    /// Records the outcome of the current channel. Once every channel has
    /// its outcome, nothing changes.
    pub fn record(&mut self, outcome: Result<(), ServiceError>)
        requires
            old(self).wf(),
        ensures
            final(self).wf(),
            final(self)@ == (if old(self)@.outcomes.len() < old(self)@.channels.len() {
                BatchView { outcomes: old(self)@.outcomes.push(outcome_view(outcome)), ..old(self)@ }
            } else {
                old(self)@
            }),
    {
        proof {
            lemma_tally_counts(self@.channels, self.outcomes@);
        }
        let next = self.result.successful + self.result.failed.len();
        if next >= self.channels.len() {
            return;
        }
        let ghost before = self.outcomes@;
        let ghost pushed = before.push(outcome_view(outcome));
        match outcome {
            Ok(()) => {
                self.result.record_success();
            },
            Err(e) => {
                self.result.record_failure(&self.channels[next], e);
            },
        }
        self.outcomes = Ghost(pushed);
        assert(pushed.drop_last() == before);
    }

    /// Records the outcome of the current channel from the reply to its
    /// request: a failing status, a body that is not a JSON object, or a body
    /// with an `error` member is a failure; any other reply is a success.
    pub fn receive(&mut self, status: u16, body: &String)
        requires
            old(self).wf(),
        ensures
            final(self).wf(),
            old(self)@.outcomes.len() == old(self)@.channels.len() ==> final(self)@ == old(self)@,
            old(self)@.outcomes.len() < old(self)@.channels.len() ==> exists|o: Option<ErrorView>|
                {
                    &&& #[trigger] final(self)@ == BatchView {
                        outcomes: old(self)@.outcomes.push(o),
                        ..old(self)@
                    }
                    &&& o is None <==> clean_reply(status, body@)
                    &&& !is_success(status) || (json_object_text(body@) && json_text_keys(
                        body@,
                    ).contains("error"@)) ==> o == Some(protocol_rejection(status, body@))
                    &&& is_success(status) && !json_object_text(body@) ==> (o matches Some(
                        ErrorView::MalformedJson(_),
                    ))
                },
    {
        let outcome = subscription_outcome(status, body);
        let ghost o = outcome_view(outcome);
        self.record(outcome);
        assert(old(self)@.outcomes.len() < old(self)@.channels.len() ==> self@ == BatchView {
            outcomes: old(self)@.outcomes.push(o),
            ..old(self)@
        });
    }

    /// Records that the request for the current channel could not be sent or
    /// answered.
    pub fn receive_failure(&mut self, message: String)
        requires
            old(self).wf(),
        ensures
            final(self).wf(),
            final(self)@ == (if old(self)@.outcomes.len() < old(self)@.channels.len() {
                BatchView {
                    outcomes: old(self)@.outcomes.push(Some(ErrorView::Transport(message@))),
                    ..old(self)@
                }
            } else {
                old(self)@
            }),
    {
        self.record(Err(ServiceError::Transport(message)));
    }

    /// The tally of a finished batch. Its outcomes are those recorded since
    /// `new`, one per channel in input order: the tally expects every
    /// channel, accounts for each, and lists the failing ones in input order.
    pub fn finish(self) -> (r: YouTubeSubscriptionResult)
        requires
            self.wf(),
            self@.outcomes.len() == self@.channels.len(),
        ensures
            r@ == tally(self@.channels, self@.outcomes),
            r@.expected == self@.channels.len(),
            r@.successful + r@.failed.len() == self@.channels.len(),
            exists|idx: Seq<int>| failures_in_order(self@.channels, self@.outcomes, r@.failed, idx),
    {
        let ghost idx = lemma_batch_accounting(self@.channels, self.outcomes@);
        self.result
    }
}

/// The outcome of one subscription from the reply to its request: success
/// exactly when the reply is clean.
pub fn subscription_outcome(status: u16, body: &String) -> (r: Result<(), ServiceError>)
    ensures
        r is Ok <==> clean_reply(status, body@),
        !is_success(status) || (json_object_text(body@) && json_text_keys(body@).contains(
            "error"@,
        )) ==> outcome_view(r) == Some(protocol_rejection(status, body@)),
        is_success(status) && !json_object_text(body@) ==> r matches Err(
            ServiceError::MalformedJson(_),
        ),
{
    match check_reply(status, body) {
        Ok(_) => Ok(()),
        Err(e) => Err(e),
    }
}

/// Whether `idx` lists, in increasing order, exactly the positions of the
/// failed outcomes, and `failed` holds their failure entries in that order.
pub open spec fn failures_in_order(
    channels: Seq<ChannelView>,
    outcomes: Seq<Option<ErrorView>>,
    failed: Seq<FailureView>,
    idx: Seq<int>,
) -> bool {
    &&& idx.len() == failed.len()
    &&& forall|j: int|
        0 <= j < idx.len() ==> {
            &&& 0 <= #[trigger] idx[j] < outcomes.len()
            &&& outcomes[idx[j]] is Some
            &&& failed[j] == failure_of(channels[idx[j]], outcomes[idx[j]]->Some_0)
        }
    &&& forall|j: int, k: int| 0 <= j < k < idx.len() ==> idx[j] < idx[k]
    &&& forall|i: int|
        0 <= i < outcomes.len() && (#[trigger] outcomes[i]) is Some ==> exists|j: int|
            0 <= j < idx.len() && idx[j] == i
}

/// A batch of N channels, whatever fails, accounts for every channel: the
/// tally expects N, its successes and failures add up to N, and its failures
/// are exactly the failing channels, in input order. Returns the positions of
/// the failing channels.
pub proof fn lemma_batch_accounting(channels: Seq<ChannelView>, outcomes: Seq<Option<ErrorView>>) -> (idx: Seq<int>)
    requires
        outcomes.len() == channels.len(),
    ensures
        tally(channels, outcomes).expected == channels.len(),
        tally(channels, outcomes).successful + tally(channels, outcomes).failed.len()
            == channels.len(),
        failures_in_order(channels, outcomes, tally(channels, outcomes).failed, idx),
{
    lemma_tally_counts(channels, outcomes);
    lemma_tally_order(channels, outcomes)
}

proof fn lemma_tally_order(channels: Seq<ChannelView>, outcomes: Seq<Option<ErrorView>>) -> (idx: Seq<int>)
    requires
        outcomes.len() <= channels.len(),
    ensures
        failures_in_order(channels, outcomes, tally(channels, outcomes).failed, idx),
    decreases outcomes.len(),
{
    if outcomes.len() == 0 {
        Seq::empty()
    } else {
        let n = outcomes.len() - 1;
        let prev_o = outcomes.drop_last();
        let prev_idx = lemma_tally_order(channels, prev_o);
        let prev = tally(channels, prev_o);
        assert forall|i: int| 0 <= i < n implies outcomes[i] == prev_o[i] by {}
        match outcomes.last() {
            None => {
                assert forall|i: int|
                    0 <= i < outcomes.len() && (#[trigger] outcomes[i]) is Some implies exists|j: int|
                        0 <= j < prev_idx.len() && prev_idx[j] == i by {
                    assert(prev_o[i] == outcomes[i]);
                }
                prev_idx
            },
            Some(e) => {
                let idx = prev_idx.push(n);
                let failed = tally(channels, outcomes).failed;
                assert(failed == prev.failed.push(failure_of(channels[n], e)));
                assert forall|j: int| 0 <= j < idx.len() implies {
                    &&& 0 <= #[trigger] idx[j] < outcomes.len()
                    &&& outcomes[idx[j]] is Some
                    &&& failed[j] == failure_of(channels[idx[j]], outcomes[idx[j]]->Some_0)
                } by {
                    if j < prev_idx.len() {
                        assert(idx[j] == prev_idx[j]);
                        assert(prev_o[prev_idx[j]] == outcomes[prev_idx[j]]);
                    }
                }
                assert forall|i: int|
                    0 <= i < outcomes.len() && (#[trigger] outcomes[i]) is Some implies exists|j: int|
                        0 <= j < idx.len() && idx[j] == i by {
                    if i < n {
                        assert(prev_o[i] == outcomes[i]);
                        let j = choose|j: int| 0 <= j < prev_idx.len() && prev_idx[j] == i;
                        assert(idx[j] == i);
                    } else {
                        assert(idx[idx.len() - 1] == i);
                    }
                }
                idx
            },
        }
    }
}

} // verus!

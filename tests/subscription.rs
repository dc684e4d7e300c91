use yt_subscriber::{
    subscribe_request, subscription_outcome, BatchSubscriber, ErrorKind, OauthSecrets,
    ServiceError, YouTubeChannel, YouTubeSubscriptionResult,
};

fn channel(n: u32) -> YouTubeChannel {
    YouTubeChannel {
        channel_url: format!("https://www.youtube.com/channel/UC{}", n),
        channel_id: format!("UC{}", n),
        channel_title: format!("Channel {}", n),
    }
}

fn secrets_with_token(token: &str) -> OauthSecrets {
    OauthSecrets { access_token: token.to_string(), ..Default::default() }
}

#[test]
fn second_of_three_fails() {
    let channels = vec![channel(1), channel(2), channel(3)];
    let mut batch = BatchSubscriber::new("KEY", channels, &secrets_with_token("tok"));
    batch.receive(200, &r#"{"kind":"youtube#subscription"}"#.to_string());
    batch.receive(200, &r#"{"error":{"code":400}}"#.to_string());
    batch.receive(200, &"{}".to_string());
    assert!(batch.is_finished());
    let result = batch.finish();
    assert_eq!(result.expected, 3);
    assert_eq!(result.successful, 2);
    assert_eq!(result.failed.len(), 1);
    assert_eq!(result.failed[0].channel_id, "UC2");
    assert_eq!(result.failed[0].channel_url, "https://www.youtube.com/channel/UC2");
    assert_eq!(result.failed[0].error.kind(), ErrorKind::Protocol);
}

#[test]
fn failures_keep_input_order() {
    let channels: Vec<YouTubeChannel> = (1..=5).map(channel).collect();
    let mut batch = BatchSubscriber::new("KEY", channels, &secrets_with_token("tok"));
    batch.record(Err(ServiceError::Transport("a".to_string())));
    batch.record(Ok(()));
    batch.receive_failure("c".to_string());
    batch.receive(503, &"busy".to_string());
    batch.record(Ok(()));
    let result = batch.finish();
    assert_eq!(result.expected, 5);
    assert_eq!(result.successful + result.failed.len(), 5);
    let ids: Vec<&str> = result.failed.iter().map(|f| f.channel_id.as_str()).collect();
    assert_eq!(ids, vec!["UC1", "UC3", "UC4"]);
    assert_eq!(
        result.failed[2].error,
        ServiceError::HttpStatus { status: 503, body: "busy".to_string() }
    );
}

#[test]
fn all_fail_still_returns_summary() {
    let channels: Vec<YouTubeChannel> = (1..=3).map(channel).collect();
    let mut batch = BatchSubscriber::new("KEY", channels, &secrets_with_token("expired"));
    while batch.next_request().is_some() {
        batch.receive(401, &"unauthorized".to_string());
    }
    let result = batch.finish();
    assert_eq!((result.expected, result.successful, result.failed.len()), (3, 0, 3));
    assert!(result.is_complete());
}

#[test]
fn empty_batch_is_finished_at_once() {
    let batch = BatchSubscriber::new("KEY", Vec::new(), &secrets_with_token("tok"));
    assert!(batch.is_finished());
    assert!(batch.next_request().is_none());
    let result = batch.finish();
    assert_eq!((result.expected, result.successful, result.failed.len()), (0, 0, 0));
}

#[test]
fn outcomes_beyond_the_batch_change_nothing() {
    let mut batch = BatchSubscriber::new("KEY", vec![channel(1)], &secrets_with_token("tok"));
    batch.record(Ok(()));
    batch.record(Err(ServiceError::Transport("late".to_string())));
    let result = batch.finish();
    assert_eq!((result.successful, result.failed.len()), (1, 0));
}

#[test]
fn requests_follow_input_order() {
    let mut batch =
        BatchSubscriber::new("KEY", vec![channel(7), channel(8)], &secrets_with_token("tok"));
    assert!(batch.next_request().unwrap().body.contains("\"UC7\""));
    batch.record(Ok(()));
    assert!(batch.next_request().unwrap().body.contains("\"UC8\""));
    batch.record(Ok(()));
    assert!(batch.next_request().is_none());
}

#[test]
fn subscribe_request_exact() {
    let r = subscribe_request("KEY", &channel(42), "ya29.token");
    assert_eq!(
        r.url,
        "https://youtube.googleapis.com/youtube/v3/subscriptions?part=snippet&key=KEY"
    );
    assert_eq!(
        r.headers,
        vec![
            ("Authorization".to_string(), "Bearer ya29.token".to_string()),
            ("Accept".to_string(), "application/json".to_string()),
            ("Content-Type".to_string(), "application/json".to_string()),
        ]
    );
    assert_eq!(
        r.body,
        r#"{"snippet":{"resourceId":{"kind":"youtube#channel","channelId":"UC42"}}}"#
    );
}

#[test]
fn subscribe_request_escapes_channel_id() {
    let mut c = channel(1);
    c.channel_id = "a\"b\\c".to_string();
    let r = subscribe_request("KEY", &c, "t");
    assert_eq!(
        r.body,
        r#"{"snippet":{"resourceId":{"kind":"youtube#channel","channelId":"a\"b\\c"}}}"#
    );
    let parsed: serde_json::Value = serde_json::from_str(&r.body).unwrap();
    assert_eq!(parsed["snippet"]["resourceId"]["channelId"], "a\"b\\c");
}

#[test]
fn subscribe_request_escapes_control_characters() {
    let mut c = channel(1);
    c.channel_id = "a\u{1}\tb\u{1f}\u{7f}\u{e9}".to_string();
    let r = subscribe_request("KEY", &c, "t");
    assert_eq!(
        r.body,
        "{\"snippet\":{\"resourceId\":{\"kind\":\"youtube#channel\",\"channelId\":\"a\\u0001\\tb\\u001f\u{7f}\u{e9}\"}}}"
    );
}

#[test]
fn subscription_outcome_cases() {
    assert!(subscription_outcome(200, &"{}".to_string()).is_ok());
    assert_eq!(
        subscription_outcome(200, &r#"{"error":"x"}"#.to_string()),
        Err(ServiceError::ApiError { body: r#"{"error":"x"}"#.to_string() })
    );
    assert_eq!(
        subscription_outcome(403, &"no".to_string()),
        Err(ServiceError::HttpStatus { status: 403, body: "no".to_string() })
    );
    assert!(matches!(
        subscription_outcome(200, &"not json".to_string()),
        Err(ServiceError::MalformedJson(_))
    ));
}

#[test]
fn aggregator_counts() {
    let mut r = YouTubeSubscriptionResult::new(2);
    assert!(!r.is_complete());
    r.record_success();
    r.record_failure(&channel(9), ServiceError::EmptyAccessToken);
    assert!(r.is_complete());
    assert_eq!(r.successful, 1);
    assert_eq!(r.failed[0].channel_id, "UC9");
}

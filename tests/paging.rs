use serde_json::Value;
use yt_subscriber::{check_reply, ErrorKind, FetchStatus, PageBody, PageFetcher, ServiceError};

fn items(n: usize) -> Vec<Value> {
    (0..n).map(|i| Value::String(format!("video {}", i))).collect()
}

fn page(n: usize, next: Option<&str>) -> PageBody {
    PageBody { items: items(n), next_page_token: next.map(|t| t.to_string()) }
}

#[test]
fn get_videos_works() {
    let api_key = "key";
    let channel_id = "channel_id";
    let max_results = 1;
    let mut fetcher = PageFetcher::new(api_key, channel_id, max_results);
    assert!(fetcher.next_request().is_some());
    fetcher.handle_page(PageBody {
        items: vec![Value::String("a string".to_string())],
        next_page_token: None,
    });
    let result = fetcher.finish();
    assert!(result.is_ok());
    assert!(result.unwrap().len() == 1 as usize);
}

#[test]
fn first_request_has_empty_cursor() {
    let fetcher = PageFetcher::new("KEY", "UC123", 25);
    assert_eq!(
        fetcher.next_request().unwrap(),
        "https://www.googleapis.com/youtube/v3/search?key=KEY&channelId=UC123&part=snippet,id&order=date&maxResults=25&type=video&pageToken="
    );
}

#[test]
fn next_request_carries_cursor() {
    let mut fetcher = PageFetcher::new("KEY", "UC123", 5);
    fetcher.handle_page(page(2, Some("CAUQAA")));
    assert_eq!(
        fetcher.next_request().unwrap(),
        "https://www.googleapis.com/youtube/v3/search?key=KEY&channelId=UC123&part=snippet,id&order=date&maxResults=5&type=video&pageToken=CAUQAA"
    );
}

#[test]
fn single_page_overshoots_target() {
    let mut fetcher = PageFetcher::new("k", "c", 1);
    fetcher.handle_page(page(5, None));
    assert!(fetcher.is_finished());
    assert!(fetcher.next_request().is_none());
    let videos = fetcher.finish().unwrap();
    assert_eq!(videos, items(5));
}

#[test]
fn stops_once_count_exceeds_target() {
    let mut fetcher = PageFetcher::new("k", "c", 3);
    fetcher.handle_page(page(2, Some("cursor-b")));
    assert!(!fetcher.is_finished());
    fetcher.handle_page(page(2, Some("cursor-c")));
    assert!(fetcher.is_finished());
    assert!(fetcher.next_request().is_none());
    assert_eq!(fetcher.finish().unwrap().len(), 4);
}

#[test]
fn count_equal_to_target_goes_on() {
    let mut fetcher = PageFetcher::new("k", "c", 2);
    fetcher.handle_page(page(2, Some("cursor-b")));
    assert!(!fetcher.is_finished());
    assert!(fetcher.next_request().is_some());
}

#[test]
fn no_request_after_missing_cursor() {
    let mut fetcher = PageFetcher::new("k", "c", 100);
    fetcher.handle_page(page(3, None));
    assert!(fetcher.next_request().is_none());
    fetcher.handle_page(page(4, Some("ignored")));
    assert_eq!(fetcher.finish().unwrap().len(), 3);
}

#[test]
fn empty_first_page_without_cursor_gives_nothing() {
    let mut fetcher = PageFetcher::new("k", "c", 0);
    fetcher.handle_page(page(0, None));
    assert_eq!(fetcher.finish().unwrap().len(), 0);
}

#[test]
fn failing_status_discards_earlier_pages() {
    let mut fetcher = PageFetcher::new("k", "c", 10);
    fetcher.handle_page(page(3, Some("cursor-b")));
    fetcher.receive(500, &"backend down".to_string());
    assert!(fetcher.is_finished());
    match fetcher.finish() {
        Err(e) => {
            assert_eq!(e.kind(), ErrorKind::Protocol);
            assert_eq!(
                e,
                ServiceError::HttpStatus { status: 500, body: "backend down".to_string() }
            );
        }
        Ok(_) => panic!("a failing status must fail the listing"),
    }
}

#[test]
fn error_member_discards_earlier_pages() {
    let body = r#"{"error":{"code":403,"message":"quota"}}"#.to_string();
    let mut fetcher = PageFetcher::new("k", "c", 10);
    fetcher.handle_page(page(3, Some("cursor-b")));
    fetcher.receive(200, &body);
    match fetcher.finish() {
        Err(e) => {
            assert_eq!(e.kind(), ErrorKind::Protocol);
            assert_eq!(e, ServiceError::ApiError { body });
        }
        Ok(_) => panic!("an error member must fail the listing"),
    }
}

#[test]
fn undecodable_body_is_a_parse_error() {
    let mut fetcher = PageFetcher::new("k", "c", 10);
    fetcher.receive(200, &"<html>".to_string());
    let e = fetcher.finish().unwrap_err();
    assert!(matches!(e, ServiceError::MalformedJson(_)));
    assert_eq!(e.kind(), ErrorKind::Parse);
}

#[test]
fn transport_failure_fails_listing() {
    let mut fetcher = PageFetcher::new("k", "c", 10);
    fetcher.handle_failure(ServiceError::Transport("connection reset".to_string()));
    assert!(matches!(fetcher.finish(), Err(ServiceError::Transport(m)) if m == "connection reset"));
}

#[test]
fn receive_reads_items_and_cursor() {
    let body = r#"{"kind":"youtube#searchListResponse","nextPageToken":"NEXT","items":[{"id":1},{"id":2}]}"#;
    let mut fetcher = PageFetcher::new("k", "c", 5);
    fetcher.receive(200, &body.to_string());
    assert!(!fetcher.is_finished());
    assert!(fetcher.next_request().unwrap().ends_with("&pageToken=NEXT"));
    let last = r#"{"items":[{"id":3}]}"#;
    fetcher.receive(200, &last.to_string());
    assert!(fetcher.is_finished());
    let videos = fetcher.finish().unwrap();
    assert_eq!(videos.len(), 3);
    assert_eq!(videos[2]["id"], Value::from(3));
}

#[test]
fn reply_without_items_adds_nothing() {
    let mut fetcher = PageFetcher::new("k", "c", 5);
    fetcher.receive(200, &r#"{"nextPageToken":"N"}"#.to_string());
    assert!(!fetcher.is_finished());
    fetcher.receive(200, &"{}".to_string());
    assert_eq!(fetcher.finish().unwrap().len(), 0);
}

#[test]
fn page_body_from_decoded_object() {
    let obj = check_reply(200, &r#"{"items":[1,2,3],"nextPageToken":"T"}"#.to_string()).unwrap();
    let page = PageBody::from_object(&obj);
    assert_eq!(page.items.len(), 3);
    assert_eq!(page.next_page_token, Some("T".to_string()));
    let obj = check_reply(200, &r#"{"items":"none","nextPageToken":7}"#.to_string()).unwrap();
    let page = PageBody::from_object(&obj);
    assert_eq!(page.items.len(), 0);
    assert_eq!(page.next_page_token, None);
}

#[test]
fn check_reply_cases() {
    assert!(matches!(
        check_reply(404, &"{}".to_string()),
        Err(ServiceError::HttpStatus { status: 404, .. })
    ));
    assert!(matches!(check_reply(299, &"[1]".to_string()), Err(ServiceError::MalformedJson(_))));
    assert!(check_reply(204, &r#"{"ok":true}"#.to_string()).is_ok());
}

#[test]
fn fetch_status_variants_are_public() {
    let s = FetchStatus::Failed(ServiceError::Transport(String::new()));
    assert!(matches!(s, FetchStatus::Failed(_)));
}

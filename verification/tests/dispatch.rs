use rudderanalytics::client::{endpoint_path, Request, RudderAnalytics, CONNECT_TIMEOUT_SECS};
use rudderanalytics::errors::AnalyticsError;
use rudderanalytics::message::{
    Alias, Batch, Group, Identify, MessageKind, Page, Screen, Track,
};
use rudderanalytics::rudder_message::RudderMessage;
use rudderanalytics::timestamp::Timestamp;
use rudderanalytics::utils::normalize_at;

const SENT: Timestamp = Timestamp { secs: 1_700_000_000, nanos: 0 };

fn client() -> RudderAnalytics {
    RudderAnalytics::load("write-key".to_string(), "https://dp.example.com".to_string())
}

fn text(s: &str) -> Option<String> {
    Some(s.to_string())
}

#[test]
fn load_keeps_key_and_url() {
    let client = client();
    assert_eq!(client.write_key, "write-key");
    assert_eq!(client.data_plane_url, "https://dp.example.com");
    assert_eq!(CONNECT_TIMEOUT_SECS, 10);
}

#[test]
fn each_kind_has_its_endpoint() {
    assert_eq!(endpoint_path(&MessageKind::Identify(Identify::default())), "/v1/identify");
    assert_eq!(endpoint_path(&MessageKind::Track(Track::default())), "/v1/track");
    assert_eq!(endpoint_path(&MessageKind::Page(Page::default())), "/v1/page");
    assert_eq!(endpoint_path(&MessageKind::Screen(Screen::default())), "/v1/screen");
    assert_eq!(endpoint_path(&MessageKind::Group(Group::default())), "/v1/group");
    assert_eq!(endpoint_path(&MessageKind::Alias(Alias::default())), "/v1/alias");
    assert_eq!(endpoint_path(&MessageKind::Batch(Batch::default())), "/v1/batch");
}

#[test]
fn scenario_identify_without_identity_is_not_sent() {
    let message = MessageKind::Identify(Identify {
        user_id: None,
        anonymous_id: None,
        ..Default::default()
    });
    assert_eq!(client().send(&message), Err(AnalyticsError::InvalidRequest));
    assert_eq!(client().send_at(&message, SENT), Err(AnalyticsError::InvalidRequest));
}

#[test]
fn send_rejects_every_kind_that_lacks_identity() {
    let messages = vec![
        MessageKind::Identify(Identify::default()),
        MessageKind::Track(Track { event: "e".to_string(), ..Default::default() }),
        MessageKind::Page(Page { name: "p".to_string(), ..Default::default() }),
        MessageKind::Screen(Screen { name: "s".to_string(), ..Default::default() }),
        MessageKind::Group(Group { group_id: "g".to_string(), ..Default::default() }),
    ];
    for message in messages {
        assert_eq!(client().send(&message), Err(AnalyticsError::InvalidRequest));
        assert_eq!(client().send_at(&message, SENT), Err(AnalyticsError::InvalidRequest));
    }
}

#[test]
fn send_at_builds_the_request_exactly() {
    let message = MessageKind::Track(Track {
        user_id: text("u1"),
        event: "Signed Up".to_string(),
        ..Default::default()
    });
    let expected = Request {
        url: "https://dp.example.com/v1/track".to_string(),
        username: "write-key".to_string(),
        password: String::new(),
        body: normalize_at(&message, SENT),
    };
    assert_eq!(client().send_at(&message, SENT), Ok(expected));
}

#[test]
fn send_posts_each_kind_to_its_endpoint() {
    let cases = vec![
        (
            MessageKind::Identify(Identify { user_id: text("u1"), ..Default::default() }),
            "https://dp.example.com/v1/identify",
        ),
        (
            MessageKind::Page(Page { anonymous_id: text("a1"), ..Default::default() }),
            "https://dp.example.com/v1/page",
        ),
        (
            MessageKind::Screen(Screen { user_id: text("u1"), ..Default::default() }),
            "https://dp.example.com/v1/screen",
        ),
        (
            MessageKind::Group(Group { user_id: text("u1"), ..Default::default() }),
            "https://dp.example.com/v1/group",
        ),
        (MessageKind::Alias(Alias::default()), "https://dp.example.com/v1/alias"),
        (MessageKind::Batch(Batch::default()), "https://dp.example.com/v1/batch"),
    ];
    for (message, url) in cases {
        let request = client().send(&message).unwrap();
        assert_eq!(request.url, url);
        assert_eq!(request.username, "write-key");
        assert_eq!(request.password, "");
        let sent_at = match &request.body {
            RudderMessage::Identify(p) => p.sent_at,
            RudderMessage::Track(p) => p.sent_at,
            RudderMessage::Page(p) => p.sent_at,
            RudderMessage::Screen(p) => p.sent_at,
            RudderMessage::Group(p) => p.sent_at,
            RudderMessage::Alias(p) => p.sent_at,
            RudderMessage::Batch(p) => p.sent_at,
        };
        assert!(sent_at.secs > 1_600_000_000);
        assert_eq!(request.body, normalize_at(&message, sent_at));
    }
}

#[test]
fn url_is_plain_concatenation() {
    let client = RudderAnalytics::load("k".to_string(), "http://localhost:8080/".to_string());
    let message = MessageKind::Alias(Alias::default());
    let request = client.send_at(&message, SENT).unwrap();
    assert_eq!(request.url, "http://localhost:8080//v1/alias");
    assert_eq!(request.username, "k");
}

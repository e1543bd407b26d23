use rudderanalytics::errors::AnalyticsError;
use rudderanalytics::message::{
    Alias, Batch, BatchMessage, Group, Identify, Message, MessageKind, Page, Screen, Track,
};
use rudderanalytics::timestamp::Timestamp;

fn id(s: &str) -> Option<String> {
    Some(s.to_string())
}

fn five_kinds(user_id: Option<String>, anonymous_id: Option<String>) -> Vec<MessageKind> {
    vec![
        MessageKind::Identify(Identify {
            user_id: user_id.clone(),
            anonymous_id: anonymous_id.clone(),
            ..Default::default()
        }),
        MessageKind::Track(Track {
            user_id: user_id.clone(),
            anonymous_id: anonymous_id.clone(),
            event: "Signed Up".to_string(),
            ..Default::default()
        }),
        MessageKind::Page(Page {
            user_id: user_id.clone(),
            anonymous_id: anonymous_id.clone(),
            name: "Home".to_string(),
            ..Default::default()
        }),
        MessageKind::Screen(Screen {
            user_id: user_id.clone(),
            anonymous_id: anonymous_id.clone(),
            name: "Main".to_string(),
            ..Default::default()
        }),
        MessageKind::Group(Group {
            user_id,
            anonymous_id,
            group_id: "g1".to_string(),
            ..Default::default()
        }),
    ]
}

#[test]
fn events_without_identity_are_rejected() {
    for message in five_kinds(None, None) {
        assert_eq!(message.validate(), Err(AnalyticsError::InvalidRequest));
    }
}

#[test]
fn events_with_user_id_only_pass() {
    for message in five_kinds(id("u1"), None) {
        assert_eq!(message.validate(), Ok(()));
    }
}

#[test]
fn events_with_anonymous_id_only_pass() {
    for message in five_kinds(None, id("a1")) {
        assert_eq!(message.validate(), Ok(()));
    }
}

#[test]
fn events_with_both_ids_pass() {
    for message in five_kinds(id("u1"), id("a1")) {
        assert_eq!(message.validate(), Ok(()));
    }
}

#[test]
fn empty_ids_count_as_present() {
    for message in five_kinds(id(""), None) {
        assert_eq!(message.validate(), Ok(()));
    }
}

#[test]
fn alias_always_passes() {
    let blank = Alias::default();
    assert_eq!(MessageKind::Alias(blank.clone()).validate(), Ok(()));
    assert_eq!(blank.validate(), Ok(()));
    let filled = Alias {
        user_id: "u2".to_string(),
        previous_id: "u1".to_string(),
        ..Default::default()
    };
    assert_eq!(MessageKind::Alias(filled).validate(), Ok(()));
}

#[test]
fn batch_passes_without_looking_at_children() {
    let empty = Batch::default();
    assert_eq!(MessageKind::Batch(empty.clone()).validate(), Ok(()));
    assert_eq!(empty.validate(), Ok(()));
    let anonymous_child = Batch {
        messages: vec![BatchMessage::Identify(Identify::default())],
        ..Default::default()
    };
    assert_eq!(MessageKind::Batch(anonymous_child).validate(), Ok(()));
}

#[test]
fn scenario_group_with_user_id_passes() {
    let group = Group { user_id: id("u1"), group_id: "g1".to_string(), ..Default::default() };
    assert_eq!(group.validate(), Ok(()));
    assert_eq!(MessageKind::Group(group).validate(), Ok(()));
}

#[test]
fn group_without_identity_is_rejected() {
    let group = Group { group_id: "g1".to_string(), ..Default::default() };
    assert_eq!(group.validate(), Err(AnalyticsError::InvalidRequest));
}

#[test]
fn each_kind_validates_on_its_own() {
    assert_eq!(Identify::default().validate(), Err(AnalyticsError::InvalidRequest));
    assert_eq!(Track::default().validate(), Err(AnalyticsError::InvalidRequest));
    assert_eq!(Page::default().validate(), Err(AnalyticsError::InvalidRequest));
    assert_eq!(Screen::default().validate(), Err(AnalyticsError::InvalidRequest));
    let track = Track { anonymous_id: id("a1"), ..Default::default() };
    assert_eq!(track.validate(), Ok(()));
}

#[test]
fn getters_expose_the_identity_pair() {
    let identify = Identify { user_id: id("u1"), anonymous_id: id("a1"), ..Default::default() };
    assert_eq!(identify.get_user_id(), Some("u1"));
    assert_eq!(identify.get_anonymous_id(), Some("a1"));
    let page = Page { anonymous_id: id("a7"), ..Default::default() };
    assert_eq!(page.get_user_id(), None);
    assert_eq!(page.get_anonymous_id(), Some("a7"));
    let group = Group { user_id: id("u3"), ..Default::default() };
    assert_eq!(group.get_user_id(), Some("u3"));
    assert_eq!(group.get_anonymous_id(), None);
}

#[test]
fn alias_and_batch_have_no_identity_pair() {
    let alias = Alias { user_id: "u2".to_string(), ..Default::default() };
    assert_eq!(alias.get_user_id(), None);
    assert_eq!(alias.get_anonymous_id(), None);
    let batch = Batch::default();
    assert_eq!(batch.get_user_id(), None);
    assert_eq!(batch.get_anonymous_id(), None);
}

#[test]
fn getters_expose_the_supplied_timestamp() {
    let at = Timestamp { secs: 1_700_000_000, nanos: 5 };
    let screen = Screen { original_timestamp: Some(at), ..Default::default() };
    assert_eq!(screen.get_original_timestamp(), Some(at));
    assert_eq!(Track::default().get_original_timestamp(), None);
    let alias = Alias { original_timestamp: Some(at), ..Default::default() };
    assert_eq!(alias.get_original_timestamp(), Some(at));
    let batch = Batch { original_timestamp: Some(at), ..Default::default() };
    assert_eq!(batch.get_original_timestamp(), Some(at));
}

#[test]
fn timings_keep_a_supplied_timestamp() {
    let at = Timestamp { secs: 1_500_000_000, nanos: 42 };
    let identify = Identify { original_timestamp: Some(at), ..Default::default() };
    let (sent_at, original_timestamp) = identify.get_timings();
    assert_eq!(original_timestamp, at);
    assert!(sent_at.secs > 1_600_000_000);
}

#[test]
fn timings_default_to_the_send_time() {
    let (sent_at, original_timestamp) = Track::default().get_timings();
    assert_eq!(original_timestamp, sent_at);
    assert!(sent_at.secs > 1_600_000_000);
    assert!(sent_at.nanos < 1_000_000_000);
}

#[test]
fn errors_describe_themselves() {
    assert_eq!(AnalyticsError::MessageTooLarge.message(), "message too large");
    assert_eq!(
        AnalyticsError::InvalidRequest.message(),
        "either user_id or anonymous_id are required"
    );
    assert_ne!(AnalyticsError::MessageTooLarge, AnalyticsError::InvalidRequest);
}

use rudderanalytics::message::{
    Alias, Batch, BatchMessage, Group, Identify, MessageKind, Page, Screen, Track,
};
use rudderanalytics::rudder_message::{
    Batch as RudderBatch, BatchMessage as RudderBatchMessage, Page as RudderPage, RudderMessage,
    Track as RudderTrack,
};
use rudderanalytics::timestamp::Timestamp;
use rudderanalytics::utils::{normalize_at, parse_batch, parse_batch_at};
use serde_json::Value;

const SENT: Timestamp = Timestamp { secs: 1_700_000_000, nanos: 123_000_000 };
const EARLIER: Timestamp = Timestamp { secs: 1_600_000_000, nanos: 7 };
const CHILD_TIME: Timestamp = Timestamp { secs: 1_500_000_000, nanos: 1 };

fn text(s: &str) -> Option<String> {
    Some(s.to_string())
}

fn doc(s: &str) -> Option<Value> {
    Some(serde_json::from_str(s).unwrap())
}

fn wrapper(payload: RudderMessage) -> RudderBatch {
    match payload {
        RudderMessage::Batch(batch) => batch,
        other => panic!("a batch became {:?}", other),
    }
}

fn shared_fields(child: &RudderBatchMessage) -> (Timestamp, Timestamp, Option<Value>, Option<Value>) {
    match child {
        RudderBatchMessage::Identify(p) => {
            (p.sent_at, p.original_timestamp, p.context.clone(), p.integrations.clone())
        }
        RudderBatchMessage::Track(p) => {
            (p.sent_at, p.original_timestamp, p.context.clone(), p.integrations.clone())
        }
        RudderBatchMessage::Page(p) => {
            (p.sent_at, p.original_timestamp, p.context.clone(), p.integrations.clone())
        }
        RudderBatchMessage::Screen(p) => {
            (p.sent_at, p.original_timestamp, p.context.clone(), p.integrations.clone())
        }
        RudderBatchMessage::Group(p) => {
            (p.sent_at, p.original_timestamp, p.context.clone(), p.integrations.clone())
        }
        RudderBatchMessage::Alias(p) => {
            (p.sent_at, p.original_timestamp, p.context.clone(), p.integrations.clone())
        }
    }
}

#[test]
fn scenario_batch_children_share_one_send_time() {
    let batch = Batch {
        messages: vec![
            BatchMessage::Track(Track {
                user_id: text("u1"),
                event: "Signed Up".to_string(),
                ..Default::default()
            }),
            BatchMessage::Page(Page {
                user_id: text("u1"),
                name: "Home".to_string(),
                ..Default::default()
            }),
        ],
        original_timestamp: None,
        ..Default::default()
    };
    let out = wrapper(RudderMessage::from(&MessageKind::Batch(batch.clone())));
    assert_eq!(out.batch.len(), 2);
    assert!(out.sent_at.secs > 1_600_000_000);
    assert_eq!(out.original_timestamp, out.sent_at);
    for child in &out.batch {
        let (sent_at, original_timestamp, _, _) = shared_fields(child);
        assert_eq!(sent_at, out.sent_at);
        assert_eq!(original_timestamp, out.sent_at);
    }
    let again = wrapper(parse_batch(&batch));
    assert_eq!(again.batch.len(), 2);
    for child in &again.batch {
        let (sent_at, original_timestamp, _, _) = shared_fields(child);
        assert_eq!(sent_at, again.sent_at);
        assert_eq!(original_timestamp, again.original_timestamp);
    }
}

#[test]
fn batch_is_flattened_exactly() {
    let batch = Batch {
        messages: vec![
            BatchMessage::Track(Track {
                user_id: text("u1"),
                event: "Signed Up".to_string(),
                properties: doc(r#"{"plan":"pro"}"#),
                original_timestamp: Some(CHILD_TIME),
                context: doc(r#"{"from":"child"}"#),
                integrations: doc(r#"{"child":true}"#),
                ..Default::default()
            }),
            BatchMessage::Page(Page {
                anonymous_id: text("a1"),
                name: "Home".to_string(),
                ..Default::default()
            }),
        ],
        context: doc(r#"{"from":"batch"}"#),
        integrations: doc(r#"{"All":true}"#),
        original_timestamp: Some(EARLIER),
    };
    let expected = RudderMessage::Batch(RudderBatch {
        batch: vec![
            RudderBatchMessage::Track(RudderTrack {
                user_id: text("u1"),
                anonymous_id: None,
                event: "Signed Up".to_string(),
                properties: doc(r#"{"plan":"pro"}"#),
                original_timestamp: EARLIER,
                sent_at: SENT,
                context: doc(r#"{"from":"batch"}"#),
                integrations: doc(r#"{"All":true}"#),
                message_type: "track".to_string(),
                channel: "server".to_string(),
            }),
            RudderBatchMessage::Page(RudderPage {
                user_id: None,
                anonymous_id: text("a1"),
                name: "Home".to_string(),
                properties: None,
                original_timestamp: EARLIER,
                sent_at: SENT,
                context: doc(r#"{"from":"batch"}"#),
                integrations: doc(r#"{"All":true}"#),
                message_type: "page".to_string(),
                channel: "server".to_string(),
            }),
        ],
        integrations: doc(r#"{"All":true}"#),
        context: doc(r#"{"from":"batch"}"#),
        message_type: "batch".to_string(),
        original_timestamp: EARLIER,
        sent_at: SENT,
    });
    assert_eq!(parse_batch_at(&batch, SENT), expected);
    assert_eq!(normalize_at(&MessageKind::Batch(batch), SENT), expected);
}

#[test]
fn batch_context_and_integrations_override_the_childs() {
    let child = Identify {
        user_id: text("u1"),
        context: doc(r#"{"from":"child"}"#),
        integrations: doc(r#"{"child":true}"#),
        ..Default::default()
    };
    let with_values = Batch {
        messages: vec![BatchMessage::Identify(child.clone())],
        context: doc(r#"{"from":"batch"}"#),
        integrations: doc(r#"{"All":true}"#),
        original_timestamp: None,
    };
    let out = wrapper(parse_batch_at(&with_values, SENT));
    let (_, _, context, integrations) = shared_fields(&out.batch[0]);
    assert_eq!(context, doc(r#"{"from":"batch"}"#));
    assert_eq!(integrations, doc(r#"{"All":true}"#));

    let without_values =
        Batch { messages: vec![BatchMessage::Identify(child)], ..Default::default() };
    let out = wrapper(parse_batch_at(&without_values, SENT));
    let (_, _, context, integrations) = shared_fields(&out.batch[0]);
    assert_eq!(context, None);
    assert_eq!(integrations, None);
    assert_eq!(out.context, None);
    assert_eq!(out.integrations, None);
}

#[test]
fn batch_discards_the_childs_own_timestamp() {
    let batch = Batch {
        messages: vec![BatchMessage::Screen(Screen {
            user_id: text("u1"),
            name: "Main".to_string(),
            original_timestamp: Some(CHILD_TIME),
            ..Default::default()
        })],
        ..Default::default()
    };
    let out = wrapper(parse_batch_at(&batch, SENT));
    let (sent_at, original_timestamp, _, _) = shared_fields(&out.batch[0]);
    assert_eq!(sent_at, SENT);
    assert_eq!(original_timestamp, SENT);
}

#[test]
fn batch_keeps_every_child_in_order() {
    let messages = vec![
        BatchMessage::Identify(Identify { user_id: text("u1"), ..Default::default() }),
        BatchMessage::Track(Track { event: "e".to_string(), ..Default::default() }),
        BatchMessage::Page(Page { name: "p".to_string(), ..Default::default() }),
        BatchMessage::Screen(Screen { name: "s".to_string(), ..Default::default() }),
        BatchMessage::Group(Group { group_id: "g".to_string(), ..Default::default() }),
        BatchMessage::Alias(Alias {
            user_id: "u2".to_string(),
            previous_id: "u1".to_string(),
            ..Default::default()
        }),
    ];
    let batch = Batch { messages, original_timestamp: Some(EARLIER), ..Default::default() };
    let out = wrapper(parse_batch_at(&batch, SENT));
    assert_eq!(out.message_type, "batch");
    assert_eq!(out.batch.len(), 6);
    let kinds: Vec<String> = out
        .batch
        .iter()
        .map(|child| match child {
            RudderBatchMessage::Identify(p) => p.message_type.clone(),
            RudderBatchMessage::Track(p) => p.message_type.clone(),
            RudderBatchMessage::Page(p) => p.message_type.clone(),
            RudderBatchMessage::Screen(p) => p.message_type.clone(),
            RudderBatchMessage::Group(p) => p.message_type.clone(),
            RudderBatchMessage::Alias(p) => p.message_type.clone(),
        })
        .collect();
    assert_eq!(kinds, vec!["identify", "track", "page", "screen", "group", "alias"]);
    for child in &out.batch {
        let (sent_at, original_timestamp, _, _) = shared_fields(child);
        assert_eq!(sent_at, SENT);
        assert_eq!(original_timestamp, EARLIER);
    }
    match &out.batch[5] {
        RudderBatchMessage::Alias(p) => {
            assert_eq!(p.user_id, "u2");
            assert_eq!(p.previous_id, "u1");
            assert_eq!(p.channel, "server");
        }
        other => panic!("an alias became {:?}", other),
    }
}

#[test]
fn empty_batch_becomes_an_empty_wrapper() {
    let out = wrapper(parse_batch_at(&Batch::default(), SENT));
    assert!(out.batch.is_empty());
    assert_eq!(out.sent_at, SENT);
    assert_eq!(out.original_timestamp, SENT);
    assert_eq!(out.message_type, "batch");
}

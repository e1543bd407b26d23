//! The canonical payload: an event as the data plane receives it.

use crate::text::text;
use crate::timestamp::Timestamp;
use serde_json::Value;
use vstd::prelude::*;

verus! {

/// An identify event, ready for the wire.
#[derive(PartialEq, Debug, Clone, Default)]
pub struct Identify {
    /// The user id associated with this message.
    pub user_id: Option<String>,
    /// The anonymous user id associated with this message.
    pub anonymous_id: Option<String>,
    /// The traits to assign to the user.
    pub traits: Option<Value>,
    /// When the event happened.
    pub original_timestamp: Timestamp,
    /// When the event was handed to the transport.
    pub sent_at: Timestamp,
    /// Context associated with this message.
    pub context: Option<Value>,
    /// Integrations to route this message to.
    pub integrations: Option<Value>,
    /// The kind of the event, as the wire names it.
    pub message_type: String,
    /// The channel the event arrives through.
    pub channel: String,
}

/// What a canonical [`Identify`] holds, with its strings as sequences of characters.
pub struct IdentifyView {
    pub user_id: Option<Seq<char>>,
    pub anonymous_id: Option<Seq<char>>,
    pub traits: Option<Value>,
    pub original_timestamp: Timestamp,
    pub sent_at: Timestamp,
    pub context: Option<Value>,
    pub integrations: Option<Value>,
    pub message_type: Seq<char>,
    pub channel: Seq<char>,
}

impl View for Identify {
    type V = IdentifyView;

    open spec fn view(&self) -> IdentifyView {
        IdentifyView {
            user_id: text(self.user_id),
            anonymous_id: text(self.anonymous_id),
            traits: self.traits,
            original_timestamp: self.original_timestamp,
            sent_at: self.sent_at,
            context: self.context,
            integrations: self.integrations,
            message_type: self.message_type@,
            channel: self.channel@,
        }
    }
}

/// A track event, ready for the wire.
#[derive(PartialEq, Debug, Clone, Default)]
pub struct Track {
    /// The user id associated with this message.
    pub user_id: Option<String>,
    /// The anonymous user id associated with this message.
    pub anonymous_id: Option<String>,
    /// The name of the event being tracked.
    pub event: String,
    /// The properties associated with the event.
    pub properties: Option<Value>,
    /// When the event happened.
    pub original_timestamp: Timestamp,
    /// When the event was handed to the transport.
    pub sent_at: Timestamp,
    /// Context associated with this message.
    pub context: Option<Value>,
    /// Integrations to route this message to.
    pub integrations: Option<Value>,
    /// The kind of the event, as the wire names it.
    pub message_type: String,
    /// The channel the event arrives through.
    pub channel: String,
}

/// What a canonical [`Track`] holds, with its strings as sequences of characters.
pub struct TrackView {
    pub user_id: Option<Seq<char>>,
    pub anonymous_id: Option<Seq<char>>,
    pub event: Seq<char>,
    pub properties: Option<Value>,
    pub original_timestamp: Timestamp,
    pub sent_at: Timestamp,
    pub context: Option<Value>,
    pub integrations: Option<Value>,
    pub message_type: Seq<char>,
    pub channel: Seq<char>,
}

impl View for Track {
    type V = TrackView;

    open spec fn view(&self) -> TrackView {
        TrackView {
            user_id: text(self.user_id),
            anonymous_id: text(self.anonymous_id),
            event: self.event@,
            properties: self.properties,
            original_timestamp: self.original_timestamp,
            sent_at: self.sent_at,
            context: self.context,
            integrations: self.integrations,
            message_type: self.message_type@,
            channel: self.channel@,
        }
    }
}

/// A page event, ready for the wire.
#[derive(PartialEq, Debug, Clone, Default)]
pub struct Page {
    /// The user id associated with this message.
    pub user_id: Option<String>,
    /// The anonymous user id associated with this message.
    pub anonymous_id: Option<String>,
    /// The name of the page being tracked.
    pub name: String,
    /// The properties associated with the page.
    pub properties: Option<Value>,
    /// When the event happened.
    pub original_timestamp: Timestamp,
    /// When the event was handed to the transport.
    pub sent_at: Timestamp,
    /// Context associated with this message.
    pub context: Option<Value>,
    /// Integrations to route this message to.
    pub integrations: Option<Value>,
    /// The kind of the event, as the wire names it.
    pub message_type: String,
    /// The channel the event arrives through.
    pub channel: String,
}

/// What a canonical [`Page`] holds, with its strings as sequences of characters.
pub struct PageView {
    pub user_id: Option<Seq<char>>,
    pub anonymous_id: Option<Seq<char>>,
    pub name: Seq<char>,
    pub properties: Option<Value>,
    pub original_timestamp: Timestamp,
    pub sent_at: Timestamp,
    pub context: Option<Value>,
    pub integrations: Option<Value>,
    pub message_type: Seq<char>,
    pub channel: Seq<char>,
}

impl View for Page {
    type V = PageView;

    open spec fn view(&self) -> PageView {
        PageView {
            user_id: text(self.user_id),
            anonymous_id: text(self.anonymous_id),
            name: self.name@,
            properties: self.properties,
            original_timestamp: self.original_timestamp,
            sent_at: self.sent_at,
            context: self.context,
            integrations: self.integrations,
            message_type: self.message_type@,
            channel: self.channel@,
        }
    }
}

/// A screen event, ready for the wire.
#[derive(PartialEq, Debug, Clone, Default)]
pub struct Screen {
    /// The user id associated with this message.
    pub user_id: Option<String>,
    /// The anonymous user id associated with this message.
    pub anonymous_id: Option<String>,
    /// The name of the screen being tracked.
    pub name: String,
    /// The properties associated with the screen.
    pub properties: Option<Value>,
    /// When the event happened.
    pub original_timestamp: Timestamp,
    /// When the event was handed to the transport.
    pub sent_at: Timestamp,
    /// Context associated with this message.
    pub context: Option<Value>,
    /// Integrations to route this message to.
    pub integrations: Option<Value>,
    /// The kind of the event, as the wire names it.
    pub message_type: String,
    /// The channel the event arrives through.
    pub channel: String,
}

/// What a canonical [`Screen`] holds, with its strings as sequences of characters.
pub struct ScreenView {
    pub user_id: Option<Seq<char>>,
    pub anonymous_id: Option<Seq<char>>,
    pub name: Seq<char>,
    pub properties: Option<Value>,
    pub original_timestamp: Timestamp,
    pub sent_at: Timestamp,
    pub context: Option<Value>,
    pub integrations: Option<Value>,
    pub message_type: Seq<char>,
    pub channel: Seq<char>,
}

impl View for Screen {
    type V = ScreenView;

    open spec fn view(&self) -> ScreenView {
        ScreenView {
            user_id: text(self.user_id),
            anonymous_id: text(self.anonymous_id),
            name: self.name@,
            properties: self.properties,
            original_timestamp: self.original_timestamp,
            sent_at: self.sent_at,
            context: self.context,
            integrations: self.integrations,
            message_type: self.message_type@,
            channel: self.channel@,
        }
    }
}

/// A group event, ready for the wire.
#[derive(PartialEq, Debug, Clone, Default)]
pub struct Group {
    /// The user id associated with this message.
    pub user_id: Option<String>,
    /// The anonymous user id associated with this message.
    pub anonymous_id: Option<String>,
    /// The group the user is being associated with.
    pub group_id: String,
    /// The traits to assign to the group.
    pub traits: Option<Value>,
    /// When the event happened.
    pub original_timestamp: Timestamp,
    /// When the event was handed to the transport.
    pub sent_at: Timestamp,
    /// Context associated with this message.
    pub context: Option<Value>,
    /// Integrations to route this message to.
    pub integrations: Option<Value>,
    /// The kind of the event, as the wire names it.
    pub message_type: String,
    /// The channel the event arrives through.
    pub channel: String,
}

/// What a canonical [`Group`] holds, with its strings as sequences of characters.
pub struct GroupView {
    pub user_id: Option<Seq<char>>,
    pub anonymous_id: Option<Seq<char>>,
    pub group_id: Seq<char>,
    pub traits: Option<Value>,
    pub original_timestamp: Timestamp,
    pub sent_at: Timestamp,
    pub context: Option<Value>,
    pub integrations: Option<Value>,
    pub message_type: Seq<char>,
    pub channel: Seq<char>,
}

impl View for Group {
    type V = GroupView;

    open spec fn view(&self) -> GroupView {
        GroupView {
            user_id: text(self.user_id),
            anonymous_id: text(self.anonymous_id),
            group_id: self.group_id@,
            traits: self.traits,
            original_timestamp: self.original_timestamp,
            sent_at: self.sent_at,
            context: self.context,
            integrations: self.integrations,
            message_type: self.message_type@,
            channel: self.channel@,
        }
    }
}

/// An alias event, ready for the wire.
#[derive(PartialEq, Debug, Clone, Default)]
pub struct Alias {
    /// The user id associated with this message.
    pub user_id: String,
    /// The user's previous id.
    pub previous_id: String,
    /// The traits to assign to the alias.
    pub traits: Option<Value>,
    /// When the event happened.
    pub original_timestamp: Timestamp,
    /// When the event was handed to the transport.
    pub sent_at: Timestamp,
    /// Context associated with this message.
    pub context: Option<Value>,
    /// Integrations to route this message to.
    pub integrations: Option<Value>,
    /// The kind of the event, as the wire names it.
    pub message_type: String,
    /// The channel the event arrives through.
    pub channel: String,
}

/// What a canonical [`Alias`] holds, with its strings as sequences of characters.
pub struct AliasView {
    pub user_id: Seq<char>,
    pub previous_id: Seq<char>,
    pub traits: Option<Value>,
    pub original_timestamp: Timestamp,
    pub sent_at: Timestamp,
    pub context: Option<Value>,
    pub integrations: Option<Value>,
    pub message_type: Seq<char>,
    pub channel: Seq<char>,
}

impl View for Alias {
    type V = AliasView;

    open spec fn view(&self) -> AliasView {
        AliasView {
            user_id: self.user_id@,
            previous_id: self.previous_id@,
            traits: self.traits,
            original_timestamp: self.original_timestamp,
            sent_at: self.sent_at,
            context: self.context,
            integrations: self.integrations,
            message_type: self.message_type@,
            channel: self.channel@,
        }
    }
}

/// A batch of events, ready for the wire.
#[derive(PartialEq, Debug, Clone, Default)]
pub struct Batch {
    /// The events of the batch, in the order they were submitted in.
    pub batch: Vec<BatchMessage>,
    /// Integrations to route this message to.
    pub integrations: Option<Value>,
    /// Context associated with this message.
    pub context: Option<Value>,
    /// The kind of the event, as the wire names it.
    pub message_type: String,
    /// When the batch happened.
    pub original_timestamp: Timestamp,
    /// When the batch was handed to the transport.
    pub sent_at: Timestamp,
}

/// What a canonical [`Batch`] holds: its events in order, each by its own
/// view.
pub struct BatchView {
    pub batch: Seq<BatchMessageView>,
    pub integrations: Option<Value>,
    pub context: Option<Value>,
    pub message_type: Seq<char>,
    pub original_timestamp: Timestamp,
    pub sent_at: Timestamp,
}

impl View for Batch {
    type V = BatchView;

    open spec fn view(&self) -> BatchView {
        BatchView {
            batch: self.batch@.map_values(|event: BatchMessage| event@),
            integrations: self.integrations,
            context: self.context,
            message_type: self.message_type@,
            original_timestamp: self.original_timestamp,
            sent_at: self.sent_at,
        }
    }
}

/// An enum containing all canonical events which may be placed inside a
/// batch.
#[derive(PartialEq, Debug, Clone)]
pub enum BatchMessage {
    Identify(Identify),
    Track(Track),
    Page(Page),
    Screen(Screen),
    Group(Group),
    Alias(Alias),
}

/// What a canonical [`BatchMessage`] holds.
pub enum BatchMessageView {
    Identify(IdentifyView),
    Track(TrackView),
    Page(PageView),
    Screen(ScreenView),
    Group(GroupView),
    Alias(AliasView),
}

impl BatchMessageView {
    /// When the event was handed to the transport.
    pub open spec fn sent_at(self) -> Timestamp {
        match self {
            BatchMessageView::Identify(event) => event.sent_at,
            BatchMessageView::Track(event) => event.sent_at,
            BatchMessageView::Page(event) => event.sent_at,
            BatchMessageView::Screen(event) => event.sent_at,
            BatchMessageView::Group(event) => event.sent_at,
            BatchMessageView::Alias(event) => event.sent_at,
        }
    }

    /// When the event happened.
    pub open spec fn original_timestamp(self) -> Timestamp {
        match self {
            BatchMessageView::Identify(event) => event.original_timestamp,
            BatchMessageView::Track(event) => event.original_timestamp,
            BatchMessageView::Page(event) => event.original_timestamp,
            BatchMessageView::Screen(event) => event.original_timestamp,
            BatchMessageView::Group(event) => event.original_timestamp,
            BatchMessageView::Alias(event) => event.original_timestamp,
        }
    }

    /// The context the event is sent with.
    pub open spec fn context(self) -> Option<Value> {
        match self {
            BatchMessageView::Identify(event) => event.context,
            BatchMessageView::Track(event) => event.context,
            BatchMessageView::Page(event) => event.context,
            BatchMessageView::Screen(event) => event.context,
            BatchMessageView::Group(event) => event.context,
            BatchMessageView::Alias(event) => event.context,
        }
    }

    /// The integrations the event is routed to.
    pub open spec fn integrations(self) -> Option<Value> {
        match self {
            BatchMessageView::Identify(event) => event.integrations,
            BatchMessageView::Track(event) => event.integrations,
            BatchMessageView::Page(event) => event.integrations,
            BatchMessageView::Screen(event) => event.integrations,
            BatchMessageView::Group(event) => event.integrations,
            BatchMessageView::Alias(event) => event.integrations,
        }
    }
}

impl View for BatchMessage {
    type V = BatchMessageView;

    open spec fn view(&self) -> BatchMessageView {
        match *self {
            BatchMessage::Identify(event) => BatchMessageView::Identify(event@),
            BatchMessage::Track(event) => BatchMessageView::Track(event@),
            BatchMessage::Page(event) => BatchMessageView::Page(event@),
            BatchMessage::Screen(event) => BatchMessageView::Screen(event@),
            BatchMessage::Group(event) => BatchMessageView::Group(event@),
            BatchMessage::Alias(event) => BatchMessageView::Alias(event@),
        }
    }
}

/// An enum containing all values which may be sent to the data plane.
#[derive(PartialEq, Debug, Clone)]
pub enum RudderMessage {
    Identify(Identify),
    Track(Track),
    Page(Page),
    Screen(Screen),
    Group(Group),
    Alias(Alias),
    Batch(Batch),
}

/// What a [`RudderMessage`] holds.
pub enum RudderMessageView {
    Identify(IdentifyView),
    Track(TrackView),
    Page(PageView),
    Screen(ScreenView),
    Group(GroupView),
    Alias(AliasView),
    Batch(BatchView),
}

impl RudderMessageView {
    /// When the payload was handed to the transport.
    pub open spec fn sent_at(self) -> Timestamp {
        match self {
            RudderMessageView::Identify(event) => event.sent_at,
            RudderMessageView::Track(event) => event.sent_at,
            RudderMessageView::Page(event) => event.sent_at,
            RudderMessageView::Screen(event) => event.sent_at,
            RudderMessageView::Group(event) => event.sent_at,
            RudderMessageView::Alias(event) => event.sent_at,
            RudderMessageView::Batch(batch) => batch.sent_at,
        }
    }

    /// When the event of the payload happened.
    pub open spec fn original_timestamp(self) -> Timestamp {
        match self {
            RudderMessageView::Identify(event) => event.original_timestamp,
            RudderMessageView::Track(event) => event.original_timestamp,
            RudderMessageView::Page(event) => event.original_timestamp,
            RudderMessageView::Screen(event) => event.original_timestamp,
            RudderMessageView::Group(event) => event.original_timestamp,
            RudderMessageView::Alias(event) => event.original_timestamp,
            RudderMessageView::Batch(batch) => batch.original_timestamp,
        }
    }
}

impl View for RudderMessage {
    type V = RudderMessageView;

    open spec fn view(&self) -> RudderMessageView {
        match *self {
            RudderMessage::Identify(event) => RudderMessageView::Identify(event@),
            RudderMessage::Track(event) => RudderMessageView::Track(event@),
            RudderMessage::Page(event) => RudderMessageView::Page(event@),
            RudderMessage::Screen(event) => RudderMessageView::Screen(event@),
            RudderMessage::Group(event) => RudderMessageView::Group(event@),
            RudderMessage::Alias(event) => RudderMessageView::Alias(event@),
            RudderMessage::Batch(batch) => RudderMessageView::Batch(batch@),
        }
    }
}

} // verus!

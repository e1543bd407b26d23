//! The events a caller can submit, and the identity rule they are held to.

use crate::errors::AnalyticsError;
use crate::text::{borrow_text, slice_text, text};
use crate::timestamp::{now, original_or, resolve_original, Timestamp};
use serde_json::Value;
use vstd::prelude::*;

verus! {

/// An identify event.
#[derive(PartialEq, Debug, Clone, Default)]
pub struct Identify {
    /// The user id associated with this message.
    pub user_id: Option<String>,
    /// The anonymous user id associated with this message.
    pub anonymous_id: Option<String>,
    /// The traits to assign to the user.
    pub traits: Option<Value>,
    /// The timestamp associated with this message.
    pub original_timestamp: Option<Timestamp>,
    /// Context associated with this message.
    pub context: Option<Value>,
    /// Integrations to route this message to.
    pub integrations: Option<Value>,
}

/// What an [`Identify`] holds, with its strings as sequences of characters.
pub struct IdentifyView {
    pub user_id: Option<Seq<char>>,
    pub anonymous_id: Option<Seq<char>>,
    pub traits: Option<Value>,
    pub original_timestamp: Option<Timestamp>,
    pub context: Option<Value>,
    pub integrations: Option<Value>,
}

impl View for Identify {
    type V = IdentifyView;

    open spec fn view(&self) -> IdentifyView {
        IdentifyView {
            user_id: text(self.user_id),
            anonymous_id: text(self.anonymous_id),
            traits: self.traits,
            original_timestamp: self.original_timestamp,
            context: self.context,
            integrations: self.integrations,
        }
    }
}

/// A track event.
#[derive(PartialEq, Debug, Clone, Default)]
pub struct Track {
    /// The user id associated with this message.
    pub user_id: Option<String>,
    /// The anonymous user id associated with this message.
    pub anonymous_id: Option<String>,
    /// The name of the event being tracked.
    pub event: String,
    /// The properties associated with the event.
    pub properties: Option<Value>,
    /// The timestamp associated with this message.
    pub original_timestamp: Option<Timestamp>,
    /// Context associated with this message.
    pub context: Option<Value>,
    /// Integrations to route this message to.
    pub integrations: Option<Value>,
}

/// What a [`Track`] holds, with its strings as sequences of characters.
pub struct TrackView {
    pub user_id: Option<Seq<char>>,
    pub anonymous_id: Option<Seq<char>>,
    pub event: Seq<char>,
    pub properties: Option<Value>,
    pub original_timestamp: Option<Timestamp>,
    pub context: Option<Value>,
    pub integrations: Option<Value>,
}

impl View for Track {
    type V = TrackView;

    open spec fn view(&self) -> TrackView {
        TrackView {
            user_id: text(self.user_id),
            anonymous_id: text(self.anonymous_id),
            event: self.event@,
            properties: self.properties,
            original_timestamp: self.original_timestamp,
            context: self.context,
            integrations: self.integrations,
        }
    }
}

/// A page event.
#[derive(PartialEq, Debug, Clone, Default)]
pub struct Page {
    /// The user id associated with this message.
    pub user_id: Option<String>,
    /// The anonymous user id associated with this message.
    pub anonymous_id: Option<String>,
    /// The name of the page being tracked.
    pub name: String,
    /// The properties associated with the page.
    pub properties: Option<Value>,
    /// The timestamp associated with this message.
    pub original_timestamp: Option<Timestamp>,
    /// Context associated with this message.
    pub context: Option<Value>,
    /// Integrations to route this message to.
    pub integrations: Option<Value>,
}

/// What a [`Page`] holds, with its strings as sequences of characters.
pub struct PageView {
    pub user_id: Option<Seq<char>>,
    pub anonymous_id: Option<Seq<char>>,
    pub name: Seq<char>,
    pub properties: Option<Value>,
    pub original_timestamp: Option<Timestamp>,
    pub context: Option<Value>,
    pub integrations: Option<Value>,
}

impl View for Page {
    type V = PageView;

    open spec fn view(&self) -> PageView {
        PageView {
            user_id: text(self.user_id),
            anonymous_id: text(self.anonymous_id),
            name: self.name@,
            properties: self.properties,
            original_timestamp: self.original_timestamp,
            context: self.context,
            integrations: self.integrations,
        }
    }
}

/// A screen event.
#[derive(PartialEq, Debug, Clone, Default)]
pub struct Screen {
    /// The user id associated with this message.
    pub user_id: Option<String>,
    /// The anonymous user id associated with this message.
    pub anonymous_id: Option<String>,
    /// The name of the screen being tracked.
    pub name: String,
    /// The properties associated with the screen.
    pub properties: Option<Value>,
    /// The timestamp associated with this message.
    pub original_timestamp: Option<Timestamp>,
    /// Context associated with this message.
    pub context: Option<Value>,
    /// Integrations to route this message to.
    pub integrations: Option<Value>,
}

/// What a [`Screen`] holds, with its strings as sequences of characters.
pub struct ScreenView {
    pub user_id: Option<Seq<char>>,
    pub anonymous_id: Option<Seq<char>>,
    pub name: Seq<char>,
    pub properties: Option<Value>,
    pub original_timestamp: Option<Timestamp>,
    pub context: Option<Value>,
    pub integrations: Option<Value>,
}

impl View for Screen {
    type V = ScreenView;

    open spec fn view(&self) -> ScreenView {
        ScreenView {
            user_id: text(self.user_id),
            anonymous_id: text(self.anonymous_id),
            name: self.name@,
            properties: self.properties,
            original_timestamp: self.original_timestamp,
            context: self.context,
            integrations: self.integrations,
        }
    }
}

/// A group event.
#[derive(PartialEq, Debug, Clone, Default)]
pub struct Group {
    /// The user id associated with this message.
    pub user_id: Option<String>,
    /// The anonymous user id associated with this message.
    pub anonymous_id: Option<String>,
    /// The group the user is being associated with.
    pub group_id: String,
    /// The traits to assign to the group.
    pub traits: Option<Value>,
    /// The timestamp associated with this message.
    pub original_timestamp: Option<Timestamp>,
    /// Context associated with this message.
    pub context: Option<Value>,
    /// Integrations to route this message to.
    pub integrations: Option<Value>,
}

/// What a [`Group`] holds, with its strings as sequences of characters.
pub struct GroupView {
    pub user_id: Option<Seq<char>>,
    pub anonymous_id: Option<Seq<char>>,
    pub group_id: Seq<char>,
    pub traits: Option<Value>,
    pub original_timestamp: Option<Timestamp>,
    pub context: Option<Value>,
    pub integrations: Option<Value>,
}

impl View for Group {
    type V = GroupView;

    open spec fn view(&self) -> GroupView {
        GroupView {
            user_id: text(self.user_id),
            anonymous_id: text(self.anonymous_id),
            group_id: self.group_id@,
            traits: self.traits,
            original_timestamp: self.original_timestamp,
            context: self.context,
            integrations: self.integrations,
        }
    }
}

/// An alias event.
#[derive(PartialEq, Debug, Clone, Default)]
pub struct Alias {
    /// The user id associated with this message.
    pub user_id: String,
    /// The user's previous id.
    pub previous_id: String,
    /// The traits to assign to the alias.
    pub traits: Option<Value>,
    /// The timestamp associated with this message.
    pub original_timestamp: Option<Timestamp>,
    /// Context associated with this message.
    pub context: Option<Value>,
    /// Integrations to route this message to.
    pub integrations: Option<Value>,
}

/// What an [`Alias`] holds, with its strings as sequences of characters.
pub struct AliasView {
    pub user_id: Seq<char>,
    pub previous_id: Seq<char>,
    pub traits: Option<Value>,
    pub original_timestamp: Option<Timestamp>,
    pub context: Option<Value>,
    pub integrations: Option<Value>,
}

impl View for Alias {
    type V = AliasView;

    open spec fn view(&self) -> AliasView {
        AliasView {
            user_id: self.user_id@,
            previous_id: self.previous_id@,
            traits: self.traits,
            original_timestamp: self.original_timestamp,
            context: self.context,
            integrations: self.integrations,
        }
    }
}

/// A batch of events.
#[derive(PartialEq, Debug, Clone, Default)]
pub struct Batch {
    /// The batch of messages to send.
    pub messages: Vec<BatchMessage>,
    /// Context associated with this message.
    pub context: Option<Value>,
    /// Integrations to route this message to.
    pub integrations: Option<Value>,
    /// The timestamp associated with this message.
    pub original_timestamp: Option<Timestamp>,
}

/// What a [`Batch`] holds: its messages in order, each by its own view.
pub struct BatchView {
    pub messages: Seq<BatchMessageView>,
    pub context: Option<Value>,
    pub integrations: Option<Value>,
    pub original_timestamp: Option<Timestamp>,
}

impl View for Batch {
    type V = BatchView;

    open spec fn view(&self) -> BatchView {
        BatchView {
            messages: self.messages@.map_values(|message: BatchMessage| message@),
            context: self.context,
            integrations: self.integrations,
            original_timestamp: self.original_timestamp,
        }
    }
}

/// An enum containing all messages which may be placed inside a batch.
#[derive(PartialEq, Debug, Clone)]
pub enum BatchMessage {
    Identify(Identify),
    Track(Track),
    Page(Page),
    Screen(Screen),
    Group(Group),
    Alias(Alias),
}

/// What a [`BatchMessage`] holds.
pub enum BatchMessageView {
    Identify(IdentifyView),
    Track(TrackView),
    Page(PageView),
    Screen(ScreenView),
    Group(GroupView),
    Alias(AliasView),
}

impl View for BatchMessage {
    type V = BatchMessageView;

    open spec fn view(&self) -> BatchMessageView {
        match *self {
            BatchMessage::Identify(event) => BatchMessageView::Identify(event@),
            BatchMessage::Track(event) => BatchMessageView::Track(event@),
            BatchMessage::Page(event) => BatchMessageView::Page(event@),
            BatchMessage::Screen(event) => BatchMessageView::Screen(event@),
            BatchMessage::Group(event) => BatchMessageView::Group(event@),
            BatchMessage::Alias(event) => BatchMessageView::Alias(event@),
        }
    }
}

/// An enum containing all values which may be sent to the data plane.
#[derive(PartialEq, Debug, Clone)]
pub enum MessageKind {
    Identify(Identify),
    Track(Track),
    Page(Page),
    Screen(Screen),
    Group(Group),
    Alias(Alias),
    Batch(Batch),
}

/// What a [`MessageKind`] holds.
pub enum MessageKindView {
    Identify(IdentifyView),
    Track(TrackView),
    Page(PageView),
    Screen(ScreenView),
    Group(GroupView),
    Alias(AliasView),
    Batch(BatchView),
}

impl View for MessageKind {
    type V = MessageKindView;

    open spec fn view(&self) -> MessageKindView {
        match *self {
            MessageKind::Identify(event) => MessageKindView::Identify(event@),
            MessageKind::Track(event) => MessageKindView::Track(event@),
            MessageKind::Page(event) => MessageKindView::Page(event@),
            MessageKind::Screen(event) => MessageKindView::Screen(event@),
            MessageKind::Group(event) => MessageKindView::Group(event@),
            MessageKind::Alias(event) => MessageKindView::Alias(event@),
            MessageKind::Batch(batch) => MessageKindView::Batch(batch@),
        }
    }
}

/// The identity rule: an event is attributed to a subject by its user id or by
/// its anonymous id, so one of the two has to be there.
pub open spec fn has_identity(user_id: Option<Seq<char>>, anonymous_id: Option<Seq<char>>) -> bool {
    user_id is Some || anonymous_id is Some
}

/// Whether an event may be sent. Identify, track, page, screen and group
/// events are held to the identity rule. An alias names its user in a field of
/// its own, and a batch leaves identity to its children, which are not looked
/// at: both always pass.
pub open spec fn satisfies_identity_rule(message: MessageKindView) -> bool {
    match message {
        MessageKindView::Identify(event) => has_identity(event.user_id, event.anonymous_id),
        MessageKindView::Track(event) => has_identity(event.user_id, event.anonymous_id),
        MessageKindView::Page(event) => has_identity(event.user_id, event.anonymous_id),
        MessageKindView::Screen(event) => has_identity(event.user_id, event.anonymous_id),
        MessageKindView::Group(event) => has_identity(event.user_id, event.anonymous_id),
        MessageKindView::Alias(_) => true,
        MessageKindView::Batch(_) => true,
    }
}

/// What every event offers to validation and to timestamp resolution.
pub trait Message {
    /// The timestamp the caller supplied, if any.
    spec fn spec_original_timestamp(&self) -> Option<Timestamp>;

    /// The user id of the identity pair; `None` for a kind that has no pair.
    spec fn spec_user_id(&self) -> Option<Seq<char>>;

    /// The anonymous id of the identity pair; `None` for a kind that has no
    /// pair.
    spec fn spec_anonymous_id(&self) -> Option<Seq<char>>;

    /// Reads the clock once and returns the send time with the event's
    /// original timestamp resolved against it.
    fn get_timings(&self) -> (timings: (Timestamp, Timestamp))
        ensures
            timings.1 == resolve_original(self.spec_original_timestamp(), timings.0),
    {
        let sent_at = now();
        let original_timestamp = original_or(self.get_original_timestamp(), sent_at);
        (sent_at, original_timestamp)
    }

    /// The timestamp the caller supplied, if any.
    fn get_original_timestamp(&self) -> (supplied: Option<Timestamp>)
        ensures
            supplied == self.spec_original_timestamp(),
    ;

    /// The user id of the identity pair, if the kind has a pair and the
    /// event a user id.
    fn get_user_id(&self) -> (id: Option<&str>)
        ensures
            slice_text(id) == self.spec_user_id(),
    ;

    /// The anonymous id of the identity pair, if the kind has a pair and the
    /// event an anonymous id.
    fn get_anonymous_id(&self) -> (id: Option<&str>)
        ensures
            slice_text(id) == self.spec_anonymous_id(),
    ;

    /// Checks the event before it is sent. An event with an identity always
    /// passes, and the only failure is [`AnalyticsError::InvalidRequest`]. A
    /// kind that keeps this method as it is provided fails exactly when both
    /// ids are absent.
    fn validate(&self) -> (outcome: Result<(), AnalyticsError>)
        ensures
            has_identity(self.spec_user_id(), self.spec_anonymous_id()) ==> outcome is Ok,
            outcome is Err ==> outcome == Err::<(), AnalyticsError>(
                AnalyticsError::InvalidRequest,
            ),
        default_ensures
            outcome is Ok <==> has_identity(self.spec_user_id(), self.spec_anonymous_id()),
    {
        if self.get_user_id().is_some() || self.get_anonymous_id().is_some() {
            Ok(())
        } else {
            Err(AnalyticsError::InvalidRequest)
        }
    }
}

impl Message for Identify {
    open spec fn spec_original_timestamp(&self) -> Option<Timestamp> {
        self.original_timestamp
    }

    open spec fn spec_user_id(&self) -> Option<Seq<char>> {
        text(self.user_id)
    }

    open spec fn spec_anonymous_id(&self) -> Option<Seq<char>> {
        text(self.anonymous_id)
    }

    fn get_original_timestamp(&self) -> (supplied: Option<Timestamp>) {
        self.original_timestamp
    }

    fn get_user_id(&self) -> (id: Option<&str>) {
        borrow_text(&self.user_id)
    }

    fn get_anonymous_id(&self) -> (id: Option<&str>) {
        borrow_text(&self.anonymous_id)
    }
}

impl Message for Track {
    open spec fn spec_original_timestamp(&self) -> Option<Timestamp> {
        self.original_timestamp
    }

    open spec fn spec_user_id(&self) -> Option<Seq<char>> {
        text(self.user_id)
    }

    open spec fn spec_anonymous_id(&self) -> Option<Seq<char>> {
        text(self.anonymous_id)
    }

    fn get_original_timestamp(&self) -> (supplied: Option<Timestamp>) {
        self.original_timestamp
    }

    fn get_user_id(&self) -> (id: Option<&str>) {
        borrow_text(&self.user_id)
    }

    fn get_anonymous_id(&self) -> (id: Option<&str>) {
        borrow_text(&self.anonymous_id)
    }
}

impl Message for Page {
    open spec fn spec_original_timestamp(&self) -> Option<Timestamp> {
        self.original_timestamp
    }

    open spec fn spec_user_id(&self) -> Option<Seq<char>> {
        text(self.user_id)
    }

    open spec fn spec_anonymous_id(&self) -> Option<Seq<char>> {
        text(self.anonymous_id)
    }

    fn get_original_timestamp(&self) -> (supplied: Option<Timestamp>) {
        self.original_timestamp
    }

    fn get_user_id(&self) -> (id: Option<&str>) {
        borrow_text(&self.user_id)
    }

    fn get_anonymous_id(&self) -> (id: Option<&str>) {
        borrow_text(&self.anonymous_id)
    }
}

impl Message for Screen {
    open spec fn spec_original_timestamp(&self) -> Option<Timestamp> {
        self.original_timestamp
    }

    open spec fn spec_user_id(&self) -> Option<Seq<char>> {
        text(self.user_id)
    }

    open spec fn spec_anonymous_id(&self) -> Option<Seq<char>> {
        text(self.anonymous_id)
    }

    fn get_original_timestamp(&self) -> (supplied: Option<Timestamp>) {
        self.original_timestamp
    }

    fn get_user_id(&self) -> (id: Option<&str>) {
        borrow_text(&self.user_id)
    }

    fn get_anonymous_id(&self) -> (id: Option<&str>) {
        borrow_text(&self.anonymous_id)
    }
}

impl Message for Group {
    open spec fn spec_original_timestamp(&self) -> Option<Timestamp> {
        self.original_timestamp
    }

    open spec fn spec_user_id(&self) -> Option<Seq<char>> {
        text(self.user_id)
    }

    open spec fn spec_anonymous_id(&self) -> Option<Seq<char>> {
        text(self.anonymous_id)
    }

    fn get_original_timestamp(&self) -> (supplied: Option<Timestamp>) {
        self.original_timestamp
    }

    fn get_user_id(&self) -> (id: Option<&str>) {
        borrow_text(&self.user_id)
    }

    fn get_anonymous_id(&self) -> (id: Option<&str>) {
        borrow_text(&self.anonymous_id)
    }
}

impl Message for Alias {
    open spec fn spec_original_timestamp(&self) -> Option<Timestamp> {
        self.original_timestamp
    }

    open spec fn spec_user_id(&self) -> Option<Seq<char>> {
        None
    }

    open spec fn spec_anonymous_id(&self) -> Option<Seq<char>> {
        None
    }

    fn get_original_timestamp(&self) -> (supplied: Option<Timestamp>) {
        self.original_timestamp
    }

    fn get_anonymous_id(&self) -> (id: Option<&str>) {
        None
    }

    fn get_user_id(&self) -> (id: Option<&str>) {
        None
    }

    fn validate(&self) -> (outcome: Result<(), AnalyticsError>)
        ensures
            outcome is Ok,
    {
        Ok(())
    }
}

impl Message for Batch {
    open spec fn spec_original_timestamp(&self) -> Option<Timestamp> {
        self.original_timestamp
    }

    open spec fn spec_user_id(&self) -> Option<Seq<char>> {
        None
    }

    open spec fn spec_anonymous_id(&self) -> Option<Seq<char>> {
        None
    }

    fn get_original_timestamp(&self) -> (supplied: Option<Timestamp>) {
        self.original_timestamp
    }

    fn get_anonymous_id(&self) -> (id: Option<&str>) {
        None
    }

    fn get_user_id(&self) -> (id: Option<&str>) {
        None
    }

    fn validate(&self) -> (outcome: Result<(), AnalyticsError>)
        ensures
            outcome is Ok,
    {
        Ok(())
    }
}

impl MessageKind {
    /// Checks the event against the identity rule. It passes exactly when
    /// [`satisfies_identity_rule`] holds of it, and fails with
    /// [`AnalyticsError::InvalidRequest`] otherwise.
    pub fn validate(&self) -> (outcome: Result<(), AnalyticsError>)
        ensures
            outcome is Ok <==> satisfies_identity_rule(self@),
            outcome is Err ==> outcome == Err::<(), AnalyticsError>(
                AnalyticsError::InvalidRequest,
            ),
    {
        match self {
            MessageKind::Identify(message) => message.validate(),
            MessageKind::Track(message) => message.validate(),
            MessageKind::Page(message) => message.validate(),
            MessageKind::Screen(message) => message.validate(),
            MessageKind::Group(message) => message.validate(),
            MessageKind::Alias(message) => message.validate(),
            MessageKind::Batch(message) => message.validate(),
        }
    }
}

/// The identity pair of an event, as validation sees it: `None` twice for an
/// alias and for a batch, which have no pair.
pub open spec fn identity_pair(message: MessageKindView) -> (Option<Seq<char>>, Option<Seq<char>>) {
    match message {
        MessageKindView::Identify(event) => (event.user_id, event.anonymous_id),
        MessageKindView::Track(event) => (event.user_id, event.anonymous_id),
        MessageKindView::Page(event) => (event.user_id, event.anonymous_id),
        MessageKindView::Screen(event) => (event.user_id, event.anonymous_id),
        MessageKindView::Group(event) => (event.user_id, event.anonymous_id),
        MessageKindView::Alias(_) => (None, None),
        MessageKindView::Batch(_) => (None, None),
    }
}

/// An identify, track, page, screen or group event that has neither a user
/// id nor an anonymous id breaks the identity rule.
pub proof fn lemma_missing_identity_is_rejected(message: MessageKindView)
    requires
        !(message is Alias) && !(message is Batch),
        identity_pair(message).0 is None,
        identity_pair(message).1 is None,
    ensures
        !satisfies_identity_rule(message),
{
}

/// An identify, track, page, screen or group event that has a user id or an
/// anonymous id meets the identity rule.
pub proof fn lemma_present_identity_is_accepted(message: MessageKindView)
    requires
        identity_pair(message).0 is Some || identity_pair(message).1 is Some,
    ensures
        satisfies_identity_rule(message),
{
}

/// An alias meets the identity rule whatever it holds.
pub proof fn lemma_alias_is_always_accepted(alias: AliasView)
    ensures
        satisfies_identity_rule(MessageKindView::Alias(alias)),
{
}

} // verus!

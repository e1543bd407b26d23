//! Normalization: from an event as the caller wrote it to the canonical
//! payload.
//!
//! Every function here comes in two forms. The one whose name ends in `_at`
//! takes the send time as an argument and is a pure function of its inputs.
//! The other reads the clock once and goes on as the first does, so its
//! result is the canonical payload of the event at the send time that the
//! result itself reports.

use crate::json::clone_json;
use crate::message::{
    Alias, AliasView, Batch, BatchMessage, BatchMessageView, BatchView, Group, GroupView,
    Identify, IdentifyView, Message, MessageKind, MessageKindView, Page, PageView, Screen, ScreenView,
    Track, TrackView,
};
use crate::rudder_message::{
    Alias as RudderAlias, AliasView as RudderAliasView, Batch as RudderBatch,
    BatchMessage as RudderBatchMessage, BatchMessageView as RudderBatchMessageView,
    BatchView as RudderBatchView, Group as RudderGroup, GroupView as RudderGroupView,
    Identify as RudderIdentify, IdentifyView as RudderIdentifyView, Page as RudderPage,
    PageView as RudderPageView, RudderMessage, RudderMessageView, Screen as RudderScreen,
    ScreenView as RudderScreenView, Track as RudderTrack, TrackView as RudderTrackView,
};
use crate::text::clone_text;
use crate::timestamp::{now, original_or, resolve_original, Timestamp};
use serde_json::Value;
use vstd::prelude::*;

verus! {

/// The channel every payload of this library arrives through.
pub const CHANNEL: &'static str = "server";

/// The canonical form of an identify event that is sent at `sent_at`, taken to
/// have happened at `original_timestamp`, with the given context and
/// integrations. What the event itself says of these three is not used.
pub open spec fn canonical_identify(
    event: IdentifyView,
    sent_at: Timestamp,
    original_timestamp: Timestamp,
    context: Option<Value>,
    integrations: Option<Value>,
) -> RudderIdentifyView {
    RudderIdentifyView {
        user_id: event.user_id,
        anonymous_id: event.anonymous_id,
        traits: event.traits,
        original_timestamp,
        sent_at,
        context,
        integrations,
        message_type: "identify"@,
        channel: CHANNEL@,
    }
}

/// Builds the canonical form of an identify event from its parts.
pub(crate) fn identify_with(
    event: &Identify,
    sent_at: Timestamp,
    original_timestamp: Timestamp,
    context: &Option<Value>,
    integrations: &Option<Value>,
) -> (payload: RudderIdentify)
    ensures
        payload@ == canonical_identify(event@, sent_at, original_timestamp, *context, *integrations),
{
    RudderIdentify {
        user_id: clone_text(&event.user_id),
        anonymous_id: clone_text(&event.anonymous_id),
        traits: clone_json(&event.traits),
        original_timestamp,
        sent_at,
        context: clone_json(context),
        integrations: clone_json(integrations),
        message_type: "identify".to_string(),
        channel: CHANNEL.to_string(),
    }
}

/// What [`parse_identify_at`] returns: the event in canonical form, with its own
/// context and integrations, and with its own timestamp where it has one.
pub open spec fn spec_parse_identify(event: IdentifyView, sent_at: Timestamp) -> RudderMessageView {
    RudderMessageView::Identify(
        canonical_identify(
            event,
            sent_at,
            resolve_original(event.original_timestamp, sent_at),
            event.context,
            event.integrations,
        ),
    )
}

/// Turns an identify event that is sent at `sent_at` into its canonical payload.
pub fn parse_identify_at(message: &Identify, sent_at: Timestamp) -> (payload: RudderMessage)
    ensures
        payload@ == spec_parse_identify(message@, sent_at),
{
    let original_timestamp = original_or(message.original_timestamp, sent_at);
    RudderMessage::Identify(
        identify_with(message, sent_at, original_timestamp, &message.context, &message.integrations),
    )
}

/// Turns an identify event into its canonical payload, sent now.
pub fn parse_identify(message: &Identify) -> (payload: RudderMessage)
    ensures
        payload@ == spec_parse_identify(message@, payload@.sent_at()),
{
    parse_identify_at(message, now())
}

/// The canonical form of a track event that is sent at `sent_at`, taken to
/// have happened at `original_timestamp`, with the given context and
/// integrations. What the event itself says of these three is not used.
pub open spec fn canonical_track(
    event: TrackView,
    sent_at: Timestamp,
    original_timestamp: Timestamp,
    context: Option<Value>,
    integrations: Option<Value>,
) -> RudderTrackView {
    RudderTrackView {
        user_id: event.user_id,
        anonymous_id: event.anonymous_id,
        event: event.event,
        properties: event.properties,
        original_timestamp,
        sent_at,
        context,
        integrations,
        message_type: "track"@,
        channel: CHANNEL@,
    }
}

/// Builds the canonical form of a track event from its parts.
pub(crate) fn track_with(
    event: &Track,
    sent_at: Timestamp,
    original_timestamp: Timestamp,
    context: &Option<Value>,
    integrations: &Option<Value>,
) -> (payload: RudderTrack)
    ensures
        payload@ == canonical_track(event@, sent_at, original_timestamp, *context, *integrations),
{
    RudderTrack {
        user_id: clone_text(&event.user_id),
        anonymous_id: clone_text(&event.anonymous_id),
        event: event.event.clone(),
        properties: clone_json(&event.properties),
        original_timestamp,
        sent_at,
        context: clone_json(context),
        integrations: clone_json(integrations),
        message_type: "track".to_string(),
        channel: CHANNEL.to_string(),
    }
}

/// What [`parse_track_at`] returns: the event in canonical form, with its own
/// context and integrations, and with its own timestamp where it has one.
pub open spec fn spec_parse_track(event: TrackView, sent_at: Timestamp) -> RudderMessageView {
    RudderMessageView::Track(
        canonical_track(
            event,
            sent_at,
            resolve_original(event.original_timestamp, sent_at),
            event.context,
            event.integrations,
        ),
    )
}

/// Turns a track event that is sent at `sent_at` into its canonical payload.
pub fn parse_track_at(message: &Track, sent_at: Timestamp) -> (payload: RudderMessage)
    ensures
        payload@ == spec_parse_track(message@, sent_at),
{
    let original_timestamp = original_or(message.original_timestamp, sent_at);
    RudderMessage::Track(
        track_with(message, sent_at, original_timestamp, &message.context, &message.integrations),
    )
}

/// Turns a track event into its canonical payload, sent now.
pub fn parse_track(message: &Track) -> (payload: RudderMessage)
    ensures
        payload@ == spec_parse_track(message@, payload@.sent_at()),
{
    parse_track_at(message, now())
}

/// The canonical form of a page event that is sent at `sent_at`, taken to
/// have happened at `original_timestamp`, with the given context and
/// integrations. What the event itself says of these three is not used.
pub open spec fn canonical_page(
    event: PageView,
    sent_at: Timestamp,
    original_timestamp: Timestamp,
    context: Option<Value>,
    integrations: Option<Value>,
) -> RudderPageView {
    RudderPageView {
        user_id: event.user_id,
        anonymous_id: event.anonymous_id,
        name: event.name,
        properties: event.properties,
        original_timestamp,
        sent_at,
        context,
        integrations,
        message_type: "page"@,
        channel: CHANNEL@,
    }
}

/// Builds the canonical form of a page event from its parts.
pub(crate) fn page_with(
    event: &Page,
    sent_at: Timestamp,
    original_timestamp: Timestamp,
    context: &Option<Value>,
    integrations: &Option<Value>,
) -> (payload: RudderPage)
    ensures
        payload@ == canonical_page(event@, sent_at, original_timestamp, *context, *integrations),
{
    RudderPage {
        user_id: clone_text(&event.user_id),
        anonymous_id: clone_text(&event.anonymous_id),
        name: event.name.clone(),
        properties: clone_json(&event.properties),
        original_timestamp,
        sent_at,
        context: clone_json(context),
        integrations: clone_json(integrations),
        message_type: "page".to_string(),
        channel: CHANNEL.to_string(),
    }
}

/// What [`parse_page_at`] returns: the event in canonical form, with its own
/// context and integrations, and with its own timestamp where it has one.
pub open spec fn spec_parse_page(event: PageView, sent_at: Timestamp) -> RudderMessageView {
    RudderMessageView::Page(
        canonical_page(
            event,
            sent_at,
            resolve_original(event.original_timestamp, sent_at),
            event.context,
            event.integrations,
        ),
    )
}

/// Turns a page event that is sent at `sent_at` into its canonical payload.
pub fn parse_page_at(message: &Page, sent_at: Timestamp) -> (payload: RudderMessage)
    ensures
        payload@ == spec_parse_page(message@, sent_at),
{
    let original_timestamp = original_or(message.original_timestamp, sent_at);
    RudderMessage::Page(
        page_with(message, sent_at, original_timestamp, &message.context, &message.integrations),
    )
}

/// Turns a page event into its canonical payload, sent now.
pub fn parse_page(message: &Page) -> (payload: RudderMessage)
    ensures
        payload@ == spec_parse_page(message@, payload@.sent_at()),
{
    parse_page_at(message, now())
}

/// The canonical form of a screen event that is sent at `sent_at`, taken to
/// have happened at `original_timestamp`, with the given context and
/// integrations. What the event itself says of these three is not used.
pub open spec fn canonical_screen(
    event: ScreenView,
    sent_at: Timestamp,
    original_timestamp: Timestamp,
    context: Option<Value>,
    integrations: Option<Value>,
) -> RudderScreenView {
    RudderScreenView {
        user_id: event.user_id,
        anonymous_id: event.anonymous_id,
        name: event.name,
        properties: event.properties,
        original_timestamp,
        sent_at,
        context,
        integrations,
        message_type: "screen"@,
        channel: CHANNEL@,
    }
}

/// Builds the canonical form of a screen event from its parts.
pub(crate) fn screen_with(
    event: &Screen,
    sent_at: Timestamp,
    original_timestamp: Timestamp,
    context: &Option<Value>,
    integrations: &Option<Value>,
) -> (payload: RudderScreen)
    ensures
        payload@ == canonical_screen(event@, sent_at, original_timestamp, *context, *integrations),
{
    RudderScreen {
        user_id: clone_text(&event.user_id),
        anonymous_id: clone_text(&event.anonymous_id),
        name: event.name.clone(),
        properties: clone_json(&event.properties),
        original_timestamp,
        sent_at,
        context: clone_json(context),
        integrations: clone_json(integrations),
        message_type: "screen".to_string(),
        channel: CHANNEL.to_string(),
    }
}

/// What [`parse_screen_at`] returns: the event in canonical form, with its own
/// context and integrations, and with its own timestamp where it has one.
pub open spec fn spec_parse_screen(event: ScreenView, sent_at: Timestamp) -> RudderMessageView {
    RudderMessageView::Screen(
        canonical_screen(
            event,
            sent_at,
            resolve_original(event.original_timestamp, sent_at),
            event.context,
            event.integrations,
        ),
    )
}

/// Turns a screen event that is sent at `sent_at` into its canonical payload.
pub fn parse_screen_at(message: &Screen, sent_at: Timestamp) -> (payload: RudderMessage)
    ensures
        payload@ == spec_parse_screen(message@, sent_at),
{
    let original_timestamp = original_or(message.original_timestamp, sent_at);
    RudderMessage::Screen(
        screen_with(message, sent_at, original_timestamp, &message.context, &message.integrations),
    )
}

/// Turns a screen event into its canonical payload, sent now.
pub fn parse_screen(message: &Screen) -> (payload: RudderMessage)
    ensures
        payload@ == spec_parse_screen(message@, payload@.sent_at()),
{
    parse_screen_at(message, now())
}

/// The canonical form of a group event that is sent at `sent_at`, taken to
/// have happened at `original_timestamp`, with the given context and
/// integrations. What the event itself says of these three is not used.
pub open spec fn canonical_group(
    event: GroupView,
    sent_at: Timestamp,
    original_timestamp: Timestamp,
    context: Option<Value>,
    integrations: Option<Value>,
) -> RudderGroupView {
    RudderGroupView {
        user_id: event.user_id,
        anonymous_id: event.anonymous_id,
        group_id: event.group_id,
        traits: event.traits,
        original_timestamp,
        sent_at,
        context,
        integrations,
        message_type: "group"@,
        channel: CHANNEL@,
    }
}

/// Builds the canonical form of a group event from its parts.
pub(crate) fn group_with(
    event: &Group,
    sent_at: Timestamp,
    original_timestamp: Timestamp,
    context: &Option<Value>,
    integrations: &Option<Value>,
) -> (payload: RudderGroup)
    ensures
        payload@ == canonical_group(event@, sent_at, original_timestamp, *context, *integrations),
{
    RudderGroup {
        user_id: clone_text(&event.user_id),
        anonymous_id: clone_text(&event.anonymous_id),
        group_id: event.group_id.clone(),
        traits: clone_json(&event.traits),
        original_timestamp,
        sent_at,
        context: clone_json(context),
        integrations: clone_json(integrations),
        message_type: "group".to_string(),
        channel: CHANNEL.to_string(),
    }
}

/// What [`parse_group_at`] returns: the event in canonical form, with its own
/// context and integrations, and with its own timestamp where it has one.
pub open spec fn spec_parse_group(event: GroupView, sent_at: Timestamp) -> RudderMessageView {
    RudderMessageView::Group(
        canonical_group(
            event,
            sent_at,
            resolve_original(event.original_timestamp, sent_at),
            event.context,
            event.integrations,
        ),
    )
}

/// Turns a group event that is sent at `sent_at` into its canonical payload.
pub fn parse_group_at(message: &Group, sent_at: Timestamp) -> (payload: RudderMessage)
    ensures
        payload@ == spec_parse_group(message@, sent_at),
{
    let original_timestamp = original_or(message.original_timestamp, sent_at);
    RudderMessage::Group(
        group_with(message, sent_at, original_timestamp, &message.context, &message.integrations),
    )
}

/// Turns a group event into its canonical payload, sent now.
pub fn parse_group(message: &Group) -> (payload: RudderMessage)
    ensures
        payload@ == spec_parse_group(message@, payload@.sent_at()),
{
    parse_group_at(message, now())
}

/// The canonical form of an alias event that is sent at `sent_at`, taken to
/// have happened at `original_timestamp`, with the given context and
/// integrations. What the event itself says of these three is not used.
pub open spec fn canonical_alias(
    event: AliasView,
    sent_at: Timestamp,
    original_timestamp: Timestamp,
    context: Option<Value>,
    integrations: Option<Value>,
) -> RudderAliasView {
    RudderAliasView {
        user_id: event.user_id,
        previous_id: event.previous_id,
        traits: event.traits,
        original_timestamp,
        sent_at,
        context,
        integrations,
        message_type: "alias"@,
        channel: CHANNEL@,
    }
}

/// Builds the canonical form of an alias event from its parts.
pub(crate) fn alias_with(
    event: &Alias,
    sent_at: Timestamp,
    original_timestamp: Timestamp,
    context: &Option<Value>,
    integrations: &Option<Value>,
) -> (payload: RudderAlias)
    ensures
        payload@ == canonical_alias(event@, sent_at, original_timestamp, *context, *integrations),
{
    RudderAlias {
        user_id: event.user_id.clone(),
        previous_id: event.previous_id.clone(),
        traits: clone_json(&event.traits),
        original_timestamp,
        sent_at,
        context: clone_json(context),
        integrations: clone_json(integrations),
        message_type: "alias".to_string(),
        channel: CHANNEL.to_string(),
    }
}

/// What [`parse_alias_at`] returns: the event in canonical form, with its own
/// context and integrations, and with its own timestamp where it has one.
pub open spec fn spec_parse_alias(event: AliasView, sent_at: Timestamp) -> RudderMessageView {
    RudderMessageView::Alias(
        canonical_alias(
            event,
            sent_at,
            resolve_original(event.original_timestamp, sent_at),
            event.context,
            event.integrations,
        ),
    )
}

/// Turns an alias event that is sent at `sent_at` into its canonical payload.
pub fn parse_alias_at(message: &Alias, sent_at: Timestamp) -> (payload: RudderMessage)
    ensures
        payload@ == spec_parse_alias(message@, sent_at),
{
    let original_timestamp = original_or(message.original_timestamp, sent_at);
    RudderMessage::Alias(
        alias_with(message, sent_at, original_timestamp, &message.context, &message.integrations),
    )
}

/// Turns an alias event into its canonical payload, sent now.
pub fn parse_alias(message: &Alias) -> (payload: RudderMessage)
    ensures
        payload@ == spec_parse_alias(message@, payload@.sent_at()),
{
    parse_alias_at(message, now())
}

/// The canonical form of one event of a batch. Send time, original timestamp,
/// context and integrations are those of the batch: the event's own are
/// dropped.
pub open spec fn canonical_child(
    child: BatchMessageView,
    sent_at: Timestamp,
    original_timestamp: Timestamp,
    context: Option<Value>,
    integrations: Option<Value>,
) -> RudderBatchMessageView {
    match child {
        BatchMessageView::Identify(event) => RudderBatchMessageView::Identify(
            canonical_identify(event, sent_at, original_timestamp, context, integrations),
        ),
        BatchMessageView::Track(event) => RudderBatchMessageView::Track(
            canonical_track(event, sent_at, original_timestamp, context, integrations),
        ),
        BatchMessageView::Page(event) => RudderBatchMessageView::Page(
            canonical_page(event, sent_at, original_timestamp, context, integrations),
        ),
        BatchMessageView::Screen(event) => RudderBatchMessageView::Screen(
            canonical_screen(event, sent_at, original_timestamp, context, integrations),
        ),
        BatchMessageView::Group(event) => RudderBatchMessageView::Group(
            canonical_group(event, sent_at, original_timestamp, context, integrations),
        ),
        BatchMessageView::Alias(event) => RudderBatchMessageView::Alias(
            canonical_alias(event, sent_at, original_timestamp, context, integrations),
        ),
    }
}

/// Builds the canonical form of one event of a batch.
pub(crate) fn child_with(
    child: &BatchMessage,
    sent_at: Timestamp,
    original_timestamp: Timestamp,
    context: &Option<Value>,
    integrations: &Option<Value>,
) -> (payload: RudderBatchMessage)
    ensures
        payload@ == canonical_child(child@, sent_at, original_timestamp, *context, *integrations),
{
    match child {
        BatchMessage::Identify(event) => RudderBatchMessage::Identify(
            identify_with(event, sent_at, original_timestamp, context, integrations),
        ),
        BatchMessage::Track(event) => RudderBatchMessage::Track(
            track_with(event, sent_at, original_timestamp, context, integrations),
        ),
        BatchMessage::Page(event) => RudderBatchMessage::Page(
            page_with(event, sent_at, original_timestamp, context, integrations),
        ),
        BatchMessage::Screen(event) => RudderBatchMessage::Screen(
            screen_with(event, sent_at, original_timestamp, context, integrations),
        ),
        BatchMessage::Group(event) => RudderBatchMessage::Group(
            group_with(event, sent_at, original_timestamp, context, integrations),
        ),
        BatchMessage::Alias(event) => RudderBatchMessage::Alias(
            alias_with(event, sent_at, original_timestamp, context, integrations),
        ),
    }
}

/// The canonical form of a batch that is sent at `sent_at` and taken to have
/// happened at `original_timestamp`. Its events keep their order, and each is
/// sent with the timestamps, context and integrations of the batch.
pub open spec fn canonical_batch(
    batch: BatchView,
    sent_at: Timestamp,
    original_timestamp: Timestamp,
) -> RudderBatchView {
    RudderBatchView {
        batch: batch.messages.map_values(
            |child: BatchMessageView|
                canonical_child(
                    child,
                    sent_at,
                    original_timestamp,
                    batch.context,
                    batch.integrations,
                ),
        ),
        integrations: batch.integrations,
        context: batch.context,
        message_type: "batch"@,
        original_timestamp,
        sent_at,
    }
}

/// Builds the canonical form of a batch, event by event.
pub(crate) fn batch_with(batch: &Batch, sent_at: Timestamp, original_timestamp: Timestamp) -> (payload:
    RudderBatch)
    ensures
        payload@ == canonical_batch(batch@, sent_at, original_timestamp),
{
    let integrations = clone_json(&batch.integrations);
    let context = clone_json(&batch.context);

    let mut children: Vec<RudderBatchMessage> = Vec::new();
    let mut done: usize = 0;
    while done < batch.messages.len()
        invariant
            done <= batch.messages.len(),
            children.len() == done,
            context == batch.context,
            integrations == batch.integrations,
            forall|i: int|
                0 <= i < done ==> (#[trigger] children[i])@ == canonical_child(
                    batch.messages[i]@,
                    sent_at,
                    original_timestamp,
                    batch.context,
                    batch.integrations,
                ),
        decreases batch.messages.len() - done,
    {
        let child = child_with(
            &batch.messages[done],
            sent_at,
            original_timestamp,
            &context,
            &integrations,
        );
        children.push(child);
        done = done + 1;
    }

    let payload = RudderBatch {
        batch: children,
        integrations,
        context,
        message_type: "batch".to_string(),
        original_timestamp,
        sent_at,
    };
    assert(payload@.batch =~= canonical_batch(batch@, sent_at, original_timestamp).batch);
    payload
}

/// What [`parse_batch_at`] returns: the batch in canonical form, with its own
/// timestamp where it has one.
pub open spec fn spec_parse_batch(batch: BatchView, sent_at: Timestamp) -> RudderMessageView {
    RudderMessageView::Batch(
        canonical_batch(batch, sent_at, resolve_original(batch.original_timestamp, sent_at)),
    )
}

/// Turns a batch that is sent at `sent_at` into its canonical payload.
pub fn parse_batch_at(batch: &Batch, sent_at: Timestamp) -> (payload: RudderMessage)
    ensures
        payload@ == spec_parse_batch(batch@, sent_at),
{
    let original_timestamp = original_or(batch.original_timestamp, sent_at);
    RudderMessage::Batch(batch_with(batch, sent_at, original_timestamp))
}

/// Turns a batch into its canonical payload, sent now.
pub fn parse_batch(batch: &Batch) -> (payload: RudderMessage)
    ensures
        payload@ == spec_parse_batch(batch@, payload@.sent_at()),
{
    parse_batch_at(batch, now())
}

/// The canonical payload of an event that is sent at `sent_at`.
pub open spec fn normalize(message: MessageKindView, sent_at: Timestamp) -> RudderMessageView {
    match message {
        MessageKindView::Identify(event) => spec_parse_identify(event, sent_at),
        MessageKindView::Track(event) => spec_parse_track(event, sent_at),
        MessageKindView::Page(event) => spec_parse_page(event, sent_at),
        MessageKindView::Screen(event) => spec_parse_screen(event, sent_at),
        MessageKindView::Group(event) => spec_parse_group(event, sent_at),
        MessageKindView::Alias(event) => spec_parse_alias(event, sent_at),
        MessageKindView::Batch(batch) => spec_parse_batch(batch, sent_at),
    }
}

/// Turns an event that is sent at `sent_at` into its canonical payload.
pub fn normalize_at(message: &MessageKind, sent_at: Timestamp) -> (payload: RudderMessage)
    ensures
        payload@ == normalize(message@, sent_at),
{
    match message {
        MessageKind::Identify(event) => parse_identify_at(event, sent_at),
        MessageKind::Track(event) => parse_track_at(event, sent_at),
        MessageKind::Page(event) => parse_page_at(event, sent_at),
        MessageKind::Screen(event) => parse_screen_at(event, sent_at),
        MessageKind::Group(event) => parse_group_at(event, sent_at),
        MessageKind::Alias(event) => parse_alias_at(event, sent_at),
        MessageKind::Batch(batch) => parse_batch_at(batch, sent_at),
    }
}

/// The timestamp the caller supplied with an event, if any.
pub open spec fn supplied_timestamp(message: MessageKindView) -> Option<Timestamp> {
    match message {
        MessageKindView::Identify(event) => event.original_timestamp,
        MessageKindView::Track(event) => event.original_timestamp,
        MessageKindView::Page(event) => event.original_timestamp,
        MessageKindView::Screen(event) => event.original_timestamp,
        MessageKindView::Group(event) => event.original_timestamp,
        MessageKindView::Alias(event) => event.original_timestamp,
        MessageKindView::Batch(batch) => batch.original_timestamp,
    }
}

/// A payload is sent at the send time it was normalized at. Its original
/// timestamp is the one the caller supplied, exactly, and the send time where
/// the caller supplied none.
pub proof fn lemma_original_timestamp_is_kept_or_defaulted(
    message: MessageKindView,
    sent_at: Timestamp,
)
    ensures
        normalize(message, sent_at).sent_at() == sent_at,
        supplied_timestamp(message) matches Some(supplied) ==> normalize(
            message,
            sent_at,
        ).original_timestamp() == supplied,
        supplied_timestamp(message) is None ==> normalize(message, sent_at).original_timestamp()
            == normalize(message, sent_at).sent_at(),
{
}

/// A batch of N events becomes a wrapper around N canonical events, in the
/// same order. The wrapper keeps the context and integrations of the batch,
/// and every event in it is sent with the wrapper's send time, original
/// timestamp, context and integrations, whatever the event itself supplied.
pub proof fn lemma_batch_is_flattened_uniformly(batch: BatchView, sent_at: Timestamp)
    ensures
        normalize(MessageKindView::Batch(batch), sent_at) matches RudderMessageView::Batch(wrapper)
            && {
            &&& wrapper.batch.len() == batch.messages.len()
            &&& wrapper.sent_at == sent_at
            &&& wrapper.context == batch.context
            &&& wrapper.integrations == batch.integrations
            &&& forall|i: int|
                0 <= i < wrapper.batch.len() ==> {
                    &&& (#[trigger] wrapper.batch[i]).sent_at() == wrapper.sent_at
                    &&& wrapper.batch[i].original_timestamp() == wrapper.original_timestamp
                    &&& wrapper.batch[i].context() == wrapper.context
                    &&& wrapper.batch[i].integrations() == wrapper.integrations
                }
        },
{
}

/// The kind of an event survives normalization: the i-th event of the wrapper
/// is the canonical form of the i-th event of the batch.
pub proof fn lemma_batch_children_keep_their_place(batch: BatchView, sent_at: Timestamp, i: int)
    requires
        0 <= i < batch.messages.len(),
    ensures
        normalize(MessageKindView::Batch(batch), sent_at) matches RudderMessageView::Batch(wrapper)
            && wrapper.batch[i] == canonical_child(
            batch.messages[i],
            sent_at,
            wrapper.original_timestamp,
            batch.context,
            batch.integrations,
        ),
{
}

impl vstd::std_specs::convert::FromSpecImpl<&MessageKind> for RudderMessage {
    /// The conversion reads the clock, so no spec function gives its result.
    open spec fn obeys_from_spec() -> bool {
        false
    }

    open spec fn from_spec(message: &MessageKind) -> RudderMessage {
        arbitrary()
    }
}

impl From<&MessageKind> for RudderMessage {
    /// Turns an event into its canonical payload, sent now: the clock is read
    /// once, and the payload is the one [`normalize`] gives for the send time
    /// that the payload reports.
    fn from(message: &MessageKind) -> (payload: RudderMessage)
        ensures
            payload@ == normalize(message@, payload@.sent_at()),
    {
        match message {
            MessageKind::Identify(event) => {
                let (sent_at, original_timestamp) = event.get_timings();
                RudderMessage::Identify(
                    identify_with(
                        event,
                        sent_at,
                        original_timestamp,
                        &event.context,
                        &event.integrations,
                    ),
                )
            },
            MessageKind::Track(event) => {
                let (sent_at, original_timestamp) = event.get_timings();
                RudderMessage::Track(
                    track_with(
                        event,
                        sent_at,
                        original_timestamp,
                        &event.context,
                        &event.integrations,
                    ),
                )
            },
            MessageKind::Page(event) => {
                let (sent_at, original_timestamp) = event.get_timings();
                RudderMessage::Page(
                    page_with(
                        event,
                        sent_at,
                        original_timestamp,
                        &event.context,
                        &event.integrations,
                    ),
                )
            },
            MessageKind::Screen(event) => {
                let (sent_at, original_timestamp) = event.get_timings();
                RudderMessage::Screen(
                    screen_with(
                        event,
                        sent_at,
                        original_timestamp,
                        &event.context,
                        &event.integrations,
                    ),
                )
            },
            MessageKind::Group(event) => {
                let (sent_at, original_timestamp) = event.get_timings();
                RudderMessage::Group(
                    group_with(
                        event,
                        sent_at,
                        original_timestamp,
                        &event.context,
                        &event.integrations,
                    ),
                )
            },
            MessageKind::Alias(event) => {
                let (sent_at, original_timestamp) = event.get_timings();
                RudderMessage::Alias(
                    alias_with(
                        event,
                        sent_at,
                        original_timestamp,
                        &event.context,
                        &event.integrations,
                    ),
                )
            },
            MessageKind::Batch(batch) => {
                let (sent_at, original_timestamp) = batch.get_timings();
                RudderMessage::Batch(batch_with(batch, sent_at, original_timestamp))
            },
        }
    }
}

} // verus!

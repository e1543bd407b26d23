//! The dispatcher's decisions: whether an event may go out, where to, with
//! which credentials and with which body.
//!
//! The library stops at the request. Submitting it, on a background thread
//! and without waiting for the answer, is left to the host.

use crate::errors::AnalyticsError;
use crate::message::{identity_pair, satisfies_identity_rule, MessageKind, MessageKindView};
use crate::rudder_message::{RudderMessage, RudderMessageView};
use crate::timestamp::{now, Timestamp};
use crate::utils::{normalize, normalize_at};
use vstd::prelude::*;
use vstd::string::StringExecFns;

verus! {

/// How long the transport may take to establish a connection, in seconds.
pub const CONNECT_TIMEOUT_SECS: u64 = 10;

/// The account an event is sent for, and the data plane it is sent to.
#[derive(PartialEq, Debug, Clone)]
pub struct RudderAnalytics {
    /// The credential of the account.
    pub write_key: String,
    /// The base URL of the data plane.
    pub data_plane_url: String,
}

/// What a [`RudderAnalytics`] holds, with its strings as sequences of
/// characters.
pub struct RudderAnalyticsView {
    pub write_key: Seq<char>,
    pub data_plane_url: Seq<char>,
}

impl View for RudderAnalytics {
    type V = RudderAnalyticsView;

    open spec fn view(&self) -> RudderAnalyticsView {
        RudderAnalyticsView { write_key: self.write_key@, data_plane_url: self.data_plane_url@ }
    }
}

/// An HTTP POST with basic authentication, ready to be submitted: the body is
/// encoded as JSON by whoever submits it.
#[derive(PartialEq, Debug, Clone)]
pub struct Request {
    /// The address to post to.
    pub url: String,
    /// The user name of the basic authentication.
    pub username: String,
    /// The password of the basic authentication.
    pub password: String,
    /// The payload.
    pub body: RudderMessage,
}

/// What a [`Request`] holds.
pub struct RequestView {
    pub url: Seq<char>,
    pub username: Seq<char>,
    pub password: Seq<char>,
    pub body: RudderMessageView,
}

impl View for Request {
    type V = RequestView;

    open spec fn view(&self) -> RequestView {
        RequestView {
            url: self.url@,
            username: self.username@,
            password: self.password@,
            body: self.body@,
        }
    }
}

/// The path of the endpoint that takes events of the kind of `message`.
pub open spec fn spec_endpoint_path(message: MessageKindView) -> Seq<char> {
    match message {
        MessageKindView::Identify(_) => "/v1/identify"@,
        MessageKindView::Track(_) => "/v1/track"@,
        MessageKindView::Page(_) => "/v1/page"@,
        MessageKindView::Screen(_) => "/v1/screen"@,
        MessageKindView::Group(_) => "/v1/group"@,
        MessageKindView::Alias(_) => "/v1/alias"@,
        MessageKindView::Batch(_) => "/v1/batch"@,
    }
}

/// Picks the path of the endpoint by the kind of the event.
pub fn endpoint_path(message: &MessageKind) -> (path: &'static str)
    ensures
        path@ == spec_endpoint_path(message@),
{
    match message {
        MessageKind::Identify(_) => "/v1/identify",
        MessageKind::Track(_) => "/v1/track",
        MessageKind::Page(_) => "/v1/page",
        MessageKind::Screen(_) => "/v1/screen",
        MessageKind::Group(_) => "/v1/group",
        MessageKind::Alias(_) => "/v1/alias",
        MessageKind::Batch(_) => "/v1/batch",
    }
}

/// The request that carries `message`, sent at `sent_at`: posted to the data
/// plane's URL followed by the path of the event's kind, with the write key
/// as user name and an empty password.
pub open spec fn spec_request(
    client: RudderAnalyticsView,
    message: MessageKindView,
    sent_at: Timestamp,
) -> RequestView {
    RequestView {
        url: client.data_plane_url + spec_endpoint_path(message),
        username: client.write_key,
        password: Seq::empty(),
        body: normalize(message, sent_at),
    }
}

/// What sending `message` at `sent_at` comes to: the request of
/// [`spec_request`] where the event meets the identity rule,
/// [`AnalyticsError::InvalidRequest`] where it does not.
pub open spec fn spec_send(
    client: RudderAnalyticsView,
    message: MessageKindView,
    sent_at: Timestamp,
) -> Result<RequestView, AnalyticsError> {
    if satisfies_identity_rule(message) {
        Ok(spec_request(client, message, sent_at))
    } else {
        Err(AnalyticsError::InvalidRequest)
    }
}

/// The outcome of a send, with the request by its view.
pub open spec fn outcome_view(outcome: Result<Request, AnalyticsError>) -> Result<
    RequestView,
    AnalyticsError,
> {
    match outcome {
        Ok(request) => Ok(request@),
        Err(error) => Err(error),
    }
}

/// An identify, track, page, screen or group event that has neither a user
/// id nor an anonymous id is never sent: the outcome is
/// [`AnalyticsError::InvalidRequest`], and there is no request.
pub proof fn lemma_missing_identity_is_never_sent(
    client: RudderAnalyticsView,
    message: MessageKindView,
    sent_at: Timestamp,
)
    requires
        !(message is Alias) && !(message is Batch),
        identity_pair(message).0 is None,
        identity_pair(message).1 is None,
    ensures
        spec_send(client, message, sent_at) == Err::<RequestView, AnalyticsError>(
            AnalyticsError::InvalidRequest,
        ),
{
}

impl RudderAnalytics {
    /// Sets the client up with the write key of the account and the URL of
    /// the data plane.
    #[must_use]
    pub fn load(write_key: String, data_plane_url: String) -> (client: RudderAnalytics)
        ensures
            client@ == (RudderAnalyticsView {
                write_key: write_key@,
                data_plane_url: data_plane_url@,
            }),
    {
        RudderAnalytics { write_key, data_plane_url }
    }

    /// Builds the request that carries `message`, sent at `sent_at`, without
    /// looking at the event's identity.
    fn request_at(&self, message: &MessageKind, sent_at: Timestamp) -> (request: Request)
        ensures
            request@ == spec_request(self@, message@, sent_at),
    {
        let path = endpoint_path(message);
        Request {
            url: self.data_plane_url.clone().concat(path),
            username: self.write_key.clone(),
            password: String::new(),
            body: normalize_at(message, sent_at),
        }
    }

    /// Validates an event and, where it passes, builds the request that
    /// carries it, sent at `sent_at`.
    pub fn send_at(&self, message: &MessageKind, sent_at: Timestamp) -> (outcome: Result<
        Request,
        AnalyticsError,
    >)
        ensures
            outcome_view(outcome) == spec_send(self@, message@, sent_at),
    {
        match message.validate() {
            Ok(()) => Ok(self.request_at(message, sent_at)),
            Err(error) => Err(error),
        }
    }

    /// Validates an event and, where it passes, builds the request that
    /// carries it, sent now. An event that breaks the identity rule gives
    /// [`AnalyticsError::InvalidRequest`] and no request, before the clock is
    /// read. Otherwise the request is the one [`spec_request`] gives for the
    /// send time that the payload reports.
    pub fn send(&self, message: &MessageKind) -> (outcome: Result<Request, AnalyticsError>)
        ensures
            outcome is Ok <==> satisfies_identity_rule(message@),
            outcome matches Err(error) ==> error == AnalyticsError::InvalidRequest,
            outcome matches Ok(request) ==> request@ == spec_request(
                self@,
                message@,
                request@.body.sent_at(),
            ),
    {
        match message.validate() {
            Ok(()) => Ok(self.request_at(message, now())),
            Err(error) => Err(error),
        }
    }
}

} // verus!

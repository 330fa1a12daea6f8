//! The message pipeline: from a payload that a client sent to an event in
//! the conversation's channel. A payload is published only once the
//! message store has recorded it.

use vstd::prelude::*;
use crate::conversation::ConversationKey;
use crate::conversation::MessageEvent;
use crate::conversation::MessageEventView;
use crate::conversation::Timestamp;
use crate::registry::ConversationRegistry;
use crate::registry::PublishOutcome;

verus! {

/// Why a payload was not published.
#[derive(Clone, Copy, Debug, PartialEq, Eq, Structural)]
pub enum IngestError {
    /// The message store could not record the payload. The payload is
    /// dropped: it is neither tried again nor published.
    StorageUnavailable,
}

/// A payload on its way to the message store: what is to be recorded, for
/// which conversation, from whom and when.
#[derive(Clone, Debug, PartialEq, Eq)]
pub struct AppendRequest {
    pub key: ConversationKey,
    pub sender_identity: String,
    pub content: String,
    pub sent_at: Timestamp,
}

/// The event that stands for a recorded payload: it carries the identifier
/// that the store gave, the sender's display name, and the content and the
/// time of the request.
pub open spec fn recorded_event(
    key: ConversationKey,
    sender_identity: Seq<char>,
    sender_display_name: Seq<char>,
    content: Seq<char>,
    sent_at: Timestamp,
    message_id: u64,
) -> MessageEventView {
    MessageEventView::text(
        message_id,
        sender_identity,
        sender_display_name,
        content,
        sent_at,
        key.spec_kind(),
    )
}

/// Whether a payload is published, given what the store said of it: it is
/// if and only if the store recorded it.
pub open spec fn is_published(stored: Result<u64, IngestError>) -> bool {
    stored is Ok
}

/// The event that is published for `request` once the store has recorded
/// it as message `message_id`.
pub fn text_event(request: AppendRequest, sender_display_name: String, message_id: u64) -> (event:
    MessageEvent)
    ensures
        event@ == recorded_event(
            request.key,
            request.sender_identity@,
            sender_display_name@,
            request.content@,
            request.sent_at,
            message_id,
        ),
{
    let kind = request.key.kind();
    MessageEvent::text(
        message_id,
        request.sender_identity,
        sender_display_name,
        request.content,
        request.sent_at,
        kind,
    )
}

/// Decides what becomes of `request` now that the store has answered:
/// `stored` is the identifier under which the payload was recorded, or the
/// store's failure. A recorded payload gives the event to publish; a
/// failure gives the error, and no event.
pub fn recorded(
    request: AppendRequest,
    sender_display_name: String,
    stored: Result<u64, IngestError>,
) -> (decided: Result<MessageEvent, IngestError>)
    ensures
        match decided {
            Ok(event) => stored is Ok && event@ == recorded_event(
                request.key,
                request.sender_identity@,
                sender_display_name@,
                request.content@,
                request.sent_at,
                stored->Ok_0,
            ),
            Err(e) => stored == Err::<u64, IngestError>(e),
        },
{
    match stored {
        Ok(message_id) => Ok(text_event(request, sender_display_name, message_id)),
        Err(e) => Err(e),
    }
}

/// Finishes the ingest of `request`: publishes the event of a recorded
/// payload to the request's conversation and says what became of it, or
/// returns the store's failure and publishes nothing.
///
/// The event that goes to the channel is the one that [`recorded`]
/// returns. How many subscribers the channel had is for the channel to say.
pub fn ingest(
    registry: &ConversationRegistry,
    request: AppendRequest,
    sender_display_name: String,
    stored: Result<u64, IngestError>,
) -> (published: Result<PublishOutcome, IngestError>)
    ensures
        published is Ok <==> is_published(stored),
        published matches Err(e) ==> stored == Err::<u64, IngestError>(e),
        published matches Ok(outcome) ==> (outcome is NoChannel <==> !registry@.contains_key(
            request.key,
        )),
        published matches Ok(PublishOutcome::Delivered(n)) ==> n >= 1,
{
    let key = request.key;
    match recorded(request, sender_display_name, stored) {
        Ok(event) => Ok(registry.publish(key, event)),
        Err(e) => Err(e),
    }
}

/// Events keep the order of the identifiers that the store gave: of two
/// recorded payloads, the one with the smaller identifier gives the event
/// with the smaller identifier, whatever else the two hold.
pub proof fn lemma_events_keep_store_order(
    key: ConversationKey,
    sender_identity: Seq<char>,
    sender_display_name: Seq<char>,
    first_content: Seq<char>,
    first_sent_at: Timestamp,
    first_id: u64,
    second_content: Seq<char>,
    second_sent_at: Timestamp,
    second_id: u64,
)
    requires
        first_id < second_id,
    ensures
        recorded_event(
            key,
            sender_identity,
            sender_display_name,
            first_content,
            first_sent_at,
            first_id,
        ).message_id < recorded_event(
            key,
            sender_identity,
            sender_display_name,
            second_content,
            second_sent_at,
            second_id,
        ).message_id,
{
}

} // verus!

//! Conversations and the events that are published to them.

use vstd::prelude::*;

verus! {

/// A point in time: whole seconds since the Unix epoch and the nanoseconds
/// past that second.
#[derive(Clone, Copy, Debug, PartialEq, Eq, Structural)]
pub struct Timestamp {
    pub secs: i64,
    pub nanos: u32,
}

/// The two kinds of conversation.
#[derive(Clone, Copy, Debug, PartialEq, Eq, Structural)]
pub enum ConversationKind {
    Room,
    Private,
}

/// What a published event carries.
#[derive(Clone, Copy, Debug, PartialEq, Eq, Structural)]
pub enum MessageType {
    /// A message that a participant wrote.
    Text,
    /// The display names of the identities that are online in a room.
    OnlineList,
}

/// The target of a publish or a subscription: a chat room or a two-party
/// private session.
#[derive(Clone, Copy, Debug, PartialEq, Eq, Structural)]
pub enum ConversationKey {
    Room(u32),
    PrivateSession(u64),
}

impl ConversationKey {
    pub open spec fn spec_kind(self) -> ConversationKind {
        match self {
            ConversationKey::Room(_) => ConversationKind::Room,
            ConversationKey::PrivateSession(_) => ConversationKind::Private,
        }
    }

    /// The kind of conversation that the key names.
    pub fn kind(&self) -> (k: ConversationKind)
        ensures
            k == self.spec_kind(),
    {
        match self {
            ConversationKey::Room(_) => ConversationKind::Room,
            ConversationKey::PrivateSession(_) => ConversationKind::Private,
        }
    }
}

impl MessageType {
    pub open spec fn spec_label(self) -> Seq<char> {
        match self {
            MessageType::Text => "text"@,
            MessageType::OnlineList => "online_list"@,
        }
    }

    /// The name of the type on the wire.
    pub fn label(&self) -> (s: String)
        ensures
            s@ == self.spec_label(),
    {
        match self {
            MessageType::Text => "text".to_string(),
            MessageType::OnlineList => "online_list".to_string(),
        }
    }
}

/// An event as it travels through a conversation's channel. It does not
/// change once it is built.
#[derive(Clone, Debug, PartialEq, Eq)]
pub struct MessageEvent {
    /// The identifier that the message store gave the message; 0 for an
    /// event that was never stored.
    pub message_id: u64,
    pub sender_identity: String,
    pub sender_display_name: String,
    pub content: String,
    pub sent_at: Timestamp,
    pub conversation_kind: ConversationKind,
    pub message_type: MessageType,
}

/// The plain values of a [`MessageEvent`].
pub struct MessageEventView {
    pub message_id: u64,
    pub sender_identity: Seq<char>,
    pub sender_display_name: Seq<char>,
    pub content: Seq<char>,
    pub sent_at: Timestamp,
    pub conversation_kind: ConversationKind,
    pub message_type: MessageType,
}

/// An event in the shape in which a room's connections send it to their
/// clients.
#[derive(Clone, Debug, PartialEq, Eq)]
pub struct WsMessage {
    pub id: u64,
    pub account: String,
    pub username: String,
    pub content: String,
    pub send_at: Timestamp,
    pub message_type: String,
}

/// An event in the shape in which a private session's connections send it
/// to their clients, and in which the history of a session is listed.
#[derive(Clone, Debug, PartialEq, Eq)]
pub struct PrivateMessage {
    pub message_id: i64,
    pub session_id: i64,
    pub sender_account: String,
    pub sender_username: String,
    pub content: String,
    pub sent_at: Timestamp,
}

/// The identity under which the server itself publishes.
pub open spec fn system_identity() -> Seq<char> {
    "system"@
}

/// The display name under which the server itself publishes.
pub open spec fn system_display_name() -> Seq<char> {
    "System"@
}

impl View for MessageEvent {
    type V = MessageEventView;

    open spec fn view(&self) -> MessageEventView {
        MessageEventView {
            message_id: self.message_id,
            sender_identity: self.sender_identity@,
            sender_display_name: self.sender_display_name@,
            content: self.content@,
            sent_at: self.sent_at,
            conversation_kind: self.conversation_kind,
            message_type: self.message_type,
        }
    }
}

impl MessageEventView {
    /// A participant's message.
    pub open spec fn text(
        message_id: u64,
        sender_identity: Seq<char>,
        sender_display_name: Seq<char>,
        content: Seq<char>,
        sent_at: Timestamp,
        conversation_kind: ConversationKind,
    ) -> MessageEventView {
        MessageEventView {
            message_id,
            sender_identity,
            sender_display_name,
            content,
            sent_at,
            conversation_kind,
            message_type: MessageType::Text,
        }
    }

    /// The server's notice of who is online in a room; `content` is the
    /// encoded list of display names.
    pub open spec fn online_list(content: Seq<char>, sent_at: Timestamp) -> MessageEventView {
        MessageEventView {
            message_id: 0,
            sender_identity: system_identity(),
            sender_display_name: system_display_name(),
            content,
            sent_at,
            conversation_kind: ConversationKind::Room,
            message_type: MessageType::OnlineList,
        }
    }
}

impl MessageEvent {
    /// A participant's message, as it is published once the message store
    /// has given it `message_id`.
    pub fn text(
        message_id: u64,
        sender_identity: String,
        sender_display_name: String,
        content: String,
        sent_at: Timestamp,
        conversation_kind: ConversationKind,
    ) -> (event: MessageEvent)
        ensures
            event@ == MessageEventView::text(
                message_id,
                sender_identity@,
                sender_display_name@,
                content@,
                sent_at,
                conversation_kind,
            ),
    {
        MessageEvent {
            message_id,
            sender_identity,
            sender_display_name,
            content,
            sent_at,
            conversation_kind,
            message_type: MessageType::Text,
        }
    }

    /// The server's notice of who is online in a room. `content` is the
    /// encoded list of display names.
    pub fn online_list(content: String, sent_at: Timestamp) -> (event: MessageEvent)
        ensures
            event@ == MessageEventView::online_list(content@, sent_at),
    {
        MessageEvent {
            message_id: 0,
            sender_identity: "system".to_string(),
            sender_display_name: "System".to_string(),
            content,
            sent_at,
            conversation_kind: ConversationKind::Room,
            message_type: MessageType::OnlineList,
        }
    }

    /// The event in the shape that a room's clients read.
    pub fn to_ws_message(&self) -> (message: WsMessage)
        ensures
            message.id == self.message_id,
            message.account@ == self.sender_identity@,
            message.username@ == self.sender_display_name@,
            message.content@ == self.content@,
            message.send_at == self.sent_at,
            message.message_type@ == self.message_type.spec_label(),
    {
        WsMessage {
            id: self.message_id,
            account: self.sender_identity.clone(),
            username: self.sender_display_name.clone(),
            content: self.content.clone(),
            send_at: self.sent_at,
            message_type: self.message_type.label(),
        }
    }

    /// The event in the shape that the clients of private session
    /// `session_id` read. Both identifiers are reinterpreted as signed
    /// 64-bit numbers.
    pub fn to_private_message(&self, session_id: u64) -> (message: PrivateMessage)
        ensures
            message.message_id == self.message_id as i64,
            message.session_id == session_id as i64,
            message.sender_account@ == self.sender_identity@,
            message.sender_username@ == self.sender_display_name@,
            message.content@ == self.content@,
            message.sent_at == self.sent_at,
    {
        PrivateMessage {
            message_id: self.message_id as i64,
            session_id: session_id as i64,
            sender_account: self.sender_identity.clone(),
            sender_username: self.sender_display_name.clone(),
            content: self.content.clone(),
            sent_at: self.sent_at,
        }
    }
}

} // verus!

use chat_server::conversation::ConversationKey;
use chat_server::conversation::ConversationKind;
use chat_server::conversation::MessageEvent;
use chat_server::conversation::MessageType;
use chat_server::conversation::PrivateMessage;
use chat_server::conversation::Timestamp;
use chat_server::conversation::WsMessage;
use chat_server::error::ApiError;
use chat_server::models::FriendRequestStatus;

fn at() -> Timestamp {
    Timestamp { secs: 1_700_000_000, nanos: 123_456_789 }
}

#[test]
fn a_key_knows_its_kind() {
    assert_eq!(ConversationKey::Room(7).kind(), ConversationKind::Room);
    assert_eq!(ConversationKey::PrivateSession(7).kind(), ConversationKind::Private);
}

#[test]
fn message_types_have_their_wire_names() {
    assert_eq!(MessageType::Text.label(), "text");
    assert_eq!(MessageType::OnlineList.label(), "online_list");
}

#[test]
fn a_text_event_holds_what_it_was_made_of() {
    let event = MessageEvent::text(
        42,
        "alice".to_string(),
        "Alice".to_string(),
        "hi".to_string(),
        at(),
        ConversationKind::Private,
    );
    assert_eq!(
        event,
        MessageEvent {
            message_id: 42,
            sender_identity: "alice".to_string(),
            sender_display_name: "Alice".to_string(),
            content: "hi".to_string(),
            sent_at: at(),
            conversation_kind: ConversationKind::Private,
            message_type: MessageType::Text,
        }
    );
}

#[test]
fn an_online_list_event_comes_from_the_system() {
    let event = MessageEvent::online_list("[\"alice\"]".to_string(), at());
    assert_eq!(
        event,
        MessageEvent {
            message_id: 0,
            sender_identity: "system".to_string(),
            sender_display_name: "System".to_string(),
            content: "[\"alice\"]".to_string(),
            sent_at: at(),
            conversation_kind: ConversationKind::Room,
            message_type: MessageType::OnlineList,
        }
    );
}

#[test]
fn an_event_in_the_shape_of_a_room_message() {
    let event = MessageEvent::text(
        42,
        "alice".to_string(),
        "Alice".to_string(),
        "hi".to_string(),
        at(),
        ConversationKind::Room,
    );
    assert_eq!(
        event.to_ws_message(),
        WsMessage {
            id: 42,
            account: "alice".to_string(),
            username: "Alice".to_string(),
            content: "hi".to_string(),
            send_at: at(),
            message_type: "text".to_string(),
        }
    );
    let notice = MessageEvent::online_list("[]".to_string(), at());
    assert_eq!(notice.to_ws_message().message_type, "online_list");
    assert_eq!(notice.to_ws_message().account, "system");
    assert_eq!(notice.to_ws_message().username, "System");
    assert_eq!(notice.to_ws_message().id, 0);
}

#[test]
fn an_event_in_the_shape_of_a_private_message() {
    let event = MessageEvent::text(
        42,
        "alice".to_string(),
        "Alice".to_string(),
        "hi".to_string(),
        at(),
        ConversationKind::Private,
    );
    assert_eq!(
        event.to_private_message(9),
        PrivateMessage {
            message_id: 42,
            session_id: 9,
            sender_account: "alice".to_string(),
            sender_username: "Alice".to_string(),
            content: "hi".to_string(),
            sent_at: at(),
        }
    );
    let large = MessageEvent::text(
        u64::MAX,
        "a".to_string(),
        "A".to_string(),
        "x".to_string(),
        at(),
        ConversationKind::Private,
    );
    assert_eq!(large.to_private_message(1 << 63).message_id, -1);
    assert_eq!(large.to_private_message(1 << 63).session_id, i64::MIN);
}

#[test]
fn failures_have_their_status_codes() {
    assert_eq!(ApiError::BadRequest.status_code(), 400);
    assert_eq!(ApiError::Unauthorized.status_code(), 401);
    assert_eq!(ApiError::Forbidden.status_code(), 403);
    assert_eq!(ApiError::NotFound.status_code(), 404);
    assert_eq!(ApiError::Internal.status_code(), 500);
}

#[test]
fn a_friend_request_status_is_written_in_capitals() {
    assert_eq!(FriendRequestStatus::PENDING.to_string(), "PENDING");
    assert_eq!(FriendRequestStatus::ACCEPTED.to_string(), "ACCEPTED");
    assert_eq!(FriendRequestStatus::REJECTED.to_string(), "REJECTED");
}

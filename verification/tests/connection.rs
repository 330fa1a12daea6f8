use chat_server::connection::Connection;
use chat_server::connection::ConnectionState;
use chat_server::connection::Delivery;
use chat_server::connection::InboundFrame;
use chat_server::connection::InboundStep;
use chat_server::connection::OutboundStep;
use chat_server::conversation::ConversationKey;
use chat_server::conversation::ConversationKind;
use chat_server::conversation::MessageEvent;
use chat_server::conversation::Timestamp;
use chat_server::pipeline::AppendRequest;
use chat_server::presence::PresenceStore;
use chat_server::registry::ConversationRegistry;

fn at() -> Timestamp {
    Timestamp { secs: 1_700_000_000, nanos: 0 }
}

fn event(id: u64) -> MessageEvent {
    MessageEvent::text(
        id,
        "bob".to_string(),
        "Bob".to_string(),
        "hello".to_string(),
        at(),
        ConversationKind::Room,
    )
}

fn active(key: ConversationKey, who: &str) -> Connection {
    let mut presence = PresenceStore::new();
    let mut registry = ConversationRegistry::new();
    let mut connection = Connection::new(key, who.to_string());
    assert!(connection.open(&mut presence, &mut registry, None).is_some());
    connection
}

#[test]
fn a_new_connection_is_connecting() {
    let connection = Connection::new(ConversationKey::Room(7), "alice".to_string());
    assert_eq!(connection.state(), ConnectionState::Connecting);
    assert_eq!(connection.key(), ConversationKey::Room(7));
    assert_eq!(connection.identity(), "alice");
    assert_eq!(connection.display_name(), "alice");
}

#[test]
fn opening_a_room_connection_marks_presence_and_subscribes() {
    let mut presence = PresenceStore::new();
    let mut registry = ConversationRegistry::new();
    let mut connection = Connection::new(ConversationKey::Room(7), "alice".to_string());
    let admission = connection.open(&mut presence, &mut registry, Some("Alice".to_string())).unwrap();
    assert!(admission.announce_presence);
    assert_eq!(connection.state(), ConnectionState::Active);
    assert_eq!(connection.display_name(), "Alice");
    assert_eq!(presence.snapshot(7), vec!["alice".to_string()]);
    assert!(registry.contains(ConversationKey::Room(7)));
    let mut receiver = admission.receiver;
    registry.publish(ConversationKey::Room(7), event(1));
    assert_eq!(receiver.try_recv().unwrap(), event(1));
}

#[test]
fn a_connection_without_a_display_name_goes_by_its_identity() {
    let mut presence = PresenceStore::new();
    let mut registry = ConversationRegistry::new();
    let mut connection = Connection::new(ConversationKey::Room(7), "alice".to_string());
    connection.open(&mut presence, &mut registry, None).unwrap();
    assert_eq!(connection.display_name(), "alice");
}

#[test]
fn opening_a_session_connection_leaves_presence_alone() {
    let mut presence = PresenceStore::new();
    let mut registry = ConversationRegistry::new();
    let mut connection = Connection::new(ConversationKey::PrivateSession(7), "alice".to_string());
    let admission = connection.open(&mut presence, &mut registry, None).unwrap();
    assert!(!admission.announce_presence);
    assert_eq!(presence.snapshot(7), Vec::<String>::new());
    assert!(registry.contains(ConversationKey::PrivateSession(7)));
    assert!(!registry.contains(ConversationKey::Room(7)));
}

#[test]
fn a_connection_is_admitted_once() {
    let mut presence = PresenceStore::new();
    let mut registry = ConversationRegistry::new();
    let mut connection = Connection::new(ConversationKey::Room(7), "alice".to_string());
    assert!(connection.open(&mut presence, &mut registry, Some("Alice".to_string())).is_some());
    presence.set_offline(7, "alice");
    assert!(connection.open(&mut presence, &mut registry, Some("Other".to_string())).is_none());
    assert_eq!(connection.display_name(), "Alice");
    assert_eq!(connection.state(), ConnectionState::Active);
    assert_eq!(presence.snapshot(7), Vec::<String>::new());
}

#[test]
fn a_rejected_connection_is_closed_and_never_subscribed() {
    let mut presence = PresenceStore::new();
    let mut registry = ConversationRegistry::new();
    let mut connection = Connection::new(ConversationKey::PrivateSession(3), "mallory".to_string());
    connection.reject();
    assert_eq!(connection.state(), ConnectionState::Closed);
    assert!(connection.open(&mut presence, &mut registry, None).is_none());
    assert!(!registry.contains(ConversationKey::PrivateSession(3)));
    assert_eq!(connection.state(), ConnectionState::Closed);
}

#[test]
fn rejecting_an_active_connection_changes_nothing() {
    let mut connection = active(ConversationKey::Room(1), "alice");
    connection.reject();
    assert_eq!(connection.state(), ConnectionState::Active);
}

#[test]
fn a_text_frame_becomes_a_request_to_the_store() {
    let connection = active(ConversationKey::Room(7), "alice");
    let step = connection.inbound_step(InboundFrame::Text("hi".to_string()), at());
    assert_eq!(
        step,
        InboundStep::Append(AppendRequest {
            key: ConversationKey::Room(7),
            sender_identity: "alice".to_string(),
            content: "hi".to_string(),
            sent_at: at(),
        })
    );
}

#[test]
fn only_the_transport_ends_the_inbound_loop() {
    let connection = active(ConversationKey::Room(7), "alice");
    assert_eq!(connection.inbound_step(InboundFrame::Failed, at()), InboundStep::Stop);
    assert_eq!(connection.inbound_step(InboundFrame::End, at()), InboundStep::Stop);
    assert_eq!(connection.on_frame(InboundFrame::Failed), InboundStep::Stop);
    assert_eq!(connection.on_frame(InboundFrame::End), InboundStep::Stop);
}

#[test]
fn a_frame_that_is_not_text_is_passed_over() {
    let connection = active(ConversationKey::Room(7), "alice");
    assert_eq!(connection.inbound_step(InboundFrame::Other, at()), InboundStep::Skip);
    assert_eq!(connection.on_frame(InboundFrame::Other), InboundStep::Skip);
    let after = connection.inbound_step(InboundFrame::Text("b".to_string()), at());
    assert_eq!(
        after,
        InboundStep::Append(AppendRequest {
            key: ConversationKey::Room(7),
            sender_identity: "alice".to_string(),
            content: "b".to_string(),
            sent_at: at(),
        })
    );
}

#[test]
fn a_connection_that_is_not_active_reads_nothing() {
    let connecting = Connection::new(ConversationKey::Room(7), "alice".to_string());
    assert_eq!(connecting.inbound_step(InboundFrame::Text("hi".to_string()), at()), InboundStep::Stop);
    let mut closing = active(ConversationKey::Room(7), "alice");
    closing.begin_close();
    assert_eq!(closing.inbound_step(InboundFrame::Text("hi".to_string()), at()), InboundStep::Stop);
    assert_eq!(closing.on_frame(InboundFrame::Text("hi".to_string())), InboundStep::Stop);
    assert_eq!(closing.inbound_step(InboundFrame::Other, at()), InboundStep::Stop);
    assert_eq!(connecting.on_frame(InboundFrame::Other), InboundStep::Stop);
}

#[test]
fn on_frame_stamps_the_request_with_the_time_of_the_call() {
    let connection = active(ConversationKey::PrivateSession(5), "alice");
    match connection.on_frame(InboundFrame::Text("hi".to_string())) {
        InboundStep::Append(request) => {
            assert_eq!(request.key, ConversationKey::PrivateSession(5));
            assert_eq!(request.sender_identity, "alice");
            assert_eq!(request.content, "hi");
            assert!(request.sent_at.secs > 1_600_000_000);
            assert!(request.sent_at.nanos < 2_000_000_000);
        }
        other => panic!("a text frame on an active connection is appended, not {:?}", other),
    }
}

#[test]
fn an_active_connection_writes_every_event_it_is_given() {
    let connection = active(ConversationKey::Room(7), "alice");
    assert_eq!(connection.on_delivery(Delivery::Event(event(1))), OutboundStep::Write(event(1)));
    assert_eq!(connection.on_delivery(Delivery::Event(event(2))), OutboundStep::Write(event(2)));
}

#[test]
fn a_gap_is_skipped_and_a_closed_channel_ends_the_outbound_loop() {
    let connection = active(ConversationKey::Room(7), "alice");
    assert_eq!(connection.on_delivery(Delivery::Lagged(12)), OutboundStep::Skip);
    assert_eq!(connection.on_delivery(Delivery::Closed), OutboundStep::Stop);
}

#[test]
fn a_connection_that_is_not_active_writes_nothing() {
    let connecting = Connection::new(ConversationKey::Room(7), "alice".to_string());
    assert_eq!(connecting.on_delivery(Delivery::Event(event(1))), OutboundStep::Stop);
    let mut closed = active(ConversationKey::Room(7), "alice");
    let mut presence = PresenceStore::new();
    closed.begin_close();
    assert_eq!(closed.on_delivery(Delivery::Event(event(1))), OutboundStep::Stop);
    assert_eq!(closed.on_delivery(Delivery::Lagged(1)), OutboundStep::Stop);
    closed.finish_close(&mut presence);
    assert_eq!(closed.on_delivery(Delivery::Event(event(1))), OutboundStep::Stop);
}

#[test]
fn a_failed_write_ends_the_outbound_loop() {
    let mut connection = active(ConversationKey::Room(7), "alice");
    assert!(connection.after_write(true));
    assert!(!connection.after_write(false));
    connection.begin_close();
    assert!(!connection.after_write(true));
}

#[test]
fn closing_goes_through_closing_to_closed() {
    let mut presence = PresenceStore::new();
    let mut registry = ConversationRegistry::new();
    let mut connection = Connection::new(ConversationKey::Room(7), "alice".to_string());
    assert!(!connection.begin_close());
    assert_eq!(connection.state(), ConnectionState::Connecting);
    connection.open(&mut presence, &mut registry, None).unwrap();
    assert!(!connection.finish_close(&mut presence));
    assert_eq!(connection.state(), ConnectionState::Active);
    assert_eq!(presence.snapshot(7), vec!["alice".to_string()]);
    assert!(connection.begin_close());
    assert_eq!(connection.state(), ConnectionState::Closing);
    assert!(!connection.begin_close());
    assert!(connection.finish_close(&mut presence));
    assert_eq!(connection.state(), ConnectionState::Closed);
    assert_eq!(presence.snapshot(7), Vec::<String>::new());
    assert!(!connection.finish_close(&mut presence));
    assert!(!connection.begin_close());
    assert_eq!(connection.state(), ConnectionState::Closed);
}

#[test]
fn closing_a_session_connection_announces_nothing() {
    let mut presence = PresenceStore::new();
    let mut registry = ConversationRegistry::new();
    presence.set_online(5, "alice".to_string());
    let mut connection = Connection::new(ConversationKey::PrivateSession(5), "alice".to_string());
    connection.open(&mut presence, &mut registry, None).unwrap();
    assert!(connection.begin_close());
    assert!(!connection.finish_close(&mut presence));
    assert_eq!(connection.state(), ConnectionState::Closed);
    assert_eq!(presence.snapshot(5), vec!["alice".to_string()]);
}

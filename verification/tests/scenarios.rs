use chat_server::connection::Delivery;
use chat_server::connection::InboundFrame;
use chat_server::connection::InboundStep;
use chat_server::connection::OutboundStep;
use chat_server::conversation::ConversationKey;
use chat_server::conversation::MessageEvent;
use chat_server::conversation::MessageType;
use chat_server::error::ApiError;
use chat_server::handlers::broadcast_online_list;
use chat_server::handlers::handle_private_websocket;
use chat_server::handlers::handle_websocket;
use chat_server::handlers::resolve_private_chat;
use chat_server::models::Claims;
use chat_server::conversation::ConversationKind;
use chat_server::models::StartPrivateChatRequest;
use chat_server::pipeline::ingest;
use chat_server::presence::PresenceStore;
use chat_server::registry::ConversationRegistry;
use chat_server::registry::PublishOutcome;
use tokio::sync::broadcast::Receiver;

fn claims(account: &str) -> Claims {
    Claims { sub: account.to_string(), exp: 2_000_000_000, iat: 1_999_996_400 }
}

/// What the lookup of display names finds here: everybody goes by their
/// account.
fn lookups(identities: &[String]) -> Vec<Option<String>> {
    identities.iter().map(|identity| Some(identity.clone())).collect()
}

fn next(receiver: &mut Receiver<MessageEvent>) -> MessageEvent {
    receiver.try_recv().unwrap()
}

#[test]
fn two_connections_share_a_room() {
    let mut presence = PresenceStore::new();
    let mut registry = ConversationRegistry::new();

    let (mut alice, admission) =
        handle_websocket(&claims("alice"), 7, Some("alice".to_string()), &mut presence, &mut registry);
    let mut to_alice = admission.receiver;
    assert_eq!(presence.snapshot(7), vec!["alice".to_string()]);
    broadcast_online_list(&registry, 7, &lookups(&presence.snapshot(7))).unwrap();
    assert_eq!(next(&mut to_alice).content, "[\"alice\"]");

    let (mut bob, admission) =
        handle_websocket(&claims("bob"), 7, Some("bob".to_string()), &mut presence, &mut registry);
    let mut to_bob = admission.receiver;
    assert!(admission.announce_presence);
    assert_eq!(presence.snapshot(7), vec!["alice".to_string(), "bob".to_string()]);
    assert_eq!(
        broadcast_online_list(&registry, 7, &lookups(&presence.snapshot(7))),
        Some(PublishOutcome::Delivered(2))
    );
    for receiver in [&mut to_alice, &mut to_bob] {
        let notice = next(receiver);
        assert_eq!(notice.message_type, MessageType::OnlineList);
        assert_eq!(notice.to_ws_message().message_type, "online_list");
        assert_eq!(notice.content, "[\"alice\",\"bob\"]");
    }

    let mut last_id = 0;
    for (payload, id) in [("hi", 41u64), ("again", 42u64)] {
        let request = match alice.on_frame(InboundFrame::Text(payload.to_string())) {
            InboundStep::Append(request) => request,
            other => panic!("alice is active and reads text, not {:?}", other),
        };
        let outcome = ingest(&registry, request, alice.display_name().clone(), Ok(id));
        assert_eq!(outcome, Ok(PublishOutcome::Delivered(2)));
        for (connection, receiver) in [(&alice, &mut to_alice), (&bob, &mut to_bob)] {
            let written = match connection.on_delivery(Delivery::Event(next(receiver))) {
                OutboundStep::Write(event) => event.to_ws_message(),
                other => panic!("an active connection writes, not {:?}", other),
            };
            assert_eq!(written.message_type, "text");
            assert_eq!(written.content, payload);
            assert_eq!(written.account, "alice");
            assert_eq!(written.id, id);
            assert!(written.id > last_id);
        }
        last_id = id;
    }

    assert!(bob.begin_close());
    drop(to_bob);
    assert!(bob.finish_close(&mut presence));
    assert_eq!(presence.snapshot(7), vec!["alice".to_string()]);
    assert_eq!(
        broadcast_online_list(&registry, 7, &lookups(&presence.snapshot(7))),
        Some(PublishOutcome::Delivered(1))
    );
    let notice = next(&mut to_alice);
    assert_eq!(notice.message_type, MessageType::OnlineList);
    assert_eq!(notice.content, "[\"alice\"]");

    assert!(alice.begin_close());
    drop(to_alice);
    assert!(alice.finish_close(&mut presence));
    assert_eq!(presence.snapshot(7), Vec::<String>::new());
    assert_eq!(
        broadcast_online_list(&registry, 7, &lookups(&presence.snapshot(7))),
        Some(PublishOutcome::NoSubscribers)
    );
}

#[test]
fn strangers_get_no_private_session() {
    let registry = ConversationRegistry::new();
    let request = StartPrivateChatRequest { friend_account: "y".to_string() };
    let refused = resolve_private_chat(&claims("x"), request, false, Some("Y".to_string()));
    assert_eq!(refused, Err(ApiError::Forbidden));
    assert_eq!(refused.unwrap_err().status_code(), 403);
    assert!(!registry.contains(ConversationKey::PrivateSession(1)));
}

#[test]
fn an_identity_with_two_connections_is_listed_once() {
    let mut presence = PresenceStore::new();
    let mut registry = ConversationRegistry::new();
    let (mut first, _one) = handle_websocket(&claims("alice"), 7, None, &mut presence, &mut registry);
    let (second, _two) = handle_websocket(&claims("alice"), 7, None, &mut presence, &mut registry);
    assert_eq!(presence.snapshot(7), vec!["alice".to_string()]);
    assert!(first.begin_close());
    assert!(first.finish_close(&mut presence));
    assert_eq!(presence.snapshot(7), Vec::<String>::new());
    assert_eq!(second.key(), ConversationKey::Room(7));
}

#[test]
fn frames_that_are_not_text_do_not_cut_a_session_short() {
    let mut registry = ConversationRegistry::new();
    let (alice, admission) = handle_private_websocket(&claims("alice"), 5, Some(true), None, &mut registry);
    let mut to_alice = admission.ok().unwrap().receiver;

    let frames = vec![
        InboundFrame::Text("a".to_string()),
        InboundFrame::Other,
        InboundFrame::Text("b".to_string()),
        InboundFrame::End,
        InboundFrame::Text("never read".to_string()),
    ];
    let mut next_id = 10u64;
    let mut read = 0;
    for frame in frames {
        read += 1;
        match alice.on_frame(frame) {
            InboundStep::Append(request) => {
                next_id += 1;
                let outcome = ingest(&registry, request, alice.display_name().clone(), Ok(next_id));
                assert_eq!(outcome, Ok(PublishOutcome::Delivered(1)));
            }
            InboundStep::Skip => {}
            InboundStep::Stop => break,
        }
    }
    assert_eq!(read, 4);

    let first = next(&mut to_alice);
    let second = next(&mut to_alice);
    assert_eq!((first.content.as_str(), first.message_id), ("a", 11));
    assert_eq!((second.content.as_str(), second.message_id), ("b", 12));
    assert_eq!(first.conversation_kind, ConversationKind::Private);
    assert_eq!(first.to_private_message(5).session_id, 5);
    assert!(to_alice.try_recv().is_err());
}

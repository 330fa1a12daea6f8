use chat_server::conversation::ConversationKey;
use chat_server::conversation::ConversationKind;
use chat_server::conversation::MessageEvent;
use chat_server::conversation::Timestamp;
use chat_server::registry::publish_outcome;
use chat_server::registry::ConversationRegistry;
use chat_server::registry::PublishOutcome;
use chat_server::registry::CHANNEL_CAPACITY;
use tokio::sync::broadcast::error::TryRecvError;

fn event(id: u64, content: &str) -> MessageEvent {
    MessageEvent::text(
        id,
        "alice".to_string(),
        "Alice".to_string(),
        content.to_string(),
        Timestamp { secs: 1_700_000_000, nanos: 5 },
        ConversationKind::Room,
    )
}

#[test]
fn a_new_registry_has_no_channels() {
    let registry = ConversationRegistry::new();
    assert!(!registry.contains(ConversationKey::Room(7)));
    assert!(!registry.contains(ConversationKey::PrivateSession(7)));
}

#[test]
fn publish_without_a_channel_is_dropped() {
    let registry = ConversationRegistry::new();
    assert_eq!(registry.publish(ConversationKey::Room(7), event(1, "hi")), PublishOutcome::NoChannel);
    assert!(!registry.contains(ConversationKey::Room(7)));
}

#[test]
fn the_first_request_makes_the_channel_and_later_ones_share_it() {
    let mut registry = ConversationRegistry::new();
    let first = registry.get_or_create_channel(ConversationKey::Room(7));
    assert!(registry.contains(ConversationKey::Room(7)));
    let second = registry.get_or_create_channel(ConversationKey::Room(7));
    assert!(first.same_channel(&second));
    let other = registry.get_or_create_channel(ConversationKey::Room(8));
    assert!(!first.same_channel(&other));
}

#[test]
fn two_first_subscribers_share_one_channel() {
    let mut registry = ConversationRegistry::new();
    let mut a = registry.subscribe(ConversationKey::Room(7));
    let mut b = registry.subscribe(ConversationKey::Room(7));
    assert!(a.same_channel(&b));
    assert_eq!(
        registry.publish(ConversationKey::Room(7), event(1, "hi")),
        PublishOutcome::Delivered(2)
    );
    assert_eq!(a.try_recv().unwrap(), event(1, "hi"));
    assert_eq!(b.try_recv().unwrap(), event(1, "hi"));
}

#[test]
fn a_room_and_a_session_with_the_same_number_are_different_conversations() {
    let mut registry = ConversationRegistry::new();
    let mut room = registry.subscribe(ConversationKey::Room(7));
    assert!(!registry.contains(ConversationKey::PrivateSession(7)));
    let mut session = registry.subscribe(ConversationKey::PrivateSession(7));
    assert!(!room.same_channel(&session));
    registry.publish(ConversationKey::PrivateSession(7), event(3, "psst"));
    assert_eq!(session.try_recv().unwrap(), event(3, "psst"));
    assert_eq!(room.try_recv(), Err(TryRecvError::Empty));
}

#[test]
fn every_subscriber_gets_the_event_and_who_left_is_not_counted() {
    let mut registry = ConversationRegistry::new();
    let key = ConversationKey::Room(7);
    let mut receivers = Vec::new();
    for _ in 0..5 {
        receivers.push(registry.subscribe(key));
    }
    let gone = receivers.pop().unwrap();
    drop(gone);
    let gone = receivers.remove(0);
    drop(gone);
    assert_eq!(registry.publish(key, event(1, "hello")), PublishOutcome::Delivered(3));
    for receiver in receivers.iter_mut() {
        assert_eq!(receiver.try_recv().unwrap(), event(1, "hello"));
        assert_eq!(receiver.try_recv(), Err(TryRecvError::Empty));
    }
}

#[test]
fn a_subscriber_gets_only_what_is_published_after_it_subscribed() {
    let mut registry = ConversationRegistry::new();
    let key = ConversationKey::Room(7);
    let mut early = registry.subscribe(key);
    registry.publish(key, event(1, "one"));
    let mut late = registry.subscribe(key);
    registry.publish(key, event(2, "two"));
    assert_eq!(early.try_recv().unwrap(), event(1, "one"));
    assert_eq!(early.try_recv().unwrap(), event(2, "two"));
    assert_eq!(late.try_recv().unwrap(), event(2, "two"));
    assert_eq!(late.try_recv(), Err(TryRecvError::Empty));
}

#[test]
fn publish_with_a_channel_and_no_subscribers_is_dropped() {
    let mut registry = ConversationRegistry::new();
    let key = ConversationKey::PrivateSession(11);
    let _ = registry.get_or_create_channel(key);
    assert_eq!(registry.publish(key, event(1, "hi")), PublishOutcome::NoSubscribers);
    let receiver = registry.subscribe(key);
    drop(receiver);
    assert_eq!(registry.publish(key, event(2, "hi")), PublishOutcome::NoSubscribers);
}

#[test]
fn events_arrive_in_the_order_in_which_they_were_published() {
    let mut registry = ConversationRegistry::new();
    let key = ConversationKey::Room(1);
    let mut a = registry.subscribe(key);
    let mut b = registry.subscribe(key);
    for id in 1..=10u64 {
        registry.publish(key, event(id, "m"));
    }
    for id in 1..=10u64 {
        assert_eq!(a.try_recv().unwrap().message_id, id);
        assert_eq!(b.try_recv().unwrap().message_id, id);
    }
}

#[test]
fn a_slow_subscriber_loses_the_oldest_events_and_the_publisher_goes_on() {
    let mut registry = ConversationRegistry::new();
    let key = ConversationKey::Room(1);
    let mut slow = registry.subscribe(key);
    let total = 4 * CHANNEL_CAPACITY as u64;
    for id in 1..=total {
        assert_eq!(registry.publish(key, event(id, "m")), PublishOutcome::Delivered(1));
    }
    let missed = match slow.try_recv() {
        Err(TryRecvError::Lagged(missed)) => missed,
        other => panic!("expected a gap, got {:?}", other),
    };
    assert!(missed >= total - 2 * CHANNEL_CAPACITY as u64);
    assert_eq!(slow.try_recv().unwrap().message_id, missed + 1);
}

#[test]
fn the_capacity_of_a_channel_is_one_hundred() {
    assert_eq!(CHANNEL_CAPACITY, 100);
}

#[test]
fn the_outcome_follows_what_the_channel_said() {
    assert_eq!(publish_outcome(Some(3)), PublishOutcome::Delivered(3));
    assert_eq!(publish_outcome(None), PublishOutcome::NoSubscribers);
}

//! The conversation registry: which channel belongs to which conversation.

use std::collections::HashMap;
use tokio::sync::broadcast::Receiver;
use tokio::sync::broadcast::Sender;
use vstd::prelude::*;
use crate::channel::attach_receiver;
use crate::channel::open_channel;
use crate::channel::send_event;
use crate::channel::share_sender;
use crate::conversation::ConversationKey;
use crate::conversation::MessageEvent;

verus! {

broadcast use vstd::std_specs::hash::group_hash_axioms;

/// How many events a channel keeps for a subscriber that has fallen
/// behind. Past that the oldest is dropped for that subscriber; the
/// publisher never waits.
pub const CHANNEL_CAPACITY: usize = 100;

/// What became of a published event.
#[derive(Clone, Copy, Debug, PartialEq, Eq, Structural)]
pub enum PublishOutcome {
    /// The conversation has no channel yet: nobody ever subscribed, and the
    /// event is dropped.
    NoChannel,
    /// The conversation has a channel and nobody is subscribed to it at the
    /// moment: the event is dropped.
    NoSubscribers,
    /// The event went to the channel, which had this many subscribers.
    Delivered(usize),
}

/// What a registry is after a channel was asked for under `key`, and which
/// channel is handed out: the one that was registered before, if any, and
/// else a new one, which is registered from then on.
pub open spec fn channel_opened(
    before: Map<ConversationKey, Sender<MessageEvent>>,
    key: ConversationKey,
    after: Map<ConversationKey, Sender<MessageEvent>>,
    handle: Sender<MessageEvent>,
) -> bool {
    &&& after.contains_key(key)
    &&& after[key] == handle
    &&& before.contains_key(key) ==> after == before
    &&& !before.contains_key(key) ==> after == before.insert(key, handle)
}

/// The outcome that stands for what the channel said of a send.
pub open spec fn outcome_of_send(receivers: Option<usize>) -> PublishOutcome {
    match receivers {
        Some(n) => PublishOutcome::Delivered(n),
        None => PublishOutcome::NoSubscribers,
    }
}

/// The outcome that stands for what the channel said of a send:
/// `receivers` is the number of subscribers it had, or `None` where it had
/// none.
pub fn publish_outcome(receivers: Option<usize>) -> (outcome: PublishOutcome)
    ensures
        outcome == outcome_of_send(receivers),
{
    match receivers {
        Some(n) => PublishOutcome::Delivered(n),
        None => PublishOutcome::NoSubscribers,
    }
}

/// The channels of the conversations that somebody has subscribed to. A
/// channel is made when its conversation is first asked for and stays as
/// long as the registry does.
pub struct ConversationRegistry {
    rooms: HashMap<u32, Sender<MessageEvent>>,
    sessions: HashMap<u64, Sender<MessageEvent>>,
}

impl View for ConversationRegistry {
    type V = Map<ConversationKey, Sender<MessageEvent>>;

    /// The channel of each conversation that has one.
    closed spec fn view(&self) -> Map<ConversationKey, Sender<MessageEvent>> {
        Map::new(
            |key: ConversationKey|
                match key {
                    ConversationKey::Room(room) => self.rooms@.contains_key(room),
                    ConversationKey::PrivateSession(session) => self.sessions@.contains_key(session),
                },
            |key: ConversationKey|
                match key {
                    ConversationKey::Room(room) => self.rooms@[room],
                    ConversationKey::PrivateSession(session) => self.sessions@[session],
                },
        )
    }
}

impl ConversationRegistry {
    /// A registry without channels.
    pub fn new() -> (registry: ConversationRegistry)
        ensures
            registry@ == Map::<ConversationKey, Sender<MessageEvent>>::empty(),
    {
        let registry = ConversationRegistry { rooms: HashMap::new(), sessions: HashMap::new() };
        assert(registry@ =~= Map::<ConversationKey, Sender<MessageEvent>>::empty());
        registry
    }

    /// Whether the conversation `key` has a channel.
    pub fn contains(&self, key: ConversationKey) -> (found: bool)
        ensures
            found == self@.contains_key(key),
    {
        match key {
            ConversationKey::Room(room) => self.rooms.contains_key(&room),
            ConversationKey::PrivateSession(session) => self.sessions.contains_key(&session),
        }
    }

    /// The channel of the conversation `key`, made now if the conversation
    /// had none. Whoever asks later gets the same channel.
    pub fn get_or_create_channel(&mut self, key: ConversationKey) -> (handle: Sender<MessageEvent>)
        ensures
            channel_opened(old(self)@, key, final(self)@, handle),
    {
        match key {
            ConversationKey::Room(room) => {
                let found = match self.rooms.get(&room) {
                    Some(sender) => Some(share_sender(sender)),
                    None => None,
                };
                match found {
                    Some(handle) => handle,
                    None => {
                        let sender = open_channel(CHANNEL_CAPACITY);
                        let handle = share_sender(&sender);
                        self.rooms.insert(room, sender);
                        assert(self@ =~= old(self)@.insert(key, handle));
                        handle
                    },
                }
            },
            ConversationKey::PrivateSession(session) => {
                let found = match self.sessions.get(&session) {
                    Some(sender) => Some(share_sender(sender)),
                    None => None,
                };
                match found {
                    Some(handle) => handle,
                    None => {
                        let sender = open_channel(CHANNEL_CAPACITY);
                        let handle = share_sender(&sender);
                        self.sessions.insert(session, sender);
                        assert(self@ =~= old(self)@.insert(key, handle));
                        handle
                    },
                }
            },
        }
    }

    /// Subscribes to the conversation `key`, whose channel is made now if
    /// it had none. The receiver gets the events published to `key` from
    /// now on, in the order in which they are published.
    pub fn subscribe(&mut self, key: ConversationKey) -> (receiver: Receiver<MessageEvent>)
        ensures
            exists|handle: Sender<MessageEvent>|
                channel_opened(old(self)@, key, final(self)@, handle),
    {
        let handle = self.get_or_create_channel(key);
        attach_receiver(&handle)
    }

    /// Publishes `event` to the conversation `key`. Where the conversation
    /// has no channel the event is dropped and nothing else happens; where
    /// it has one the event is handed to that channel, which says how many
    /// subscribers it had.
    pub fn publish(&self, key: ConversationKey, event: MessageEvent) -> (outcome: PublishOutcome)
        ensures
            outcome is NoChannel <==> !self@.contains_key(key),
            outcome matches PublishOutcome::Delivered(n) ==> n >= 1,
    {
        let sender = match key {
            ConversationKey::Room(room) => self.rooms.get(&room),
            ConversationKey::PrivateSession(session) => self.sessions.get(&session),
        };
        match sender {
            Some(sender) => publish_outcome(send_event(sender, event)),
            None => PublishOutcome::NoChannel,
        }
    }
}

/// Asking twice for the channel of one conversation gives the same channel
/// both times, and the second request changes nothing: whoever comes first
/// makes the channel, and nobody makes a second one.
pub proof fn lemma_channel_is_shared(
    start: Map<ConversationKey, Sender<MessageEvent>>,
    key: ConversationKey,
    after_first: Map<ConversationKey, Sender<MessageEvent>>,
    first: Sender<MessageEvent>,
    after_second: Map<ConversationKey, Sender<MessageEvent>>,
    second: Sender<MessageEvent>,
)
    requires
        channel_opened(start, key, after_first, first),
        channel_opened(after_first, key, after_second, second),
    ensures
        first == second,
        after_second == after_first,
        after_first.dom() == start.dom().insert(key),
{
    assert(after_first.dom() =~= start.dom().insert(key));
}

/// Asking for the channel of one conversation leaves the channels of all
/// others as they were.
pub proof fn lemma_other_channels_stay(
    before: Map<ConversationKey, Sender<MessageEvent>>,
    key: ConversationKey,
    after: Map<ConversationKey, Sender<MessageEvent>>,
    handle: Sender<MessageEvent>,
    other: ConversationKey,
)
    requires
        channel_opened(before, key, after, handle),
        other != key,
    ensures
        after.contains_key(other) == before.contains_key(other),
        before.contains_key(other) ==> after[other] == before[other],
{
}

} // verus!

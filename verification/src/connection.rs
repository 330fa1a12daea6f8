//! One client connection: its life cycle, and what its two loops do with
//! what they read. The inbound loop reads the client's frames and feeds the
//! message pipeline; the outbound loop takes events from the conversation's
//! channel and writes them to the client. Reading, writing and waiting are
//! the caller's; every decision is taken here.

use tokio::sync::broadcast::Receiver;
use tokio::sync::broadcast::Sender;
use vstd::prelude::*;
use crate::clock::current_time;
use crate::conversation::ConversationKey;
use crate::conversation::MessageEvent;
use crate::conversation::MessageEventView;
use crate::conversation::Timestamp;
use crate::pipeline::recorded_event;
use crate::pipeline::AppendRequest;
use crate::pipeline::IngestError;
use crate::presence::roster_join;
use crate::presence::roster_leave;
use crate::presence::PresenceStore;
use crate::registry::channel_opened;
use crate::registry::ConversationRegistry;
use crate::text::text_of;

verus! {

/// The stations of a connection's life, in the order in which it passes
/// them. It never goes back.
#[derive(Clone, Copy, Debug, PartialEq, Eq, Structural)]
pub enum ConnectionState {
    /// Accepted by the transport, not yet admitted to its conversation.
    Connecting,
    /// Subscribed; both loops run.
    Active,
    /// One loop has ended; the other is being stopped.
    Closing,
    /// Both loops have ended and the connection has left its conversation.
    Closed,
}

impl ConnectionState {
    /// The place of the state in the order of the life cycle.
    pub open spec fn rank(self) -> nat {
        match self {
            ConnectionState::Connecting => 0,
            ConnectionState::Active => 1,
            ConnectionState::Closing => 2,
            ConnectionState::Closed => 3,
        }
    }
}

/// What the inbound loop got from one read of the transport.
#[derive(Clone, Debug, PartialEq, Eq)]
pub enum InboundFrame {
    /// A text frame with its payload.
    Text(String),
    /// A frame that carries no payload for the conversation: a binary
    /// frame, a ping or a pong.
    Other,
    /// The read failed.
    Failed,
    /// The stream has ended: the client has closed its side.
    End,
}

/// What the inbound loop does next.
#[derive(Clone, Debug, PartialEq, Eq)]
pub enum InboundStep {
    /// Hand the request to the message store, then to the pipeline, and
    /// read on.
    Append(AppendRequest),
    /// Nothing to record; read on.
    Skip,
    /// End the loop.
    Stop,
}

/// What the outbound loop got from one wait on its subscription.
#[derive(Clone, Debug, PartialEq, Eq)]
pub enum Delivery {
    /// The next event of the conversation.
    Event(MessageEvent),
    /// The subscriber fell behind and the channel dropped this many of the
    /// oldest events for it.
    Lagged(u64),
    /// The channel is closed.
    Closed,
}

/// What the outbound loop does next.
#[derive(Clone, Debug, PartialEq, Eq)]
pub enum OutboundStep {
    /// Write the event to the client, then wait on.
    Write(MessageEvent),
    /// Nothing to write; wait on.
    Skip,
    /// End the loop.
    Stop,
}

/// The plain values of a [`Connection`].
pub struct ConnectionView {
    pub key: ConversationKey,
    pub identity: Seq<char>,
    pub display_name: Seq<char>,
    pub state: ConnectionState,
}

/// A connection of one authenticated identity to one conversation.
#[derive(Clone, Debug)]
pub struct Connection {
    key: ConversationKey,
    identity: String,
    display_name: String,
    state: ConnectionState,
}

/// What an admitted connection gets: its subscription, and whether the
/// room is to be told who is online now.
pub struct Admission {
    pub receiver: Receiver<MessageEvent>,
    pub announce_presence: bool,
}

/// A connection once it is admitted: a connecting one becomes active and
/// takes the display name that was looked up for it, or its identity where
/// none was found. Any other stays as it is.
pub open spec fn admitted(before: ConnectionView, looked_up: Option<Seq<char>>) -> ConnectionView {
    if before.state == ConnectionState::Connecting {
        ConnectionView {
            display_name: match looked_up {
                Some(name) => name,
                None => before.identity,
            },
            state: ConnectionState::Active,
            ..before
        }
    } else {
        before
    }
}

/// A connection once it is turned away: a connecting one is closed. Any
/// other stays as it is.
pub open spec fn rejected(before: ConnectionView) -> ConnectionView {
    if before.state == ConnectionState::Connecting {
        ConnectionView { state: ConnectionState::Closed, ..before }
    } else {
        before
    }
}

/// A connection once one of its loops has ended: an active one is closing.
/// Any other stays as it is.
pub open spec fn closing(before: ConnectionView) -> ConnectionView {
    if before.state == ConnectionState::Active {
        ConnectionView { state: ConnectionState::Closing, ..before }
    } else {
        before
    }
}

/// A connection once both its loops have ended: a closing one is closed.
/// Any other stays as it is.
pub open spec fn released(before: ConnectionView) -> ConnectionView {
    if before.state == ConnectionState::Closing {
        ConnectionView { state: ConnectionState::Closed, ..before }
    } else {
        before
    }
}

/// Whether the inbound loop of a connection in `state` ends at `frame`: it
/// does where the read failed or the stream has ended, and for a
/// connection that is not active. No frame that was read ends it.
pub open spec fn inbound_ends(state: ConnectionState, frame: InboundFrame) -> bool {
    state != ConnectionState::Active || frame is Failed || frame is End
}

/// What the outbound loop of a connection in `state` does with `delivery`:
/// while the connection is active it writes every event that it is given,
/// skips over a notice of dropped events, and stops when the channel is
/// closed; in any other state it stops.
pub open spec fn outbound(state: ConnectionState, delivery: Delivery) -> OutboundStep {
    if state != ConnectionState::Active {
        OutboundStep::Stop
    } else {
        match delivery {
            Delivery::Event(event) => OutboundStep::Write(event),
            Delivery::Lagged(_) => OutboundStep::Skip,
            Delivery::Closed => OutboundStep::Stop,
        }
    }
}

/// `after` is `before` with `who` online in the room of `key`. A private
/// session has no presence, and nothing changes for it.
pub open spec fn presence_joined(
    before: PresenceStore,
    after: PresenceStore,
    key: ConversationKey,
    who: Seq<char>,
) -> bool {
    forall|room: u32|
        #[trigger] after.roster(room) == if key == ConversationKey::Room(room) {
            roster_join(before.roster(room), who)
        } else {
            before.roster(room)
        }
}

/// `after` is `before` with `who` offline in the room of `key`. A private
/// session has no presence, and nothing changes for it.
pub open spec fn presence_left(
    before: PresenceStore,
    after: PresenceStore,
    key: ConversationKey,
    who: Seq<char>,
) -> bool {
    forall|room: u32|
        #[trigger] after.roster(room) == if key == ConversationKey::Room(room) {
            roster_leave(before.roster(room), who)
        } else {
            before.roster(room)
        }
}

/// Every room has the same roster in `after` as in `before`.
pub open spec fn presence_same(before: PresenceStore, after: PresenceStore) -> bool {
    forall|room: u32| #[trigger] after.roster(room) == before.roster(room)
}

impl View for Connection {
    type V = ConnectionView;

    closed spec fn view(&self) -> ConnectionView {
        ConnectionView {
            key: self.key,
            identity: self.identity@,
            display_name: self.display_name@,
            state: self.state,
        }
    }
}

impl Connection {
    /// A connection of `identity` to the conversation `key`, not yet
    /// admitted. Until a display name is looked up the identity stands for
    /// it.
    pub fn new(key: ConversationKey, identity: String) -> (connection: Connection)
        ensures
            connection@ == (ConnectionView {
                key,
                identity: identity@,
                display_name: identity@,
                state: ConnectionState::Connecting,
            }),
    {
        let display_name = identity.clone();
        Connection { key, identity, display_name, state: ConnectionState::Connecting }
    }

    /// The conversation that the connection belongs to.
    pub fn key(&self) -> (key: ConversationKey)
        ensures
            key == self@.key,
    {
        self.key
    }

    /// The identity that the connection was authenticated as.
    pub fn identity(&self) -> (identity: &String)
        ensures
            identity@ == self@.identity,
    {
        &self.identity
    }

    /// The name under which the connection's messages are published.
    pub fn display_name(&self) -> (name: &String)
        ensures
            name@ == self@.display_name,
    {
        &self.display_name
    }

    /// Where the connection stands in its life cycle.
    pub fn state(&self) -> (state: ConnectionState)
        ensures
            state == self@.state,
    {
        self.state
    }

    /// Admits a connecting connection to its conversation: the identity is
    /// marked online if the conversation is a room, the display name that
    /// was looked up is kept for the whole connection, and the connection
    /// is subscribed to the conversation's channel, which is made now if
    /// there was none. From then on the connection is active.
    ///
    /// A connection in any other state is not admitted again: nothing
    /// changes and there is no admission.
    pub fn open(
        &mut self,
        presence: &mut PresenceStore,
        registry: &mut ConversationRegistry,
        display_name: Option<String>,
    ) -> (admission: Option<Admission>)
        requires
            old(presence).wf(),
        ensures
            final(presence).wf(),
            final(self)@ == admitted(old(self)@, text_of(display_name)),
            admission is Some <==> old(self)@.state == ConnectionState::Connecting,
            admission matches Some(granted) ==> {
                &&& granted.announce_presence == (old(self)@.key is Room)
                &&& presence_joined(
                    *old(presence),
                    *final(presence),
                    old(self)@.key,
                    old(self)@.identity,
                )
                &&& exists|handle: Sender<MessageEvent>|
                    channel_opened(old(registry)@, old(self)@.key, final(registry)@, handle)
            },
            admission is None ==> presence_same(*old(presence), *final(presence))
                && final(registry)@ == old(registry)@,
    {
        if self.state != ConnectionState::Connecting {
            return None;
        }
        let announce_presence = match self.key {
            ConversationKey::Room(room) => {
                presence.set_online(room, self.identity.clone());
                true
            },
            ConversationKey::PrivateSession(_) => false,
        };
        let receiver = self.enter(registry, display_name);
        Some(Admission { receiver, announce_presence })
    }

    /// The part of an admission that every conversation has: the display
    /// name is settled, the connection is subscribed to the conversation's
    /// channel, and it is active.
    pub(crate) fn enter(
        &mut self,
        registry: &mut ConversationRegistry,
        display_name: Option<String>,
    ) -> (receiver: Receiver<MessageEvent>)
        requires
            old(self)@.state == ConnectionState::Connecting,
        ensures
            final(self)@ == admitted(old(self)@, text_of(display_name)),
            exists|handle: Sender<MessageEvent>|
                channel_opened(old(registry)@, old(self)@.key, final(registry)@, handle),
    {
        match display_name {
            Some(name) => {
                self.display_name = name;
            },
            None => {
                self.display_name = self.identity.clone();
            },
        }
        let receiver = registry.subscribe(self.key);
        self.state = ConnectionState::Active;
        receiver
    }

    /// Turns a connecting connection away, as for a session that the
    /// identity has no part in: it is closed without ever being subscribed
    /// or marked online. A connection in any other state stays as it is.
    pub fn reject(&mut self)
        ensures
            final(self)@ == rejected(old(self)@),
    {
        if self.state == ConnectionState::Connecting {
            self.state = ConnectionState::Closed;
        }
    }

    /// What the inbound loop does with `frame`, read at the time `now`.
    /// On an active connection a text frame becomes a request to the
    /// message store, stamped with `now`, and a frame of another kind is
    /// passed over. Only the transport ends the loop of an active
    /// connection: a failed read, or the end of the stream. A connection
    /// that is not active reads nothing.
    pub fn inbound_step(&self, frame: InboundFrame, now: Timestamp) -> (step: InboundStep)
        ensures
            match step {
                InboundStep::Append(request) => {
                    &&& self@.state == ConnectionState::Active
                    &&& frame matches InboundFrame::Text(text)
                    &&& request.key == self@.key
                    &&& request.sender_identity@ == self@.identity
                    &&& request.content@ == text@
                    &&& request.sent_at == now
                },
                InboundStep::Skip => self@.state == ConnectionState::Active && frame is Other,
                InboundStep::Stop => inbound_ends(self@.state, frame),
            },
    {
        if self.state != ConnectionState::Active {
            return InboundStep::Stop;
        }
        match frame {
            InboundFrame::Text(content) => InboundStep::Append(
                AppendRequest {
                    key: self.key,
                    sender_identity: self.identity.clone(),
                    content,
                    sent_at: now,
                },
            ),
            InboundFrame::Other => InboundStep::Skip,
            InboundFrame::Failed => InboundStep::Stop,
            InboundFrame::End => InboundStep::Stop,
        }
    }

    /// What the inbound loop does with `frame`, which was read just now:
    /// as [`Connection::inbound_step`] has it, with the request stamped
    /// with the time of this call.
    pub fn on_frame(&self, frame: InboundFrame) -> (step: InboundStep)
        ensures
            match step {
                InboundStep::Append(request) => {
                    &&& self@.state == ConnectionState::Active
                    &&& frame matches InboundFrame::Text(text)
                    &&& request.key == self@.key
                    &&& request.sender_identity@ == self@.identity
                    &&& request.content@ == text@
                },
                InboundStep::Skip => self@.state == ConnectionState::Active && frame is Other,
                InboundStep::Stop => inbound_ends(self@.state, frame),
            },
    {
        let now = current_time();
        self.inbound_step(frame, now)
    }

    /// What the outbound loop does with what its subscription gave.
    pub fn on_delivery(&self, delivery: Delivery) -> (step: OutboundStep)
        ensures
            step == outbound(self@.state, delivery),
    {
        if self.state != ConnectionState::Active {
            return OutboundStep::Stop;
        }
        match delivery {
            Delivery::Event(event) => OutboundStep::Write(event),
            Delivery::Lagged(_) => OutboundStep::Skip,
            Delivery::Closed => OutboundStep::Stop,
        }
    }

    /// Whether the outbound loop goes on after a write to the client:
    /// it does while the connection is active and the write succeeded.
    pub fn after_write(&self, written: bool) -> (go_on: bool)
        ensures
            go_on == (written && self@.state == ConnectionState::Active),
    {
        written && self.state == ConnectionState::Active
    }

    /// Records that one of the two loops has ended. Where the connection
    /// was active it is closing now and the result is `true`: the caller
    /// stops the other loop and closes both halves of the transport.
    /// Otherwise nothing changes.
    pub fn begin_close(&mut self) -> (stop_other_loop: bool)
        ensures
            final(self)@ == closing(old(self)@),
            stop_other_loop == (old(self)@.state == ConnectionState::Active),
    {
        if self.state == ConnectionState::Active {
            self.state = ConnectionState::Closing;
            true
        } else {
            false
        }
    }

    /// Records that both loops have ended. Where the connection was
    /// closing it is closed now, and if its conversation is a room the
    /// identity is marked offline there and the result is `true`: the room
    /// is to be told who is online now. Otherwise nothing changes.
    pub fn finish_close(&mut self, presence: &mut PresenceStore) -> (announce_presence: bool)
        requires
            old(presence).wf(),
        ensures
            final(presence).wf(),
            final(self)@ == released(old(self)@),
            announce_presence == (old(self)@.state == ConnectionState::Closing && old(
                self,
            )@.key is Room),
            old(self)@.state == ConnectionState::Closing ==> presence_left(
                *old(presence),
                *final(presence),
                old(self)@.key,
                old(self)@.identity,
            ),
            old(self)@.state != ConnectionState::Closing ==> presence_same(
                *old(presence),
                *final(presence),
            ),
            announce_presence ==> !final(presence).roster(old(self)@.key->Room_0).contains(
                old(self)@.identity,
            ),
    {
        if self.state != ConnectionState::Closing {
            return false;
        }
        self.state = ConnectionState::Closed;
        match self.key {
            ConversationKey::Room(room) => {
                presence.set_offline(room, self.identity.as_str());
                true
            },
            ConversationKey::PrivateSession(_) => false,
        }
    }
}

/// A connection never goes back in its life cycle, whatever happens to it.
pub proof fn lemma_life_cycle_only_advances(before: ConnectionView, looked_up: Option<Seq<char>>)
    ensures
        before.state.rank() <= admitted(before, looked_up).state.rank(),
        before.state.rank() <= rejected(before).state.rank(),
        before.state.rank() <= closing(before).state.rank(),
        before.state.rank() <= released(before).state.rank(),
{
}

/// A closed connection stays closed, and a connection keeps its
/// conversation and its identity for life.
pub proof fn lemma_closed_is_final(before: ConnectionView, looked_up: Option<Seq<char>>)
    ensures
        before.state == ConnectionState::Closed ==> admitted(before, looked_up) == before
            && rejected(before) == before && closing(before) == before && released(before)
            == before,
        admitted(before, looked_up).key == before.key && admitted(before, looked_up).identity
            == before.identity,
        rejected(before).key == before.key && rejected(before).identity == before.identity,
        closing(before).key == before.key && closing(before).identity == before.identity,
        released(before).key == before.key && released(before).identity == before.identity,
{
}

/// However many connections a channel hands an event to, those that are
/// active write it to their clients, unchanged, and no other does: a
/// connection that has not been admitted yet, is closing or is closed
/// writes nothing.
pub proof fn lemma_active_subscribers_forward(states: Seq<ConnectionState>, event: MessageEvent)
    ensures
        forall|i: int|
            0 <= i < states.len() ==> #[trigger] outbound(states[i], Delivery::Event(event)) == if states[i]
                == ConnectionState::Active {
                OutboundStep::Write(event)
            } else {
                OutboundStep::Stop
            },
{
}

/// What one connection publishes in the course of its inbound loop. The
/// loop reads `frames` one after the other, the frame at a place at the
/// time at the same place, and the store answers the append of a text
/// frame with what `answers` holds at the frame's place. The loop ends
/// where [`inbound_ends`] says so; until then every text frame whose
/// payload the store recorded gives its event, in the order of the frames,
/// and nothing else gives one.
pub open spec fn published_by(
    connection: ConnectionView,
    frames: Seq<InboundFrame>,
    times: Seq<Timestamp>,
    answers: Seq<Result<u64, IngestError>>,
) -> Seq<MessageEventView>
    decreases frames.len(),
{
    if frames.len() == 0 || inbound_ends(connection.state, frames[0]) {
        Seq::empty()
    } else {
        let later = published_by(
            connection,
            frames.drop_first(),
            times.drop_first(),
            answers.drop_first(),
        );
        match (frames[0], answers[0]) {
            (InboundFrame::Text(text), Ok(message_id)) => seq![
                recorded_event(
                    connection.key,
                    connection.identity,
                    connection.display_name,
                    text@,
                    times[0],
                    message_id,
                ),
            ] + later,
            _ => later,
        }
    }
}

/// The store's identifiers grow in the order of the appends: of two text
/// frames whose payloads it recorded, the later one got the greater
/// identifier.
pub open spec fn identifiers_grow(
    frames: Seq<InboundFrame>,
    answers: Seq<Result<u64, IngestError>>,
) -> bool {
    forall|i: int, j: int|
        0 <= i < j < frames.len() && frames[i] is Text && frames[j] is Text && answers[i] is Ok
            && answers[j] is Ok ==> answers[i]->Ok_0 < answers[j]->Ok_0
}

/// Two payloads that one connection reads one after the other, both of
/// them recorded, are published as two events in the same order, each with
/// the identifier and the content of its own record.
pub proof fn lemma_two_payloads_in_order(
    connection: ConnectionView,
    first: String,
    second: String,
    times: Seq<Timestamp>,
    first_id: u64,
    second_id: u64,
)
    requires
        connection.state == ConnectionState::Active,
        times.len() == 2,
    ensures
        published_by(
            connection,
            seq![InboundFrame::Text(first), InboundFrame::Text(second)],
            times,
            seq![Ok(first_id), Ok(second_id)],
        ) == seq![
            recorded_event(
                connection.key,
                connection.identity,
                connection.display_name,
                first@,
                times[0],
                first_id,
            ),
            recorded_event(
                connection.key,
                connection.identity,
                connection.display_name,
                second@,
                times[1],
                second_id,
            ),
        ],
{
    let frames = seq![InboundFrame::Text(first), InboundFrame::Text(second)];
    let answers = seq![Ok::<u64, IngestError>(first_id), Ok::<u64, IngestError>(second_id)];
    let frames1 = frames.drop_first();
    let times1 = times.drop_first();
    let answers1 = answers.drop_first();
    assert(frames1.len() == 1 && frames1[0] == InboundFrame::Text(second));
    assert(answers1[0] == Ok::<u64, IngestError>(second_id));
    assert(times1[0] == times[1]);
    assert(frames1.drop_first().len() == 0);
    assert(published_by(
        connection,
        frames1.drop_first(),
        times1.drop_first(),
        answers1.drop_first(),
    ) =~= Seq::<MessageEventView>::empty());
    let last = published_by(connection, frames1, times1, answers1);
    assert(last =~= seq![
        recorded_event(
            connection.key,
            connection.identity,
            connection.display_name,
            second@,
            times[1],
            second_id,
        ),
    ]);
    assert(published_by(connection, frames, times, answers) =~= seq![
        recorded_event(
            connection.key,
            connection.identity,
            connection.display_name,
            first@,
            times[0],
            first_id,
        ),
    ] + last);
}

/// Where the store's identifiers grow in the order of the appends, the
/// identifiers of the events that a connection publishes grow in the order
/// in which it publishes them, however many frames it reads and whatever
/// else is among them.
pub proof fn lemma_published_in_store_order(
    connection: ConnectionView,
    frames: Seq<InboundFrame>,
    times: Seq<Timestamp>,
    answers: Seq<Result<u64, IngestError>>,
)
    requires
        frames.len() <= times.len(),
        frames.len() <= answers.len(),
        identifiers_grow(frames, answers),
    ensures
        forall|a: int, b: int|
            0 <= a < b < published_by(connection, frames, times, answers).len() ==> published_by(
                connection,
                frames,
                times,
                answers,
            )[a].message_id < published_by(connection, frames, times, answers)[b].message_id,
{
    lemma_published_above(connection, frames, times, answers, -1);
}

/// The events that a connection publishes carry identifiers above `floor`
/// and in growing order, where the store's identifiers are above `floor`
/// and grow.
proof fn lemma_published_above(
    connection: ConnectionView,
    frames: Seq<InboundFrame>,
    times: Seq<Timestamp>,
    answers: Seq<Result<u64, IngestError>>,
    floor: int,
)
    requires
        frames.len() <= times.len(),
        frames.len() <= answers.len(),
        identifiers_grow(frames, answers),
        forall|k: int|
            0 <= k < frames.len() && frames[k] is Text && answers[k] is Ok ==> floor
                < answers[k]->Ok_0,
    ensures
        forall|a: int|
            0 <= a < published_by(connection, frames, times, answers).len() ==> floor
                < #[trigger] published_by(connection, frames, times, answers)[a].message_id,
        forall|a: int, b: int|
            0 <= a < b < published_by(connection, frames, times, answers).len() ==> published_by(
                connection,
                frames,
                times,
                answers,
            )[a].message_id < published_by(connection, frames, times, answers)[b].message_id,
    decreases frames.len(),
{
    if frames.len() > 0 && !inbound_ends(connection.state, frames[0]) {
        let frames1 = frames.drop_first();
        let times1 = times.drop_first();
        let answers1 = answers.drop_first();
        let later = published_by(connection, frames1, times1, answers1);
        assert forall|i: int, j: int|
            0 <= i < j < frames1.len() && frames1[i] is Text && frames1[j] is Text
                && answers1[i] is Ok && answers1[j] is Ok implies answers1[i]->Ok_0
            < answers1[j]->Ok_0 by {
            assert(frames1[i] == frames[i + 1] && frames1[j] == frames[j + 1]);
            assert(answers1[i] == answers[i + 1] && answers1[j] == answers[j + 1]);
        }
        match (frames[0], answers[0]) {
            (InboundFrame::Text(text), Ok(message_id)) => {
                assert forall|k: int|
                    0 <= k < frames1.len() && frames1[k] is Text
                        && answers1[k] is Ok implies (message_id as int) < answers1[k]->Ok_0 by {
                    assert(frames1[k] == frames[k + 1]);
                    assert(answers1[k] == answers[k + 1]);
                }
                lemma_published_above(connection, frames1, times1, answers1, message_id as int);
                let all = published_by(connection, frames, times, answers);
                assert(all.len() == later.len() + 1);
                assert(all[0].message_id == message_id);
                assert forall|a: int| 0 < a < all.len() implies all[a] == later[a - 1] by {}
                assert forall|a: int| 0 <= a < all.len() implies floor < #[trigger] all[a].message_id by {
                    if a > 0 {
                        assert(all[a] == later[a - 1]);
                    }
                }
                assert forall|a: int, b: int| 0 <= a < b < all.len() implies all[a].message_id
                    < all[b].message_id by {
                    assert(all[b] == later[b - 1]);
                    if a > 0 {
                        assert(all[a] == later[a - 1]);
                    }
                }
            },
            _ => {
                assert forall|k: int|
                    0 <= k < frames1.len() && frames1[k] is Text
                        && answers1[k] is Ok implies floor < answers1[k]->Ok_0 by {
                    assert(frames1[k] == frames[k + 1]);
                    assert(answers1[k] == answers[k + 1]);
                }
                lemma_published_above(connection, frames1, times1, answers1, floor);
            },
        }
    }
}

/// A frame that is not text changes nothing of what a connection
/// publishes: the loop reads on as if the frame had not come.
pub proof fn lemma_other_frames_leave_no_trace(
    connection: ConnectionView,
    frames: Seq<InboundFrame>,
    times: Seq<Timestamp>,
    answers: Seq<Result<u64, IngestError>>,
)
    requires
        connection.state == ConnectionState::Active,
        frames.len() > 0,
        frames[0] is Other,
    ensures
        published_by(connection, frames, times, answers) == published_by(
            connection,
            frames.drop_first(),
            times.drop_first(),
            answers.drop_first(),
        ),
{
}

/// On an active connection nothing but the transport ends the inbound
/// loop: whatever frames were read before, text or not, the loop reads on
/// until a read fails or the stream ends.
pub proof fn lemma_frames_do_not_end_the_loop(state: ConnectionState, frame: InboundFrame)
    requires
        state == ConnectionState::Active,
    ensures
        inbound_ends(state, frame) <==> frame is Failed || frame is End,
        frame is Text || frame is Other ==> !inbound_ends(state, frame),
{
}

/// What the outbound loop of a connection in `state` writes to its client,
/// given what its subscription hands it, one delivery after the other, and
/// as long as the client takes what is written.
pub open spec fn written_by(state: ConnectionState, deliveries: Seq<Delivery>) -> Seq<MessageEvent>
    decreases deliveries.len(),
{
    if deliveries.len() == 0 {
        Seq::empty()
    } else {
        match outbound(state, deliveries[0]) {
            OutboundStep::Write(event) => seq![event] + written_by(state, deliveries.drop_first()),
            OutboundStep::Skip => written_by(state, deliveries.drop_first()),
            OutboundStep::Stop => Seq::empty(),
        }
    }
}

/// An event that the channel hands to an active connection is written to
/// the client once, at its place among the others: after all that was
/// written of what came before it, and before all that is written of what
/// comes after it.
pub proof fn lemma_handed_once_written_once(
    state: ConnectionState,
    before: Seq<Delivery>,
    event: MessageEvent,
    after: Seq<Delivery>,
)
    requires
        state == ConnectionState::Active,
        forall|i: int| 0 <= i < before.len() ==> !(before[i] is Closed),
    ensures
        written_by(state, before + seq![Delivery::Event(event)] + after) == written_by(
            state,
            before,
        ) + seq![event] + written_by(state, after),
    decreases before.len(),
{
    let all = before + seq![Delivery::Event(event)] + after;
    if before.len() == 0 {
        assert(all[0] == Delivery::Event(event));
        assert(all.drop_first() =~= after);
        assert(written_by(state, before) =~= Seq::<MessageEvent>::empty());
        assert(written_by(state, all) =~= written_by(state, before) + seq![event] + written_by(
            state,
            after,
        ));
    } else {
        let rest = before.drop_first();
        assert(all[0] == before[0]);
        assert(all.drop_first() =~= rest + seq![Delivery::Event(event)] + after);
        assert forall|i: int| 0 <= i < rest.len() implies !(rest[i] is Closed) by {
            assert(rest[i] == before[i + 1]);
        }
        lemma_handed_once_written_once(state, rest, event, after);
        let tail = written_by(state, rest) + seq![event] + written_by(state, after);
        match before[0] {
            Delivery::Event(first) => {
                assert(written_by(state, all) =~= seq![first] + tail);
                assert(written_by(state, before) =~= seq![first] + written_by(state, rest));
                assert(seq![first] + tail =~= written_by(state, before) + seq![event] + written_by(
                    state,
                    after,
                ));
            },
            Delivery::Lagged(_) => {
                assert(written_by(state, all) =~= tail);
                assert(written_by(state, before) =~= written_by(state, rest));
            },
            Delivery::Closed => {},
        }
    }
}

/// A connection that is not active writes nothing, whatever its
/// subscription still hands it: not before it is admitted, and not once it
/// has begun to close.
pub proof fn lemma_inactive_connection_writes_nothing(
    state: ConnectionState,
    deliveries: Seq<Delivery>,
)
    requires
        state != ConnectionState::Active,
    ensures
        written_by(state, deliveries) == Seq::<MessageEvent>::empty(),
{
}

/// A subscriber that fell behind loses the oldest events and goes on with
/// the next: only the end of the channel, not a gap, ends an active
/// connection's outbound loop.
pub proof fn lemma_lag_does_not_end_the_loop(state: ConnectionState, delivery: Delivery)
    requires
        state == ConnectionState::Active,
    ensures
        outbound(state, delivery) is Stop <==> delivery is Closed,
{
}

} // verus!

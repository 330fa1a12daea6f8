//! What each request is answered with, given what the store said. The
//! caller talks to the store and to the client; the rules are here.

use vstd::prelude::*;
use crate::clock::current_time;
use crate::connection::presence_joined;
use crate::connection::presence_same;
use crate::connection::Admission;
use crate::connection::Connection;
use crate::connection::ConnectionState;
use crate::connection::ConnectionView;
use crate::conversation::ConversationKey;
use crate::conversation::MessageEvent;
use crate::conversation::MessageEventView;
use crate::conversation::PrivateMessage;
use crate::conversation::Timestamp;
use crate::encoding::encode_names;
use crate::encoding::json_array;
use crate::error::ApiError;
use crate::models::ChatroomResponse;
use crate::models::Claims;
use crate::models::FriendRequest;
use crate::models::FriendRequestInfo;
use crate::models::FriendRequestStatus;
use crate::models::JoinChatroomRequest;
use crate::models::LeaveChatroomRequest;
use crate::models::PrivateMessageRow;
use crate::models::PrivateSessionResponse;
use crate::models::RegisterResponse;
use crate::models::RespondToFriendRequest;
use crate::models::SendFriendRequest;
use crate::models::StartPrivateChatRequest;
use crate::presence::roster_leave;
use crate::presence::PresenceStore;
use crate::registry::channel_opened;
use crate::registry::ConversationRegistry;
use crate::registry::PublishOutcome;
use crate::session::canonical_pair;
use crate::session::order_pair;
use crate::session::resolve_session;
use crate::session::SessionPair;
use crate::text::names_of;
use crate::text::str_eq;
use crate::text::text_of;
use crate::text::texts_of;
use tokio::sync::broadcast::Sender;

verus! {

/// The message of a room that was created.
pub open spec fn room_created_message() -> Seq<char> {
    "聊天室创建成功"@
}

/// The message for an account that is a member of the room already.
pub open spec fn already_member_message() -> Seq<char> {
    "您已是该聊天室成员"@
}

/// The message of a room that was joined.
pub open spec fn room_joined_message() -> Seq<char> {
    "成功加入聊天室"@
}

/// The message of a room that was left.
pub open spec fn room_left_message() -> Seq<char> {
    "已退出聊天室"@
}

/// `response` says `success` of room `chatroom_id`, with `message`.
pub open spec fn answers(
    response: ChatroomResponse,
    success: bool,
    chatroom_id: Option<u32>,
    message: Seq<char>,
) -> bool {
    &&& response.success == success
    &&& response.chatroom_id == chatroom_id
    &&& text_of(response.message) == Some(message)
}

/// The display names that were found, in the order of the lookups; a
/// lookup that found nothing leaves no trace.
pub open spec fn found_names(lookups: Seq<Option<Seq<char>>>) -> Seq<Seq<char>>
    decreases lookups.len(),
{
    if lookups.len() == 0 {
        Seq::empty()
    } else {
        match lookups.last() {
            Some(name) => found_names(lookups.drop_last()).push(name),
            None => found_names(lookups.drop_last()),
        }
    }
}

/// The answer to the creation of a room, which the store recorded under
/// `last_insert_id`. A room's number is the low 32 bits of that.
pub fn create_chatroom(last_insert_id: u64) -> (response: ChatroomResponse)
    ensures
        answers(response, true, Some(last_insert_id as u32), room_created_message()),
{
    ChatroomResponse {
        success: true,
        chatroom_id: Some(last_insert_id as u32),
        message: Some("聊天室创建成功".to_string()),
    }
}

/// The answer to a request to join a room. `room_exists` and `is_member`
/// are what the store says of the room and of the account's membership. A
/// room that does not exist is not found; one that the account is in
/// already cannot be joined again, and the answer says so; otherwise the
/// answer is a success, on which the membership is to be recorded and the
/// room told who is online.
pub fn join_chatroom(payload: JoinChatroomRequest, room_exists: bool, is_member: bool) -> (response:
    Result<ChatroomResponse, ApiError>)
    ensures
        response is Ok <==> room_exists,
        response matches Err(e) ==> e == ApiError::NotFound,
        response matches Ok(answer) ==> answers(
            answer,
            !is_member,
            Some(payload.chatroom_id),
            if is_member {
                already_member_message()
            } else {
                room_joined_message()
            },
        ),
{
    if !room_exists {
        Err(ApiError::NotFound)
    } else if is_member {
        Ok(
            ChatroomResponse {
                success: false,
                chatroom_id: Some(payload.chatroom_id),
                message: Some("您已是该聊天室成员".to_string()),
            },
        )
    } else {
        Ok(
            ChatroomResponse {
                success: true,
                chatroom_id: Some(payload.chatroom_id),
                message: Some("成功加入聊天室".to_string()),
            },
        )
    }
}

/// The answer to a request to leave a room, of whose members the store
/// removed `rows_deleted`. Who never joined the room may not leave it, and
/// nothing changes; a member that left is marked offline in the room, and
/// the room is to be told who is online.
pub fn leave_chatroom(
    presence: &mut PresenceStore,
    claims: &Claims,
    payload: LeaveChatroomRequest,
    rows_deleted: u64,
) -> (response: Result<ChatroomResponse, ApiError>)
    requires
        old(presence).wf(),
    ensures
        final(presence).wf(),
        response is Ok <==> rows_deleted != 0,
        response matches Err(e) ==> e == ApiError::Forbidden && presence_same(
            *old(presence),
            *final(presence),
        ),
        response matches Ok(answer) ==> answers(
            answer,
            true,
            Some(payload.chatroom_id),
            room_left_message(),
        ) && final(presence).roster(payload.chatroom_id) == roster_leave(
            old(presence).roster(payload.chatroom_id),
            claims.sub@,
        ),
        forall|room: u32|
            room != payload.chatroom_id ==> final(presence).roster(room) == old(presence).roster(
                room,
            ),
{
    if rows_deleted == 0 {
        return Err(ApiError::Forbidden);
    }
    presence.set_offline(payload.chatroom_id, claims.sub.as_str());
    Ok(
        ChatroomResponse {
            success: true,
            chatroom_id: Some(payload.chatroom_id),
            message: Some("已退出聊天室".to_string()),
        },
    )
}

/// The display names of the identities that are online, given what the
/// lookup of each identity's name found: the names that were found, in the
/// order of the identities.
pub fn get_online_users(lookups: &Vec<Option<String>>) -> (names: Vec<String>)
    ensures
        names_of(names@) == found_names(texts_of(lookups@)),
{
    let mut names: Vec<String> = Vec::new();
    let ghost all = texts_of(lookups@);
    assert(names_of(names@) =~= Seq::<Seq<char>>::empty());
    let mut i: usize = 0;
    while i < lookups.len()
        invariant
            i <= lookups@.len(),
            all == texts_of(lookups@),
            names_of(names@) == found_names(all.take(i as int)),
        decreases lookups@.len() - i,
    {
        let ghost listed = names@;
        proof {
            assert(all.take(i + 1).drop_last() =~= all.take(i as int));
            assert(all.take(i + 1).last() == text_of(lookups@[i as int]));
        }
        match &lookups[i] {
            Some(name) => {
                names.push(name.clone());
                assert(names_of(names@) =~= names_of(listed).push(name@));
            },
            None => {},
        }
        i += 1;
    }
    assert(all.take(i as int) =~= all);
    names
}

/// The notice that tells a room who is online, stamped with `now`:
/// its content is the list of the display names that were found, written
/// as a JSON array. There is a notice for every list of lookups: `None`
/// would stand for a list that could not be written, and a list of names
/// always can.
pub fn online_list_event(lookups: &Vec<Option<String>>, now: Timestamp) -> (event: Option<
    MessageEvent,
>)
    ensures
        event matches Some(notice) && notice@ == MessageEventView::online_list(
            json_array(found_names(texts_of(lookups@))),
            now,
        ),
{
    let names = get_online_users(lookups);
    match encode_names(&names) {
        Some(content) => Some(MessageEvent::online_list(content, now)),
        None => None,
    }
}

/// Tells room `room_id` who is online: publishes the notice that
/// [`online_list_event`] makes of `lookups`, stamped with the time of this
/// call, and says what became of it. A room without a channel has no
/// subscribers to tell, and the notice is dropped. Every call has an
/// outcome, since every list of lookups has its notice.
pub fn broadcast_online_list(
    registry: &ConversationRegistry,
    room_id: u32,
    lookups: &Vec<Option<String>>,
) -> (outcome: Option<PublishOutcome>)
    ensures
        outcome matches Some(told) && (told is NoChannel <==> !registry@.contains_key(
            ConversationKey::Room(room_id),
        )),
        outcome matches Some(PublishOutcome::Delivered(n)) ==> n >= 1,
{
    let now = current_time();
    match online_list_event(lookups, now) {
        Some(notice) => Some(registry.publish(ConversationKey::Room(room_id), notice)),
        None => None,
    }
}

/// The answer to a friend request from the caller to
/// `payload.receiver_account`. `already_friends` and `already_pending` are
/// what the store says of the two. Nobody befriends themselves; a request
/// between friends, or one that is pending already, has no effect;
/// otherwise the answer is a success, on which the request is to be
/// recorded.
pub fn send_friend_request(
    claims: &Claims,
    payload: &SendFriendRequest,
    already_friends: bool,
    already_pending: bool,
) -> (response: Result<RegisterResponse, ApiError>)
    ensures
        response == if claims.sub@ == payload.receiver_account@ {
            Err::<RegisterResponse, ApiError>(ApiError::BadRequest)
        } else {
            Ok::<RegisterResponse, ApiError>(
                RegisterResponse { success: !already_friends && !already_pending },
            )
        },
{
    if str_eq(claims.sub.as_str(), payload.receiver_account.as_str()) {
        return Err(ApiError::BadRequest);
    }
    if already_friends {
        return Ok(RegisterResponse { success: false });
    }
    if already_pending {
        return Ok(RegisterResponse { success: false });
    }
    Ok(RegisterResponse { success: true })
}

/// The display name to list for the sender of the request at place `i`:
/// the one that the lookup at the same place found, and the empty name
/// where it found none or was never made.
pub open spec fn listed_sender_name(usernames: Seq<Option<String>>, i: int) -> Seq<char> {
    if 0 <= i < usernames.len() && usernames[i] is Some {
        usernames[i]->Some_0@
    } else {
        Seq::empty()
    }
}

/// The friend requests of an account as they are listed: each request of
/// the store with the display name of its sender, which `usernames` holds
/// at the request's place.
pub fn list_friend_requests(requests: &Vec<FriendRequest>, usernames: &Vec<Option<String>>) -> (listed:
    Vec<FriendRequestInfo>)
    ensures
        listed@.len() == requests@.len(),
        forall|i: int|
            0 <= i < requests@.len() ==> {
                &&& (#[trigger] listed@[i]).id == requests@[i].id
                &&& listed@[i].sender_account@ == requests@[i].sender_account@
                &&& listed@[i].sender_username@ == listed_sender_name(usernames@, i)
                &&& listed@[i].status == requests@[i].status
                &&& listed@[i].created_at == requests@[i].created_at
            },
{
    let mut listed: Vec<FriendRequestInfo> = Vec::new();
    let mut i: usize = 0;
    while i < requests.len()
        invariant
            i <= requests@.len(),
            listed@.len() == i,
            forall|j: int|
                0 <= j < i ==> {
                    &&& (#[trigger] listed@[j]).id == requests@[j].id
                    &&& listed@[j].sender_account@ == requests@[j].sender_account@
                    &&& listed@[j].sender_username@ == listed_sender_name(usernames@, j)
                    &&& listed@[j].status == requests@[j].status
                    &&& listed@[j].created_at == requests@[j].created_at
                },
        decreases requests@.len() - i,
    {
        let request = &requests[i];
        let sender_username = if i < usernames.len() {
            match &usernames[i] {
                Some(name) => name.clone(),
                None => String::new(),
            }
        } else {
            String::new()
        };
        listed.push(
            FriendRequestInfo {
                id: request.id,
                sender_account: request.sender_account.clone(),
                sender_username,
                status: request.status,
                created_at: request.created_at,
            },
        );
        i += 1;
    }
    listed
}

/// What is to be recorded for an answer to a friend request: the request's
/// new status and, where the request was accepted, the two friends in
/// canonical order.
#[derive(Clone, Debug, PartialEq, Eq)]
pub struct FriendshipUpdate {
    pub request_id: i64,
    pub status: String,
    pub friends: Option<(String, String)>,
}

/// The two friends that an update records, as texts.
pub open spec fn friends_of(update: FriendshipUpdate) -> Option<(Seq<char>, Seq<char>)> {
    match update.friends {
        Some(pair) => Some((pair.0@, pair.1@)),
        None => None,
    }
}

/// Decides on the caller's answer to a friend request. `request` is the
/// request that the store holds under `payload.request_id`, if it holds
/// one. A request that does not exist is not found; only its receiver may
/// answer a request; otherwise the result says what to record.
pub fn respond_friend_request(
    claims: &Claims,
    payload: RespondToFriendRequest,
    request: Option<FriendRequest>,
) -> (decided: Result<FriendshipUpdate, ApiError>)
    ensures
        match decided {
            Ok(update) => {
                &&& request matches Some(r)
                &&& r.receiver_account@ == claims.sub@
                &&& update.request_id == payload.request_id
                &&& update.status@ == payload.status.spec_to_string()
                &&& friends_of(update) == if payload.status == FriendRequestStatus::ACCEPTED {
                    Some(canonical_pair(r.sender_account@, r.receiver_account@))
                } else {
                    None
                }
            },
            Err(e) => match request {
                None => e == ApiError::NotFound,
                Some(r) => e == ApiError::Forbidden && r.receiver_account@ != claims.sub@,
            },
        },
{
    let request = match request {
        Some(request) => request,
        None => {
            return Err(ApiError::NotFound);
        },
    };
    if !str_eq(request.receiver_account.as_str(), claims.sub.as_str()) {
        return Err(ApiError::Forbidden);
    }
    let friends = match payload.status {
        FriendRequestStatus::ACCEPTED => Some(
            order_pair(request.sender_account, request.receiver_account),
        ),
        _ => None,
    };
    Ok(FriendshipUpdate { request_id: payload.request_id, status: payload.status.to_string(), friends })
}

/// The answer to the removal of a friend, of whose friendships the store
/// removed `rows_affected`: a success if there was one to remove.
pub fn remove_friend(rows_affected: u64) -> (response: RegisterResponse)
    ensures
        response.success == (rows_affected > 0),
{
    RegisterResponse { success: rows_affected > 0 }
}

/// A private chat that may be started: the pair under which its session is
/// kept, and the friend with whom it is held.
#[derive(Clone, Debug, PartialEq, Eq)]
pub struct PrivateChatPlan {
    pub pair: SessionPair,
    pub friend_account: String,
    pub friend_username: String,
}

/// Decides whether the caller may start a private chat with
/// `payload.friend_account`. `are_friends` is what the store says of the
/// two, `friend_username` the friend's display name if the friend has one.
/// Who is no friend is refused, before anything else is looked at; a
/// friend without a display name is not found; otherwise the result names
/// the session to fetch or to make.
pub fn resolve_private_chat(
    claims: &Claims,
    payload: StartPrivateChatRequest,
    are_friends: bool,
    friend_username: Option<String>,
) -> (decided: Result<PrivateChatPlan, ApiError>)
    ensures
        match decided {
            Ok(plan) => {
                &&& are_friends
                &&& friend_username == Some(plan.friend_username)
                &&& plan.friend_account@ == payload.friend_account@
                &&& (plan.pair.user1@, plan.pair.user2@) == canonical_pair(
                    claims.sub@,
                    payload.friend_account@,
                )
            },
            Err(e) => if !are_friends {
                e == ApiError::Forbidden
            } else {
                e == ApiError::NotFound && friend_username is None
            },
        },
{
    let friend_account = payload.friend_account;
    let pair = match resolve_session(claims.sub.clone(), friend_account.clone(), are_friends) {
        Ok(pair) => pair,
        Err(e) => {
            return Err(e);
        },
    };
    match friend_username {
        Some(friend_username) => Ok(PrivateChatPlan { pair, friend_account, friend_username }),
        None => Err(ApiError::NotFound),
    }
}

/// Starts the private chat of `plan`, whose session the store keeps under
/// `session_id`: the session gets its channel, if it had none, and the
/// caller is told the session and the friend.
pub fn start_private_chat(
    registry: &mut ConversationRegistry,
    plan: PrivateChatPlan,
    session_id: u64,
) -> (response: PrivateSessionResponse)
    ensures
        response.session_id == session_id,
        response.friend_account == plan.friend_account,
        response.friend_username == plan.friend_username,
        exists|handle: Sender<MessageEvent>|
            channel_opened(
                old(registry)@,
                ConversationKey::PrivateSession(session_id),
                final(registry)@,
                handle,
            ),
{
    let _ = registry.get_or_create_channel(ConversationKey::PrivateSession(session_id));
    PrivateSessionResponse {
        session_id,
        friend_account: plan.friend_account,
        friend_username: plan.friend_username,
    }
}

/// Admits the caller's connection to room `room_id`: the caller is marked
/// online there and subscribed to the room's channel, and the connection
/// is active. `display_name` is the caller's display name, if the lookup
/// found one.
pub fn handle_websocket(
    claims: &Claims,
    room_id: u32,
    display_name: Option<String>,
    presence: &mut PresenceStore,
    registry: &mut ConversationRegistry,
) -> (opened: (Connection, Admission))
    requires
        old(presence).wf(),
    ensures
        final(presence).wf(),
        opened.0@ == (ConnectionView {
            key: ConversationKey::Room(room_id),
            identity: claims.sub@,
            display_name: match display_name {
                Some(name) => name@,
                None => claims.sub@,
            },
            state: ConnectionState::Active,
        }),
        opened.1.announce_presence,
        presence_joined(
            *old(presence),
            *final(presence),
            ConversationKey::Room(room_id),
            claims.sub@,
        ),
        exists|handle: Sender<MessageEvent>|
            channel_opened(
                old(registry)@,
                ConversationKey::Room(room_id),
                final(registry)@,
                handle,
            ),
{
    let mut connection = Connection::new(ConversationKey::Room(room_id), claims.sub.clone());
    let admission = connection.open(presence, registry, display_name);
    (connection, admission.unwrap())
}

/// Whether the caller takes part in a session, given what the store said
/// of it: only a plain yes counts. A no is a no, and so is a store that
/// gave no answer.
pub open spec fn takes_part(store_said: Option<bool>) -> bool {
    store_said == Some(true)
}

/// Admits the caller's connection to private session `session_id`, or
/// turns it away. `store_said` is the store's answer to whether the caller
/// is one of the session's two participants, and `None` where the store
/// could not be asked or gave no answer. A participant is subscribed to
/// the session's channel and the connection is active; anyone else, and
/// anyone of whom the store did not say, is forbidden and turned away
/// before anything is subscribed, and the connection is closed.
pub fn handle_private_websocket(
    claims: &Claims,
    session_id: u64,
    store_said: Option<bool>,
    display_name: Option<String>,
    registry: &mut ConversationRegistry,
) -> (opened: (Connection, Result<Admission, ApiError>))
    ensures
        opened.1 is Ok <==> takes_part(store_said),
        opened.1 matches Err(e) ==> e == ApiError::Forbidden && final(registry)@ == old(registry)@,
        opened.1 matches Ok(admission) ==> !admission.announce_presence && exists|
            handle: Sender<MessageEvent>,
        |
            channel_opened(
                old(registry)@,
                ConversationKey::PrivateSession(session_id),
                final(registry)@,
                handle,
            ),
        opened.0@ == (ConnectionView {
            key: ConversationKey::PrivateSession(session_id),
            identity: claims.sub@,
            display_name: if takes_part(store_said) && display_name is Some {
                display_name->Some_0@
            } else {
                claims.sub@
            },
            state: if takes_part(store_said) {
                ConnectionState::Active
            } else {
                ConnectionState::Closed
            },
        }),
{
    let mut connection = Connection::new(
        ConversationKey::PrivateSession(session_id),
        claims.sub.clone(),
    );
    let is_participant = match store_said {
        Some(answer) => answer,
        None => false,
    };
    if !is_participant {
        connection.reject();
        return (connection, Err(ApiError::Forbidden));
    }
    let receiver = connection.enter(registry, display_name);
    (connection, Ok(Admission { receiver, announce_presence: false }))
}

/// The name under which a stored message is listed: the sender's display
/// name, and the sender's account where there is none.
pub open spec fn listed_name(row: PrivateMessageRow) -> Seq<char> {
    match row.sender_username {
        Some(name) => name@,
        None => row.sender_account@,
    }
}

/// The history of a private session as the caller gets it: the messages
/// that the store holds, in the store's order. `has_access` is what the
/// store says: whether the caller is one of the session's two
/// participants; nobody else may read it.
pub fn get_private_chat_history(has_access: bool, rows: &Vec<PrivateMessageRow>) -> (history: Result<
    Vec<PrivateMessage>,
    ApiError,
>)
    ensures
        history is Ok <==> has_access,
        history matches Err(e) ==> e == ApiError::Forbidden,
        history matches Ok(messages) ==> {
            &&& messages@.len() == rows@.len()
            &&& forall|i: int|
                0 <= i < rows@.len() ==> {
                    &&& (#[trigger] messages@[i]).message_id == rows@[i].message_id
                    &&& messages@[i].session_id == rows@[i].session_id
                    &&& messages@[i].sender_account@ == rows@[i].sender_account@
                    &&& messages@[i].sender_username@ == listed_name(rows@[i])
                    &&& messages@[i].content@ == rows@[i].content@
                    &&& messages@[i].sent_at == rows@[i].sent_at
                }
        },
{
    if !has_access {
        return Err(ApiError::Forbidden);
    }
    let mut messages: Vec<PrivateMessage> = Vec::new();
    let mut i: usize = 0;
    while i < rows.len()
        invariant
            i <= rows@.len(),
            messages@.len() == i,
            forall|j: int|
                0 <= j < i ==> {
                    &&& (#[trigger] messages@[j]).message_id == rows@[j].message_id
                    &&& messages@[j].session_id == rows@[j].session_id
                    &&& messages@[j].sender_account@ == rows@[j].sender_account@
                    &&& messages@[j].sender_username@ == listed_name(rows@[j])
                    &&& messages@[j].content@ == rows@[j].content@
                    &&& messages@[j].sent_at == rows@[j].sent_at
                },
        decreases rows@.len() - i,
    {
        let row = &rows[i];
        let sender_username = match &row.sender_username {
            Some(name) => name.clone(),
            None => row.sender_account.clone(),
        };
        messages.push(
            PrivateMessage {
                message_id: row.message_id,
                session_id: row.session_id,
                sender_account: row.sender_account.clone(),
                sender_username,
                content: row.content.clone(),
                sent_at: row.sent_at,
            },
        );
        i += 1;
    }
    Ok(messages)
}

} // verus!

//! The records of the store and the bodies of requests and responses.

use vstd::prelude::*;
use crate::conversation::Timestamp;

verus! {

/// An account as the store keeps it.
#[derive(Clone, Debug, PartialEq, Eq)]
pub struct User {
    pub account: String,
    /// The hash of the password, as a PHC string.
    pub password: String,
    pub username: Option<String>,
}

/// An account that is online, with its display name.
#[derive(Clone, Debug, PartialEq, Eq)]
pub struct UserOnline {
    pub account: String,
    pub username: String,
}

#[derive(Clone, Debug, PartialEq, Eq)]
pub struct RegisterRequest {
    pub account: String,
    pub password: String,
    pub username: String,
}

/// Whether an operation took effect. Registration and the operations on
/// friendships answer with it.
#[derive(Clone, Copy, Debug, PartialEq, Eq, Structural)]
pub struct RegisterResponse {
    pub success: bool,
}

#[derive(Clone, Debug, PartialEq, Eq)]
pub struct LoginRequest {
    pub account: String,
    pub password: String,
}

#[derive(Clone, Debug, PartialEq, Eq)]
pub struct LoginResponse {
    pub username: String,
    /// The signed token that the client presents from now on.
    pub token: String,
}

/// The authenticated identity that comes with a request or a connection:
/// the account, and when its token was issued and when it expires, in
/// seconds since the Unix epoch.
#[derive(Clone, Debug, PartialEq, Eq)]
pub struct Claims {
    pub sub: String,
    pub exp: usize,
    pub iat: usize,
}

#[derive(Clone, Debug, PartialEq, Eq)]
pub struct Chatroom {
    pub chatroom_id: u32,
    pub name: String,
    /// The account that created the room.
    pub created_by: String,
    pub created_at: Timestamp,
}

#[derive(Clone, Debug, PartialEq, Eq)]
pub struct ChatroomMember {
    pub chatroom_id: u32,
    pub account: String,
    pub joined_at: Timestamp,
}

#[derive(Clone, Debug, PartialEq, Eq)]
pub struct CreateChatroomRequest {
    pub name: String,
}

#[derive(Clone, Copy, Debug, PartialEq, Eq, Structural)]
pub struct JoinChatroomRequest {
    pub chatroom_id: u32,
}

#[derive(Clone, Copy, Debug, PartialEq, Eq, Structural)]
pub struct LeaveChatroomRequest {
    pub chatroom_id: u32,
}

/// The answer to creating, joining or leaving a room.
#[derive(Clone, Debug, PartialEq, Eq)]
pub struct ChatroomResponse {
    pub success: bool,
    pub chatroom_id: Option<u32>,
    pub message: Option<String>,
}

/// Where a friend request stands.
#[allow(non_camel_case_types)]
#[derive(Clone, Copy, Debug, PartialEq, Eq, Structural)]
pub enum FriendRequestStatus {
    PENDING,
    ACCEPTED,
    REJECTED,
}

impl FriendRequestStatus {
    pub open spec fn spec_to_string(self) -> Seq<char> {
        match self {
            FriendRequestStatus::PENDING => "PENDING"@,
            FriendRequestStatus::ACCEPTED => "ACCEPTED"@,
            FriendRequestStatus::REJECTED => "REJECTED"@,
        }
    }

    /// The status as the store writes it.
    pub fn to_string(&self) -> (s: String)
        ensures
            s@ == self.spec_to_string(),
    {
        match self {
            FriendRequestStatus::PENDING => "PENDING".to_string(),
            FriendRequestStatus::ACCEPTED => "ACCEPTED".to_string(),
            FriendRequestStatus::REJECTED => "REJECTED".to_string(),
        }
    }
}

/// A friend request as the store keeps it.
#[derive(Clone, Debug, PartialEq, Eq)]
pub struct FriendRequest {
    pub id: i64,
    pub sender_account: String,
    pub receiver_account: String,
    pub status: FriendRequestStatus,
    pub created_at: Option<Timestamp>,
    pub updated_at: Option<Timestamp>,
}

#[derive(Clone, Debug, PartialEq, Eq)]
pub struct SendFriendRequest {
    pub receiver_account: String,
}

/// The receiver's answer to a friend request: accepted or rejected.
#[derive(Clone, Copy, Debug, PartialEq, Eq, Structural)]
pub struct RespondToFriendRequest {
    pub request_id: i64,
    pub status: FriendRequestStatus,
}

#[derive(Clone, Debug, PartialEq, Eq)]
pub struct FriendInfo {
    pub account: Option<String>,
    pub username: Option<String>,
}

/// A friend request as it is listed, with the sender's display name.
#[derive(Clone, Debug, PartialEq, Eq)]
pub struct FriendRequestInfo {
    pub id: i64,
    pub sender_account: String,
    pub sender_username: String,
    pub status: FriendRequestStatus,
    pub created_at: Option<Timestamp>,
}

#[derive(Clone, Debug, PartialEq, Eq)]
pub struct StartPrivateChatRequest {
    pub friend_account: String,
}

#[derive(Clone, Debug, PartialEq, Eq)]
pub struct PrivateSessionResponse {
    pub session_id: u64,
    pub friend_account: String,
    pub friend_username: String,
}

/// A message of a private session as the store keeps it, with the sender's
/// display name where the sender has one.
#[derive(Clone, Debug, PartialEq, Eq)]
pub struct PrivateMessageRow {
    pub message_id: i64,
    pub session_id: i64,
    pub sender_account: String,
    pub sender_username: Option<String>,
    pub content: String,
    pub sent_at: Timestamp,
}

/// A room that an account has joined, as it is listed.
#[derive(Clone, Debug, PartialEq, Eq)]
pub struct JoinedChatroomInfo {
    pub chatroom_id: i64,
    pub name: String,
    pub created_by: Option<String>,
    pub creator_username: Option<String>,
    pub created_at: Option<Timestamp>,
}

} // verus!

//! The messages exchanged with clients. Game payloads travel as JSON values.
use vstd::prelude::*;

use crate::ids::{PlayerId, ReconnectToken, RoomId, UserId};

verus! {

/// What a client is told of one active user of its room.
#[derive(Debug)]
pub struct UserInfo {
    pub id: UserId,
    pub username: String,
    pub leader: bool,
    pub player_id: Option<PlayerId>,
}

impl Clone for UserInfo {
    fn clone(&self) -> (r: UserInfo)
        ensures
            r == *self,
    {
        UserInfo {
            id: self.id,
            username: self.username.clone(),
            leader: self.leader,
            player_id: self.player_id,
        }
    }
}

impl UserInfo {
    pub fn new(id: UserId, username: String, leader: bool, player_id: Option<PlayerId>) -> (r: UserInfo)
        ensures
            r.id == id,
            r.username == username,
            r.leader == leader,
            r.player_id == player_id,
    {
        UserInfo { id, username, leader, player_id }
    }
}

/// A message from the server to a client.
#[derive(Debug)]
pub enum ServerMessage {
    Error { message: String },
    JoinResponse { room_id: RoomId, token: ReconnectToken, user_id: UserId, username: String },
    InvalidateToken { token: ReconnectToken },
    UserInfo { users: Vec<UserInfo> },
    RoomInfo { config: serde_json::Value },
    GameInfo { view: serde_json::Value },
    GameViewDiff { diff: serde_json::Value },
    InvalidAction { message: String },
}

/// A message from a client to the server.
#[derive(Debug)]
#[allow(inconsistent_fields)]
pub enum ClientMessage {
    /// Joins a room by name; without a room a new one is created.
    JoinRoom { username: String, room: Option<RoomId> },
    RejoinRoom { token: ReconnectToken, room: RoomId },
    UpdateConfig { config: serde_json::Value },
    KickUser { user: UserId },
    ReassignPlayer { from_user: UserId, to_user: UserId },
    StartGame,
    DoAction { action: serde_json::Value },
    GameViewRequest,
    ResetToLobby,
}

} // verus!

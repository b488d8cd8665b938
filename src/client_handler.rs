//! The decisions of one client connection: what its messages ask of the room,
//! and which frames the room's topics turn into. Reading and writing the
//! socket is left to the caller.
use vstd::prelude::*;
use vstd::string::StringExecFns;

use crate::error::Error;
use crate::ids::{ReconnectToken, RoomId, UserId};
use crate::json::{json_diff, patch_empty, patch_is_empty, patch_json, patch_to_json};
use crate::protocol::{ClientMessage, ServerMessage, UserInfo};
use crate::room::UserData;
use crate::room_manager::RoomManagerMessage;

verus! {

/// What a connection that is in no room yet does with a message.
#[derive(Debug)]
#[allow(inconsistent_fields)]
pub enum Greeting {
    /// Join (or create, without a room) a room under a name.
    Join { username: String, room: Option<RoomId> },
    /// Rebind to a user of an existing room.
    Rejoin { token: ReconnectToken, room: RoomId },
    /// Answer with this frame and keep waiting.
    Refuse(ServerMessage),
}

/// What a connection inside a room does with a message.
#[derive(Debug)]
pub enum Command {
    /// Send this request to the room's actor.
    Request(RoomManagerMessage),
    /// Answer with this frame, if any, at once.
    Reply(Option<ServerMessage>),
}

/// The state of a connection inside a room.
pub struct ClientHandler {
    pub room_id: RoomId,
    pub token: ReconnectToken,
    pub user_id: UserId,
    pub username: String,
    /// The last full view sent to the client, the base of the next diff.
    pub last_view: Option<serde_json::Value>,
}


/// The frame that carries an error message.
pub open spec fn is_error_frame(m: ServerMessage, text: Seq<char>) -> bool {
    m matches ServerMessage::Error { message } && message@ == text
}

/// The frame that reports a failed request: refused actions keep their
/// reason, other errors their message.
pub open spec fn failure_frame_ok(err: Error, m: ServerMessage) -> bool {
    match err {
        Error::InvalidAction(reason) => m matches ServerMessage::InvalidAction { message } && message == reason,
        _ => is_error_frame(m, err.text()),
    }
}

/// The frame for the change from the last view sent to a new one: nothing
/// when the JSON Patch between them is empty.
pub open spec fn diff_frame(last: serde_json::Value, view: serde_json::Value) -> Option<ServerMessage> {
    if patch_empty(json_diff(last, view)) {
        None
    } else {
        match patch_json(json_diff(last, view)) {
            Some(d) => Some(ServerMessage::GameViewDiff { diff: d }),
            None => None,
        }
    }
}

/// A change of the view topic: the new last view, and the frame to send.
pub open spec fn view_step(
    last: Option<serde_json::Value>,
    view: Option<serde_json::Value>,
) -> (Option<serde_json::Value>, Option<ServerMessage>) {
    match view {
        None => (None, None),
        Some(v) => match last {
            None => (Some(v), Some(ServerMessage::GameInfo { view: v })),
            Some(l) => (Some(v), diff_frame(l, v)),
        },
    }
}

fn error_message(text: &str) -> (r: ServerMessage)
    ensures
        is_error_frame(r, text@),
{
    ServerMessage::Error { message: String::from_str(text) }
}

/// The frame that reports a failed request.
pub fn failure_message(err: Error) -> (r: ServerMessage)
    ensures
        failure_frame_ok(err, r),
{
    match err {
        Error::InvalidAction(message) => ServerMessage::InvalidAction { message },
        _ => ServerMessage::Error { message: err.message() },
    }
}

/// What to do with a message before joining a room.
pub fn greet(message: ClientMessage) -> (r: Greeting)
    ensures
        message matches ClientMessage::JoinRoom { username, room }
            ==> r == (Greeting::Join { username, room }),
        message matches ClientMessage::RejoinRoom { token, room }
            ==> r == (Greeting::Rejoin { token, room }),
        !(message is JoinRoom) && !(message is RejoinRoom)
            ==> (r matches Greeting::Refuse(m) && is_error_frame(m, "Must join room first"@)),
{
    match message {
        ClientMessage::JoinRoom { username, room } => Greeting::Join { username, room },
        ClientMessage::RejoinRoom { token, room } => Greeting::Rejoin { token, room },
        _ => Greeting::Refuse(error_message("Must join room first")),
    }
}

/// The frames for a rejoin that failed: `None` when the room does not exist.
/// A client that presented an unusable token is told to forget it.
pub fn rejoin_failed(token: ReconnectToken, err: Option<Error>) -> (r: Vec<ServerMessage>)
    ensures
        err is None ==> r@.len() == 2 && r@[0] == (ServerMessage::InvalidateToken { token })
            && is_error_frame(r@[1], "Room does not exist"@),
        err == Some(Error::InvalidReconnectToken) ==> r@ == seq![ServerMessage::InvalidateToken { token }],
        err matches Some(e) ==> (e is InvalidReconnectToken
            || (r@.len() == 1 && failure_frame_ok(e, r@[0]))),
{
    let mut r: Vec<ServerMessage> = Vec::new();
    match err {
        None => {
            r.push(ServerMessage::InvalidateToken { token });
            r.push(error_message("Room does not exist"));
        },
        Some(Error::InvalidReconnectToken) => {
            r.push(ServerMessage::InvalidateToken { token });
        },
        Some(e) => {
            r.push(failure_message(e));
        },
    }
    r
}

/// The frame for a change of the room topic: the configuration while in the
/// lobby, nothing while a game runs.
pub fn room_changed(config: Option<serde_json::Value>) -> (r: Option<ServerMessage>)
    ensures
        config matches Some(c) ==> r == Some(ServerMessage::RoomInfo { config: c }),
        config is None ==> r is None,
{
    match config {
        Some(config) => Some(ServerMessage::RoomInfo { config }),
        None => None,
    }
}

/// The frame for a change of the users topic.
pub fn users_changed(users: Vec<UserInfo>) -> (r: ServerMessage)
    ensures
        r == (ServerMessage::UserInfo { users }),
{
    ServerMessage::UserInfo { users }
}

impl ClientHandler {
    /// A connection that has just joined a room as the given user.
    pub fn new(room_id: RoomId, user: UserData) -> (r: ClientHandler)
        ensures
            r.room_id == room_id,
            r.token == user.token,
            r.user_id == user.id,
            r.username == user.username,
            r.last_view is None,
    {
        ClientHandler {
            room_id,
            token: user.token,
            user_id: user.id,
            username: user.username,
            last_view: None,
        }
    }

    /// The first frame of a joined connection.
    pub fn join_response(&self) -> (r: ServerMessage)
        ensures
            r == (ServerMessage::JoinResponse {
                room_id: self.room_id,
                token: self.token,
                user_id: self.user_id,
                username: self.username,
            }),
    {
        ServerMessage::JoinResponse {
            room_id: self.room_id.clone(),
            token: self.token.clone(),
            user_id: self.user_id,
            username: self.username.clone(),
        }
    }

    /// What to do with a message from the client inside a room.
    pub fn handle_client_message(&self, message: ClientMessage) -> (r: Command)
        ensures
            message matches ClientMessage::UpdateConfig { config }
                ==> r == Command::Request(RoomManagerMessage::UpdateConfig { user_id: self.user_id, config }),
            message is StartGame ==> r == Command::Request(
                RoomManagerMessage::StartGame { user_id: self.user_id, player_mapping: None }),
            message matches ClientMessage::DoAction { action }
                ==> r == Command::Request(RoomManagerMessage::DoAction { user_id: self.user_id, action }),
            message matches ClientMessage::KickUser { user }
                ==> r == Command::Request(RoomManagerMessage::KickUser { user_id: self.user_id, target: user }),
            message matches ClientMessage::ReassignPlayer { from_user, to_user }
                ==> r == Command::Request(RoomManagerMessage::ReassignPlayer {
                    user_id: self.user_id,
                    from_user,
                    to_user,
                }),
            message is ResetToLobby ==> r == Command::Request(
                RoomManagerMessage::ResetToLobby { user_id: self.user_id }),
            message is GameViewRequest ==> r == Command::Reply(match self.last_view {
                Some(v) => Some(ServerMessage::GameInfo { view: v }),
                None => None,
            }),
            message is JoinRoom || message is RejoinRoom
                ==> (r matches Command::Reply(Some(m)) && is_error_frame(m, "You're in a room"@)),
    {
        match message {
            ClientMessage::UpdateConfig { config } => {
                Command::Request(RoomManagerMessage::UpdateConfig { user_id: self.user_id, config })
            },
            ClientMessage::StartGame => {
                Command::Request(RoomManagerMessage::StartGame { user_id: self.user_id, player_mapping: None })
            },
            ClientMessage::DoAction { action } => {
                Command::Request(RoomManagerMessage::DoAction { user_id: self.user_id, action })
            },
            ClientMessage::KickUser { user } => {
                Command::Request(RoomManagerMessage::KickUser { user_id: self.user_id, target: user })
            },
            ClientMessage::ReassignPlayer { from_user, to_user } => {
                Command::Request(RoomManagerMessage::ReassignPlayer { user_id: self.user_id, from_user, to_user })
            },
            ClientMessage::ResetToLobby => {
                Command::Request(RoomManagerMessage::ResetToLobby { user_id: self.user_id })
            },
            ClientMessage::GameViewRequest => match &self.last_view {
                Some(v) => Command::Reply(Some(ServerMessage::GameInfo { view: v.clone() })),
                None => Command::Reply(None),
            },
            ClientMessage::JoinRoom { .. } | ClientMessage::RejoinRoom { .. } => {
                Command::Reply(Some(error_message("You're in a room")))
            },
        }
    }

    /// Takes a change of the user's view topic: the first view goes out
    /// whole, later ones as a JSON Patch from the last view sent.
    pub fn view_changed(&mut self, view: Option<serde_json::Value>) -> (r: Option<ServerMessage>)
        ensures
            (final(self).last_view, r) == view_step(old(self).last_view, view),
            final(self).room_id == old(self).room_id,
            final(self).token == old(self).token,
            final(self).user_id == old(self).user_id,
            final(self).username == old(self).username,
    {
        match view {
            None => {
                self.last_view = None;
                None
            },
            Some(v) => {
                let frame = match &self.last_view {
                    None => Some(ServerMessage::GameInfo { view: v.clone() }),
                    Some(last) => {
                        let patch = json_patch::diff(last, &v);
                        if patch_is_empty(&patch) {
                            None
                        } else {
                            match patch_to_json(patch) {
                                Some(d) => Some(ServerMessage::GameViewDiff { diff: d }),
                                None => None,
                            }
                        }
                    },
                };
                self.last_view = Some(v);
                frame
            },
        }
    }
}

/// Connections of one user watch the same view topic. Whatever each sent
/// before, after a change both hold the new view; two that held the same view
/// also send the same frame.
pub proof fn lemma_sessions_agree(
    last1: Option<serde_json::Value>,
    last2: Option<serde_json::Value>,
    view: Option<serde_json::Value>,
)
    ensures
        view_step(last1, view).0 == view,
        view_step(last2, view).0 == view,
        last1 == last2 ==> view_step(last1, view) == view_step(last2, view),
{
}

} // verus!

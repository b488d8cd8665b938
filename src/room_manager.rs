//! The decisions of a room's actor: it applies one request at a time to its
//! room and says which topics the request made stale. Running the mailbox and
//! the topics themselves is left to the caller.
use vstd::prelude::*;

use crate::error::Error;
use crate::game::Game;
use crate::ids::UserId;
use crate::room::{
    action_post, join_post, kick_post, position_of, reassign_post, reset_post, start_post,
    update_config_post, JoinInfo, PlayerMapping, Room, UserData,
};

verus! {

/// A request to a room's actor.
#[derive(Debug)]
pub enum RoomManagerMessage {
    JoinRoom { join_info: JoinInfo },
    UpdateConfig { user_id: UserId, config: serde_json::Value },
    StartGame { user_id: UserId, player_mapping: Option<PlayerMapping> },
    DoAction { user_id: UserId, action: serde_json::Value },
    KickUser { user_id: UserId, target: UserId },
    ReassignPlayer { user_id: UserId, from_user: UserId, to_user: UserId },
    ResetToLobby { user_id: UserId },
}

/// The answer to a successful request.
#[derive(Debug)]
pub enum Reply {
    Joined(UserData),
    Done,
}

/// Which topics a request made stale: the user roster, the room's
/// configuration, and the per-user game views.
#[derive(Clone, Copy, Debug, PartialEq, Eq, Structural)]
pub struct Dirty {
    pub users: bool,
    pub room: bool,
    pub game: bool,
}

/// The state of a room's actor: its room, and the users that have a view
/// topic, in order of their first join.
pub struct RoomManager<T: Game> {
    pub room: Room<T>,
    pub view_users: Vec<UserId>,
}

/// The topics that a request of this kind makes stale when it succeeds; a
/// failed request makes none stale.
pub open spec fn dirty_for(message: RoomManagerMessage, ok: bool) -> Dirty {
    if !ok {
        Dirty { users: false, room: false, game: false }
    } else {
        match message {
            RoomManagerMessage::JoinRoom { .. } => Dirty { users: true, room: false, game: false },
            RoomManagerMessage::UpdateConfig { .. } => Dirty { users: false, room: true, game: false },
            RoomManagerMessage::StartGame { .. } => Dirty { users: true, room: true, game: true },
            RoomManagerMessage::DoAction { .. } => Dirty { users: false, room: false, game: true },
            RoomManagerMessage::KickUser { .. } => Dirty { users: true, room: false, game: true },
            RoomManagerMessage::ReassignPlayer { .. } => Dirty { users: true, room: false, game: true },
            RoomManagerMessage::ResetToLobby { .. } => Dirty { users: true, room: true, game: true },
        }
    }
}

/// A reply seen as the result of a room operation without a value.
pub open spec fn as_unit(r: Result<Reply, Error>) -> Result<(), Error> {
    match r {
        Ok(_) => Ok(()),
        Err(e) => Err(e),
    }
}

/// What handling a request does to the actor's state and what it replies.
pub open spec fn handle_post<T: Game>(
    old: RoomManager<T>,
    message: RoomManagerMessage,
    new: RoomManager<T>,
    r: Result<Reply, Error>,
) -> bool {
    match message {
        RoomManagerMessage::JoinRoom { join_info } => match r {
            Ok(Reply::Joined(d)) => {
                &&& join_post(old.room, join_info, new.room, Ok(d))
                &&& new.view_users@ == if old.view_users@.contains(d.id) {
                    old.view_users@
                } else {
                    old.view_users@.push(d.id)
                }
            },
            Ok(Reply::Done) => false,
            Err(e) => join_post(old.room, join_info, new.room, Err(e)) && new.view_users == old.view_users,
        },
        RoomManagerMessage::UpdateConfig { user_id, config } => match T::spec_parse_config(config) {
            None => r == Err::<Reply, Error>(Error::ParseFailure) && new == old,
            Some(c) => {
                &&& update_config_post(old.room, user_id, c, new.room, as_unit(r))
                &&& new.view_users == old.view_users
            },
        },
        RoomManagerMessage::StartGame { user_id, player_mapping } => {
            &&& start_post(old.room, user_id, player_mapping, new.room, as_unit(r))
            &&& new.view_users == old.view_users
        },
        RoomManagerMessage::DoAction { user_id, action } => match T::spec_parse_action(action) {
            None => r == Err::<Reply, Error>(Error::ParseFailure) && new == old,
            Some(a) => {
                &&& action_post(old.room, user_id, a, new.room, as_unit(r))
                &&& new.view_users == old.view_users
            },
        },
        RoomManagerMessage::KickUser { user_id, target } => {
            &&& kick_post(old.room, user_id, target, new.room, as_unit(r))
            &&& new.view_users@ == if r is Ok && old.view_users@.contains(target) {
                old.view_users@.remove(crate::room::id_index(old.view_users@, target))
            } else {
                old.view_users@
            }
        },
        RoomManagerMessage::ReassignPlayer { user_id, from_user, to_user } => {
            &&& reassign_post(old.room, user_id, from_user, to_user, new.room, as_unit(r))
            &&& new.view_users == old.view_users
        },
        RoomManagerMessage::ResetToLobby { user_id } => {
            &&& reset_post(old.room, user_id, new.room, as_unit(r))
            &&& new.view_users == old.view_users
        },
    }
}

fn done(r: Result<(), Error>) -> (out: Result<Reply, Error>)
    ensures
        as_unit(out) == r,
        r is Ok ==> out matches Ok(Reply::Done),
{
    match r {
        Ok(u) => {
            assert(u == ());
            Ok(Reply::Done)
        },
        Err(e) => Err(e),
    }
}

impl<T: Game> RoomManager<T> {
    /// The actor's invariant: its room is well formed and each user has at
    /// most one view topic.
    pub open spec fn wf(&self) -> bool {
        &&& self.room.wf()
        &&& forall|i: int, j: int| 0 <= i < j < self.view_users@.len()
            ==> #[trigger] self.view_users@[i] != #[trigger] self.view_users@[j]
    }

    pub fn new() -> (r: RoomManager<T>)
        ensures
            r.wf(),
            r.room.users@.len() == 0,
            r.room.user_data@.len() == 0,
            r.room.state == (crate::room::RoomState::<T>::Lobby { config: T::spec_default_config() }),
            r.room.next_user_id == UserId(0),
            r.view_users@.len() == 0,
    {
        RoomManager { room: Room::new(), view_users: Vec::new() }
    }

    /// Applies one request to the room, and says which topics to republish.
    pub fn handle(&mut self, message: RoomManagerMessage) -> (r: (Result<Reply, Error>, Dirty))
        requires
            old(self).wf(),
        ensures
            final(self).wf(),
            handle_post(*old(self), message, *final(self), r.0),
            r.1 == dirty_for(message, r.0 is Ok),
    {
        let on_success = match &message {
            RoomManagerMessage::JoinRoom { .. } => Dirty { users: true, room: false, game: false },
            RoomManagerMessage::UpdateConfig { .. } => Dirty { users: false, room: true, game: false },
            RoomManagerMessage::StartGame { .. } => Dirty { users: true, room: true, game: true },
            RoomManagerMessage::DoAction { .. } => Dirty { users: false, room: false, game: true },
            RoomManagerMessage::KickUser { .. } => Dirty { users: true, room: false, game: true },
            RoomManagerMessage::ReassignPlayer { .. } => Dirty { users: true, room: false, game: true },
            RoomManagerMessage::ResetToLobby { .. } => Dirty { users: true, room: true, game: true },
        };
        let result = match message {
            RoomManagerMessage::JoinRoom { join_info } => {
                let joined = self.room.join_room(join_info);
                match joined {
                    Ok(d) => {
                        if position_of(&self.view_users, d.id).is_none() {
                            let ghost v0 = self.view_users@;
                            self.view_users.push(d.id);
                            proof {
                                assert forall|i: int, j: int| 0 <= i < j < self.view_users@.len()
                                    implies #[trigger] self.view_users@[i] != #[trigger] self.view_users@[j] by {
                                    if j == v0.len() {
                                        assert(self.view_users@[i] == v0[i]);
                                    } else {
                                        assert(v0[i] != v0[j]);
                                    }
                                }
                            }
                        }
                        Ok(Reply::Joined(d))
                    },
                    Err(e) => Err(e),
                }
            },
            RoomManagerMessage::UpdateConfig { user_id, config } => match T::parse_config(&config) {
                Some(c) => done(self.room.update_config(&user_id, c)),
                None => Err(Error::ParseFailure),
            },
            RoomManagerMessage::StartGame { user_id, player_mapping } => {
                done(self.room.start_game(&user_id, player_mapping))
            },
            RoomManagerMessage::DoAction { user_id, action } => match T::parse_action(&action) {
                Some(a) => done(self.room.user_action(&user_id, &a)),
                None => Err(Error::ParseFailure),
            },
            RoomManagerMessage::KickUser { user_id, target } => {
                let kicked = self.room.kick_user(&user_id, &target);
                if kicked.is_ok() {
                    match position_of(&self.view_users, target) {
                        Some(j) => {
                            let ghost v0 = self.view_users@;
                            proof {
                                let k = crate::room::id_index(v0, target);
                                assert(v0[j as int] == target);
                                assert(v0[k] == target);
                                if k < j as int {
                                    assert(v0[k] != v0[j as int]);
                                } else if k > j as int {
                                    assert(v0[j as int] != v0[k]);
                                }
                            }
                            self.view_users.remove(j);
                            proof {
                                assert forall|a: int, b: int| 0 <= a < b < self.view_users@.len()
                                    implies #[trigger] self.view_users@[a] != #[trigger] self.view_users@[b] by {
                                    let a0 = if a < j as int { a } else { a + 1 };
                                    let b0 = if b < j as int { b } else { b + 1 };
                                    assert(v0[a0] != v0[b0]);
                                }
                            }
                        },
                        None => {},
                    }
                }
                done(kicked)
            },
            RoomManagerMessage::ReassignPlayer { user_id, from_user, to_user } => {
                done(self.room.reassign_player(&user_id, &from_user, &to_user))
            },
            RoomManagerMessage::ResetToLobby { user_id } => done(self.room.reset_to_lobby(&user_id)),
        };
        let dirty = if result.is_ok() {
            on_success
        } else {
            Dirty { users: false, room: false, game: false }
        };
        (result, dirty)
    }

    /// The latest view of each user with a view topic: none outside a game.
    pub fn game_views(&self) -> (r: Vec<(UserId, Option<serde_json::Value>)>)
        requires
            self.wf(),
        ensures
            r@.len() == self.view_users@.len(),
            forall|i: int| 0 <= i < r@.len() ==> #[trigger] r@[i] == (self.view_users@[i], self.room.view_of(self.view_users@[i])),
    {
        let mut r: Vec<(UserId, Option<serde_json::Value>)> = Vec::new();
        let mut i: usize = 0;
        while i < self.view_users.len()
            invariant
                self.wf(),
                i <= self.view_users@.len(),
                r@.len() == i,
                forall|k: int| 0 <= k < i ==> #[trigger] r@[k] == (self.view_users@[k], self.room.view_of(self.view_users@[k])),
            decreases self.view_users@.len() - i,
        {
            let u = self.view_users[i];
            let view = match self.room.user_view(&u) {
                Ok(v) => Some(v),
                Err(_) => None,
            };
            r.push((u, view));
            i = i + 1;
        }
        r
    }
}

/// A configuration sent as JSON that the actor accepts is decodable, and the
/// room then publishes the game's JSON encoding of what it decoded to.
pub proof fn lemma_update_config_published<T: Game>(
    old: RoomManager<T>,
    user_id: UserId,
    config: serde_json::Value,
    new: RoomManager<T>,
    r: Result<Reply, Error>,
)
    requires
        handle_post(old, RoomManagerMessage::UpdateConfig { user_id, config }, new, r),
        r is Ok,
    ensures
        T::spec_parse_config(config) is Some,
        new.room.lobby_json() == Some(T::spec_config_json(T::spec_parse_config(config)->0)),
{
}

} // verus!

//! The room: a single-threaded state machine over the users of one room and
//! its lobby or game.
use vstd::prelude::*;

use crate::error::Error;
use crate::game::Game;
use crate::ids::{PlayerId, ReconnectToken, UserId};
use crate::protocol::UserInfo;

verus! {

/// How a user asks to enter a room.
#[derive(Debug)]
pub enum JoinInfo {
    Username(String),
    ReconnectToken(ReconnectToken),
}

/// The record of a user admitted to a room and not kicked since.
#[derive(Debug)]
pub struct UserData {
    pub id: UserId,
    pub username: String,
    pub token: ReconnectToken,
}

/// Which user sits at which seat.
pub type PlayerMapping = Vec<(UserId, PlayerId)>;

pub enum RoomState<T: Game> {
    Lobby { config: T::Config },
    Game { game_state: T, player_mapping: PlayerMapping },
}

/// One room. The first of `users` is the leader; `user_data` also keeps the
/// users who may reconnect.
pub struct Room<T: Game> {
    pub users: Vec<UserId>,
    pub user_data: Vec<UserData>,
    pub state: RoomState<T>,
    pub next_user_id: UserId,
}

pub open spec fn has_user(d: Seq<UserData>, u: UserId) -> bool {
    exists|i: int| 0 <= i < d.len() && #[trigger] d[i].id == u
}

/// The position of a user's record.
pub open spec fn user_index(d: Seq<UserData>, u: UserId) -> int {
    choose|i: int| 0 <= i < d.len() && #[trigger] d[i].id == u
}

/// The position of a user in a list of users.
pub open spec fn id_index(s: Seq<UserId>, u: UserId) -> int {
    choose|i: int| 0 <= i < s.len() && s[i] == u
}

pub open spec fn name_in_use(d: Seq<UserData>, name: Seq<char>) -> bool {
    exists|i: int| 0 <= i < d.len() && #[trigger] d[i].username@ == name
}

/// `i` is the first record that holds token `t`.
pub open spec fn first_with_token(d: Seq<UserData>, t: Seq<char>, i: int) -> bool {
    &&& 0 <= i < d.len()
    &&& d[i].token.0@ == t
    &&& forall|j: int| 0 <= j < i ==> #[trigger] d[j].token.0@ != t
}

/// The record that a reconnect token names: the first that holds it.
pub open spec fn token_index(d: Seq<UserData>, t: Seq<char>) -> Option<int> {
    if exists|i: int| first_with_token(d, t, i) {
        Some(choose|i: int| first_with_token(d, t, i))
    } else {
        None
    }
}

pub open spec fn mapped(m: Seq<(UserId, PlayerId)>, u: UserId) -> bool {
    exists|i: int| 0 <= i < m.len() && #[trigger] m[i].0 == u
}

/// The position of a user in a player mapping.
pub open spec fn mapping_index(m: Seq<(UserId, PlayerId)>, u: UserId) -> int {
    choose|i: int| 0 <= i < m.len() && #[trigger] m[i].0 == u
}

/// The seat of a user, if the mapping gives one.
pub open spec fn player_of(m: Seq<(UserId, PlayerId)>, u: UserId) -> Option<PlayerId> {
    if mapped(m, u) {
        Some(m[mapping_index(m, u)].1)
    } else {
        None
    }
}

/// A mapping seats each user at most once, fills each seat at most once, and
/// uses only seats of the game.
pub open spec fn mapping_wf(m: Seq<(UserId, PlayerId)>, players: Seq<PlayerId>) -> bool {
    &&& forall|i: int, j: int| 0 <= i < j < m.len() ==> #[trigger] m[i].0 != #[trigger] m[j].0
    &&& forall|i: int, j: int| 0 <= i < j < m.len() ==> #[trigger] m[i].1 != #[trigger] m[j].1
    &&& forall|i: int| 0 <= i < m.len() ==> players.contains(#[trigger] m[i].1)
}

proof fn lemma_mapped_push(m: Seq<(UserId, PlayerId)>, x: (UserId, PlayerId))
    ensures
        forall|u: UserId| mapped(m.push(x), u) <==> (mapped(m, u) || x.0 == u),
{
    let n = m.push(x);
    assert forall|u: UserId| mapped(n, u) <==> (mapped(m, u) || x.0 == u) by {
        if mapped(n, u) {
            let a = choose|a: int| 0 <= a < n.len() && #[trigger] n[a].0 == u;
            if a < m.len() {
                assert(m[a].0 == u);
            }
        }
        if mapped(m, u) {
            let a = choose|a: int| 0 <= a < m.len() && #[trigger] m[a].0 == u;
            assert(n[a].0 == u);
        }
        if x.0 == u {
            assert(n[m.len() as int].0 == u);
        }
    }
}

proof fn lemma_seq_push_contains(r0: Seq<UserId>, u: UserId, present: bool, r1: Seq<UserId>)
    requires
        present ==> r0.contains(u) && r1 == r0,
        !present ==> r1 == r0.push(u),
    ensures
        forall|w: UserId| r1.contains(w) <==> (r0.contains(w) || w == u),
{
    assert forall|w: UserId| r1.contains(w) <==> (r0.contains(w) || w == u) by {
        if !present {
            if r1.contains(w) {
                let a = choose|a: int| 0 <= a < r1.len() && r1[a] == w;
                if a < r0.len() {
                    assert(r0[a] == w);
                }
            }
            if r0.contains(w) {
                let a = choose|a: int| 0 <= a < r0.len() && r0[a] == w;
                assert(r1[a] == w);
            }
            assert(r1[r0.len() as int] == u);
        }
    }
}

fn find_user_data(d: &Vec<UserData>, u: UserId) -> (r: Option<usize>)
    ensures
        r matches Some(i) ==> i < d@.len() && d@[i as int].id == u,
        r is None ==> !has_user(d@, u),
{
    let mut i: usize = 0;
    while i < d.len()
        invariant
            i <= d@.len(),
            forall|j: int| 0 <= j < i ==> #[trigger] d@[j].id != u,
        decreases d@.len() - i,
    {
        if d[i].id == u {
            return Some(i);
        }
        i = i + 1;
    }
    None
}

fn find_mapped(m: &PlayerMapping, u: UserId) -> (r: Option<usize>)
    ensures
        r matches Some(i) ==> i < m@.len() && m@[i as int].0 == u,
        r is None ==> !mapped(m@, u),
{
    let mut i: usize = 0;
    while i < m.len()
        invariant
            i <= m@.len(),
            forall|j: int| 0 <= j < i ==> #[trigger] m@[j].0 != u,
        decreases m@.len() - i,
    {
        if m[i].0 == u {
            return Some(i);
        }
        i = i + 1;
    }
    None
}

pub(crate) fn position_of(v: &Vec<UserId>, u: UserId) -> (r: Option<usize>)
    ensures
        r matches Some(i) ==> i < v@.len() && v@[i as int] == u,
        r is None ==> !v@.contains(u),
{
    let mut i: usize = 0;
    while i < v.len()
        invariant
            i <= v@.len(),
            forall|j: int| 0 <= j < i ==> #[trigger] v@[j] != u,
        decreases v@.len() - i,
    {
        if v[i] == u {
            return Some(i);
        }
        i = i + 1;
    }
    None
}

/// The seat of a user in a mapping with unique users.
fn lookup_player(m: &PlayerMapping, u: UserId) -> (r: Option<PlayerId>)
    requires
        forall|i: int, j: int| 0 <= i < j < m@.len() ==> #[trigger] m@[i].0 != #[trigger] m@[j].0,
    ensures
        r == player_of(m@, u),
{
    match find_mapped(m, u) {
        Some(i) => {
            proof {
                let k = mapping_index(m@, u);
                assert(m@[k].0 == u);
                if k < i as int {
                    assert(m@[k].0 != m@[i as int].0);
                } else if k > i as int {
                    assert(m@[i as int].0 != m@[k].0);
                }
            }
            Some(m[i].1)
        },
        None => None,
    }
}

impl Clone for UserData {
    fn clone(&self) -> (r: UserData)
        ensures
            r == *self,
    {
        UserData { id: self.id, username: self.username.clone(), token: self.token.clone() }
    }
}

proof fn lemma_first_with_token_unique(d: Seq<UserData>, t: Seq<char>, i: int)
    requires
        first_with_token(d, t, i),
    ensures
        token_index(d, t) == Some(i),
{
    let k = choose|k: int| first_with_token(d, t, k);
    assert(first_with_token(d, t, k));
    if k < i {
        assert(d[k].token.0@ != t);
    } else if k > i {
        assert(d[i].token.0@ != t);
    }
}

fn username_taken(d: &Vec<UserData>, name: &String) -> (r: bool)
    ensures
        r == name_in_use(d@, name@),
{
    let mut i: usize = 0;
    while i < d.len()
        invariant
            i <= d@.len(),
            forall|j: int| 0 <= j < i ==> #[trigger] d@[j].username@ != name@,
        decreases d@.len() - i,
    {
        if d[i].username == *name {
            return true;
        }
        i = i + 1;
    }
    false
}

/// The position of the first record holding a token.
fn find_token(d: &Vec<UserData>, t: &ReconnectToken) -> (r: Option<usize>)
    ensures
        r matches Some(i) ==> token_index(d@, t.0@) == Some(i as int),
        r is None ==> token_index(d@, t.0@) is None,
{
    let mut i: usize = 0;
    while i < d.len()
        invariant
            i <= d@.len(),
            forall|j: int| 0 <= j < i ==> #[trigger] d@[j].token.0@ != t.0@,
        decreases d@.len() - i,
    {
        if d[i].token.0 == t.0 {
            proof {
                lemma_first_with_token_unique(d@, t.0@, i as int);
            }
            return Some(i);
        }
        i = i + 1;
    }
    proof {
        if exists|k: int| first_with_token(d@, t.0@, k) {
            let k = choose|k: int| first_with_token(d@, t.0@, k);
            assert(d@[k].token.0@ != t.0@);
        }
    }
    None
}

/// The seats in order of first appearance, each once.
pub open spec fn distinct_players(s: Seq<PlayerId>) -> Seq<PlayerId>
    decreases s.len(),
{
    if s.len() == 0 {
        Seq::empty()
    } else {
        let d = distinct_players(s.drop_last());
        if d.contains(s.last()) {
            d
        } else {
            d.push(s.last())
        }
    }
}

/// The i-th user takes the i-th seat.
pub open spec fn seat_in_order(users: Seq<UserId>, players: Seq<PlayerId>) -> Seq<(UserId, PlayerId)> {
    Seq::new(users.len(), |i: int| (users[i], players[i]))
}

/// An explicit mapping names active users, each once.
pub open spec fn mapping_users_valid(m: Seq<(UserId, PlayerId)>, users: Seq<UserId>) -> bool {
    &&& forall|i: int| 0 <= i < m.len() ==> users.contains(#[trigger] m[i].0)
    &&& forall|i: int, j: int| 0 <= i < j < m.len() ==> #[trigger] m[i].0 != #[trigger] m[j].0
}

/// An explicit mapping names seats of the game, each once.
pub open spec fn mapping_players_valid(m: Seq<(UserId, PlayerId)>, players: Seq<PlayerId>) -> bool {
    &&& forall|i: int| 0 <= i < m.len() ==> players.contains(#[trigger] m[i].1)
    &&& forall|i: int, j: int| 0 <= i < j < m.len() ==> #[trigger] m[i].1 != #[trigger] m[j].1
}

proof fn lemma_distinct_players(s: Seq<PlayerId>)
    ensures
        forall|i: int| 0 <= i < distinct_players(s).len() ==> s.contains(#[trigger] distinct_players(s)[i]),
        forall|i: int, j: int| 0 <= i < j < distinct_players(s).len()
            ==> #[trigger] distinct_players(s)[i] != #[trigger] distinct_players(s)[j],
    decreases s.len(),
{
    if s.len() > 0 {
        let t = s.drop_last();
        lemma_distinct_players(t);
        assert forall|i: int| 0 <= i < distinct_players(s).len() implies s.contains(
            #[trigger] distinct_players(s)[i]) by {
            if i < distinct_players(t).len() {
                let k = choose|k: int| 0 <= k < t.len() && t[k] == distinct_players(t)[i];
                assert(s[k] == t[k]);
            } else {
                assert(s[s.len() - 1] == s.last());
            }
        }
    }
}

fn contains_player(v: &Vec<PlayerId>, p: PlayerId) -> (r: bool)
    ensures
        r == v@.contains(p),
{
    let mut i: usize = 0;
    while i < v.len()
        invariant
            i <= v@.len(),
            forall|j: int| 0 <= j < i ==> #[trigger] v@[j] != p,
        decreases v@.len() - i,
    {
        if v[i] == p {
            return true;
        }
        i = i + 1;
    }
    false
}

fn dedup_players(v: &Vec<PlayerId>) -> (r: Vec<PlayerId>)
    ensures
        r@ == distinct_players(v@),
{
    let mut r: Vec<PlayerId> = Vec::new();
    let mut i: usize = 0;
    while i < v.len()
        invariant
            i <= v@.len(),
            r@ == distinct_players(v@.take(i as int)),
        decreases v@.len() - i,
    {
        assert(v@.take(i as int + 1).drop_last() =~= v@.take(i as int));
        assert(v@.take(i as int + 1).last() == v@[i as int]);
        if !contains_player(&r, v[i]) {
            r.push(v[i]);
        }
        i = i + 1;
    }
    assert(v@.take(v@.len() as int) =~= v@);
    r
}

fn zip_seats(users: &Vec<UserId>, players: &Vec<PlayerId>) -> (r: PlayerMapping)
    requires
        users@.len() == players@.len(),
    ensures
        r@ == seat_in_order(users@, players@),
{
    let mut r: PlayerMapping = Vec::new();
    let mut i: usize = 0;
    while i < users.len()
        invariant
            i <= users@.len(),
            users@.len() == players@.len(),
            r@ =~= seat_in_order(users@.take(i as int), players@.take(i as int)),
        decreases users@.len() - i,
    {
        r.push((users[i], players[i]));
        i = i + 1;
    }
    assert(users@.take(users@.len() as int) =~= users@);
    assert(players@.take(players@.len() as int) =~= players@);
    r
}

fn users_valid(m: &PlayerMapping, users: &Vec<UserId>) -> (r: bool)
    ensures
        r == mapping_users_valid(m@, users@),
{
    let mut i: usize = 0;
    while i < m.len()
        invariant
            i <= m@.len(),
            mapping_users_valid(m@.take(i as int), users@),
        decreases m@.len() - i,
    {
        if position_of(users, m[i].0).is_none() {
            assert(!users@.contains(m@[i as int].0));
            return false;
        }
        let mut j: usize = 0;
        while j < i
            invariant
                j <= i < m@.len(),
                forall|k: int| 0 <= k < j ==> #[trigger] m@[k].0 != m@[i as int].0,
            decreases i - j,
        {
            if m[j].0 == m[i].0 {
                return false;
            }
            j = j + 1;
        }
        assert(mapping_users_valid(m@.take(i as int + 1), users@)) by {
            let t = m@.take(i as int + 1);
            assert forall|a: int, b: int| 0 <= a < b < t.len() implies #[trigger] t[a].0 != #[trigger] t[b].0 by {
                if b < i as int {
                    assert(m@.take(i as int)[a] == t[a]);
                    assert(m@.take(i as int)[b] == t[b]);
                }
            }
            assert forall|a: int| 0 <= a < t.len() implies users@.contains(#[trigger] t[a].0) by {
                if a < i as int {
                    assert(m@.take(i as int)[a] == t[a]);
                }
            }
        }
        i = i + 1;
    }
    assert(m@.take(m@.len() as int) =~= m@);
    true
}

fn players_valid(m: &PlayerMapping, players: &Vec<PlayerId>) -> (r: bool)
    ensures
        r == mapping_players_valid(m@, players@),
{
    let mut i: usize = 0;
    while i < m.len()
        invariant
            i <= m@.len(),
            mapping_players_valid(m@.take(i as int), players@),
        decreases m@.len() - i,
    {
        if !contains_player(players, m[i].1) {
            return false;
        }
        let mut j: usize = 0;
        while j < i
            invariant
                j <= i < m@.len(),
                forall|k: int| 0 <= k < j ==> #[trigger] m@[k].1 != m@[i as int].1,
            decreases i - j,
        {
            if m[j].1 == m[i].1 {
                return false;
            }
            j = j + 1;
        }
        assert(mapping_players_valid(m@.take(i as int + 1), players@)) by {
            let t = m@.take(i as int + 1);
            assert forall|a: int, b: int| 0 <= a < b < t.len() implies #[trigger] t[a].1 != #[trigger] t[b].1 by {
                if b < i as int {
                    assert(m@.take(i as int)[a] == t[a]);
                    assert(m@.take(i as int)[b] == t[b]);
                }
            }
            assert forall|a: int| 0 <= a < t.len() implies players@.contains(#[trigger] t[a].1) by {
                if a < i as int {
                    assert(m@.take(i as int)[a] == t[a]);
                }
            }
        }
        i = i + 1;
    }
    assert(m@.take(m@.len() as int) =~= m@);
    true
}

/// The users, their records and the id counter are as they were.
pub open spec fn same_members<T: Game>(old: Room<T>, new: Room<T>) -> bool {
    &&& new.users == old.users
    &&& new.user_data == old.user_data
    &&& new.next_user_id == old.next_user_id
}

/// What `start_game` does.
pub open spec fn start_post<T: Game>(
    old: Room<T>,
    user: UserId,
    mapping: Option<PlayerMapping>,
    new: Room<T>,
    r: Result<(), Error>,
) -> bool {
    if !old.is_leader(user) {
        r == Err::<(), Error>(Error::UserNotLeader) && new == old
    } else if !old.in_lobby() {
        r == Err::<(), Error>(Error::GameAlreadyStarted) && new == old
    } else if mapping matches Some(m) && !mapping_users_valid(m@, old.users@) {
        r == Err::<(), Error>(Error::InvalidPlayerMapping) && new == old
    } else {
        match T::spec_new(old.state->Lobby_config, old.users@.len() as u32) {
            None => r is Err && new == old,
            Some(g) => match mapping {
                Some(m) => if !mapping_players_valid(m@, g.spec_players()) {
                    r == Err::<(), Error>(Error::InvalidPlayerMapping) && new == old
                } else {
                    &&& r is Ok
                    &&& same_members(old, new)
                    &&& new.state == (RoomState::Game { game_state: g, player_mapping: m })
                },
                None => if distinct_players(g.spec_players()).len() != old.users@.len() {
                    r == Err::<(), Error>(Error::WrongPlayerCount) && new == old
                } else {
                    &&& r is Ok
                    &&& same_members(old, new)
                    &&& new.state matches RoomState::Game { game_state, player_mapping }
                    &&& new.state->game_state == g
                    &&& new.state->player_mapping@
                        == seat_in_order(old.users@, distinct_players(g.spec_players()))
                },
            },
        }
    }
}

/// What `update_config` does.
pub open spec fn update_config_post<T: Game>(
    old: Room<T>,
    user: UserId,
    config: T::Config,
    new: Room<T>,
    r: Result<(), Error>,
) -> bool {
    if !old.is_leader(user) {
        r == Err::<(), Error>(Error::UserNotLeader) && new == old
    } else if !old.in_lobby() {
        r == Err::<(), Error>(Error::GameAlreadyStarted) && new == old
    } else {
        r is Ok && same_members(old, new) && new.state == (RoomState::<T>::Lobby { config })
    }
}

/// What `reset_to_lobby` does.
pub open spec fn reset_post<T: Game>(old: Room<T>, user: UserId, new: Room<T>, r: Result<(), Error>) -> bool {
    if !old.is_leader(user) {
        r == Err::<(), Error>(Error::UserNotLeader) && new == old
    } else {
        &&& r is Ok
        &&& same_members(old, new)
        &&& new.state == (RoomState::<T>::Lobby { config: T::spec_default_config() })
    }
}

/// What `kick_user` does.
pub open spec fn kick_post<T: Game>(
    old: Room<T>,
    user: UserId,
    target: UserId,
    new: Room<T>,
    r: Result<(), Error>,
) -> bool {
    if !old.is_leader(user) {
        r == Err::<(), Error>(Error::UserNotLeader) && new == old
    } else if mapped(old.mapping(), target) {
        r == Err::<(), Error>(Error::UserIsPlayer) && new == old
    } else if !has_user(old.user_data@, target) {
        r == Err::<(), Error>(Error::UserNotFound) && new == old
    } else {
        &&& r is Ok
        &&& new.state == old.state
        &&& new.next_user_id == old.next_user_id
        &&& new.user_data@ == old.user_data@.remove(user_index(old.user_data@, target))
        &&& new.users@ == if old.users@.contains(target) {
            old.users@.remove(id_index(old.users@, target))
        } else {
            old.users@
        }
    }
}

/// What `reassign_player` does.
pub open spec fn reassign_post<T: Game>(
    old: Room<T>,
    user: UserId,
    from_user: UserId,
    to_user: UserId,
    new: Room<T>,
    r: Result<(), Error>,
) -> bool {
    if !old.is_leader(user) {
        r == Err::<(), Error>(Error::UserNotLeader) && new == old
    } else if old.in_lobby() {
        r == Err::<(), Error>(Error::GameNotStarted) && new == old
    } else if mapped(old.mapping(), to_user) {
        r == Err::<(), Error>(Error::UserIsAlreadyPlayer(to_user)) && new == old
    } else if !mapped(old.mapping(), from_user) {
        r == Err::<(), Error>(Error::UserIsNotPlayer(from_user)) && new == old
    } else {
        let k = mapping_index(old.mapping(), from_user);
        &&& r is Ok
        &&& same_members(old, new)
        &&& new.state matches RoomState::Game { game_state, player_mapping }
        &&& new.state->game_state == old.state->game_state
        &&& new.state->player_mapping@ == old.mapping().update(k, (to_user, old.mapping()[k].1))
    }
}

/// What `user_action` does.
pub open spec fn action_post<T: Game>(
    old: Room<T>,
    user: UserId,
    action: T::Action,
    new: Room<T>,
    r: Result<(), Error>,
) -> bool {
    match old.state {
        RoomState::Lobby { .. } => r == Err::<(), Error>(Error::GameNotStarted) && new == old,
        RoomState::Game { game_state, player_mapping } => match player_of(player_mapping@, user) {
            None => r == Err::<(), Error>(Error::UserNotInGame) && new == old,
            Some(p) => match game_state.spec_action(p, action) {
                Ok(s) => {
                    &&& r is Ok
                    &&& same_members(old, new)
                    &&& new.state == (RoomState::Game { game_state: s, player_mapping })
                },
                Err(reason) => new == old && (r matches Err(Error::InvalidAction(m)) && m@ == reason),
            },
        },
    }
}

/// What `join_room` does, for each way of joining.
pub open spec fn join_post<T: Game>(
    old: Room<T>,
    info: JoinInfo,
    new: Room<T>,
    r: Result<UserData, Error>,
) -> bool {
    match info {
        JoinInfo::Username(name) => {
            if name_in_use(old.user_data@, name@) {
                r == Err::<UserData, Error>(Error::UsernameInUse) && new == old
            } else if old.next_user_id.0 == u32::MAX {
                r == Err::<UserData, Error>(Error::Unknown) && new == old
            } else {
                &&& r matches Ok(d)
                &&& r->Ok_0.id == old.next_user_id
                &&& r->Ok_0.username == name
                &&& r->Ok_0.token.well_formed()
                &&& new.user_data@ == old.user_data@.push(r->Ok_0)
                &&& new.users@ == old.users@.push(old.next_user_id)
                &&& new.state == old.state
                &&& new.next_user_id == UserId((old.next_user_id.0 + 1) as u32)
            }
        },
        JoinInfo::ReconnectToken(t) => match token_index(old.user_data@, t.0@) {
            None => r == Err::<UserData, Error>(Error::InvalidReconnectToken) && new == old,
            Some(i) => {
                &&& r == Ok::<UserData, Error>(old.user_data@[i])
                &&& new.user_data == old.user_data
                &&& new.state == old.state
                &&& new.next_user_id == old.next_user_id
                &&& new.users@ == if old.users@.contains(old.user_data@[i].id) {
                    old.users@
                } else {
                    old.users@.push(old.user_data@[i].id)
                }
            },
        },
    }
}

impl<T: Game> Room<T> {
    /// The room's invariant.
    pub open spec fn wf(&self) -> bool {
        // Records have distinct ids and distinct usernames, all below the
        // next id to mint.
        &&& forall|i: int, j: int| 0 <= i < j < self.user_data@.len()
            ==> #[trigger] self.user_data@[i].id != #[trigger] self.user_data@[j].id
        &&& forall|i: int, j: int| 0 <= i < j < self.user_data@.len()
            ==> #[trigger] self.user_data@[i].username@ != #[trigger] self.user_data@[j].username@
        &&& forall|i: int| 0 <= i < self.user_data@.len()
            ==> (#[trigger] self.user_data@[i]).id.0 < self.next_user_id.0
        // Each active user is listed once and has a record.
        &&& forall|i: int, j: int| 0 <= i < j < self.users@.len()
            ==> #[trigger] self.users@[i] != #[trigger] self.users@[j]
        &&& forall|i: int| 0 <= i < self.users@.len() ==> has_user(self.user_data@, #[trigger] self.users@[i])
        // A running game seats users one to one at seats of the game.
        &&& match self.state {
            RoomState::Lobby { .. } => true,
            RoomState::Game { game_state, player_mapping } =>
                mapping_wf(player_mapping@, game_state.spec_players()),
        }
    }

    pub open spec fn is_leader(&self, u: UserId) -> bool {
        self.users@.len() > 0 && self.users@[0] == u
    }

    pub open spec fn in_lobby(&self) -> bool {
        self.state is Lobby
    }

    /// The player mapping; empty in the lobby.
    pub open spec fn mapping(&self) -> Seq<(UserId, PlayerId)> {
        match self.state {
            RoomState::Lobby { .. } => Seq::empty(),
            RoomState::Game { player_mapping, .. } => player_mapping@,
        }
    }

    /// The seat of a user; none in the lobby.
    pub open spec fn seat(&self, u: UserId) -> Option<PlayerId> {
        player_of(self.mapping(), u)
    }

    /// The lobby's configuration as JSON; none while a game runs.
    pub open spec fn lobby_json(&self) -> Option<serde_json::Value> {
        match self.state {
            RoomState::Lobby { config } => Some(T::spec_config_json(config)),
            RoomState::Game { .. } => None,
        }
    }

    /// What a user sees of the game; none in the lobby.
    pub open spec fn view_of(&self, u: UserId) -> Option<serde_json::Value> {
        match self.state {
            RoomState::Lobby { .. } => None,
            RoomState::Game { game_state, player_mapping } =>
                Some(game_state.spec_view(player_of(player_mapping@, u))),
        }
    }

    /// The active users as clients see them, leader first.
    pub open spec fn roster(&self) -> Seq<UserInfo> {
        Seq::new(self.users@.len(), |i: int| UserInfo {
            id: self.users@[i],
            username: self.user_data@[user_index(self.user_data@, self.users@[i])].username,
            leader: i == 0,
            player_id: self.seat(self.users@[i]),
        })
    }

    /// A new room: no users, and a lobby with the default configuration.
    pub fn new() -> (r: Room<T>)
        ensures
            r.wf(),
            r.users@.len() == 0,
            r.user_data@.len() == 0,
            r.state == (RoomState::<T>::Lobby { config: T::spec_default_config() }),
            r.next_user_id == UserId(0),
    {
        Room {
            users: Vec::new(),
            user_data: Vec::new(),
            state: RoomState::Lobby { config: T::default_config() },
            next_user_id: UserId(0),
        }
    }

    /// Admits a user by a new name, or re-admits one by its reconnect token,
    /// and returns the user's record.
    pub fn join_room(&mut self, join_info: JoinInfo) -> (r: Result<UserData, Error>)
        requires
            old(self).wf(),
        ensures
            final(self).wf(),
            join_post(*old(self), join_info, *final(self), r),
    {
        match join_info {
            JoinInfo::Username(username) => {
                if username_taken(&self.user_data, &username) {
                    return Err(Error::UsernameInUse);
                }
                if self.next_user_id.0 == u32::MAX {
                    return Err(Error::Unknown);
                }
                let user_id = self.next_user_id;
                self.next_user_id = UserId(user_id.0 + 1);
                let token = ReconnectToken::new();
                let data = UserData { id: user_id, username, token };
                let result = data.clone();
                proof {
                    assert forall|j: int| 0 <= j < self.users@.len() implies self.users@[j] != user_id by {
                        let k = user_index(self.user_data@, self.users@[j]);
                        assert(has_user(self.user_data@, self.users@[j]));
                        assert(self.user_data@[k].id.0 < user_id.0);
                    }
                }
                self.user_data.push(data);
                self.users.push(user_id);
                proof {
                    assert forall|j: int| 0 <= j < self.users@.len()
                        implies has_user(self.user_data@, #[trigger] self.users@[j]) by {
                        if j < self.users@.len() - 1 {
                            assert(has_user(old(self).user_data@, old(self).users@[j]));
                            let k = choose|k: int| 0 <= k < old(self).user_data@.len()
                                && #[trigger] old(self).user_data@[k].id == self.users@[j];
                            assert(self.user_data@[k].id == self.users@[j]);
                        } else {
                            assert(self.user_data@[self.user_data@.len() - 1].id == self.users@[j]);
                        }
                    }
                }
                Ok(result)
            },
            JoinInfo::ReconnectToken(token) => {
                match find_token(&self.user_data, &token) {
                    Some(i) => {
                        let data = self.user_data[i].clone();
                        match position_of(&self.users, data.id) {
                            Some(_) => {},
                            None => {
                                self.users.push(data.id);
                                proof {
                                    assert forall|j: int| 0 <= j < self.users@.len()
                                        implies has_user(self.user_data@, #[trigger] self.users@[j]) by {
                                        if j == self.users@.len() - 1 {
                                            assert(self.user_data@[i as int].id == self.users@[j]);
                                        } else {
                                            assert(has_user(old(self).user_data@, old(self).users@[j]));
                                        }
                                    }
                                }
                            },
                        }
                        Ok(data)
                    },
                    None => Err(Error::InvalidReconnectToken),
                }
            },
        }
    }

    /// Starts a game from the lobby. Without an explicit mapping the i-th
    /// active user takes the i-th distinct seat of the new game.
    pub fn start_game(&mut self, user: &UserId, player_mapping: Option<PlayerMapping>) -> (r: Result<(), Error>)
        requires
            old(self).wf(),
        ensures
            final(self).wf(),
            start_post(*old(self), *user, player_mapping, *final(self), r),
    {
        if let Err(e) = self.ensure_leader(user) {
            return Err(e);
        }
        let game_state = match &self.state {
            RoomState::Game { .. } => {
                return Err(Error::GameAlreadyStarted);
            },
            RoomState::Lobby { config } => {
                if let Some(m) = &player_mapping {
                    if !users_valid(m, &self.users) {
                        return Err(Error::InvalidPlayerMapping);
                    }
                }
                match T::new(config, self.users.len() as u32) {
                    Ok(g) => g,
                    Err(e) => {
                        return Err(e);
                    },
                }
            },
        };
        let players = game_state.players();
        let mapping = match player_mapping {
            Some(m) => {
                if !players_valid(&m, &players) {
                    return Err(Error::InvalidPlayerMapping);
                }
                m
            },
            None => {
                let seats = dedup_players(&players);
                if seats.len() != self.users.len() {
                    return Err(Error::WrongPlayerCount);
                }
                proof {
                    lemma_distinct_players(players@);
                }
                zip_seats(&self.users, &seats)
            },
        };
        self.state = RoomState::Game { game_state, player_mapping: mapping };
        Ok(())
    }

    /// Replaces the lobby's configuration.
    pub fn update_config(&mut self, user: &UserId, new_config: T::Config) -> (r: Result<(), Error>)
        requires
            old(self).wf(),
        ensures
            final(self).wf(),
            update_config_post(*old(self), *user, new_config, *final(self), r),
    {
        if let Err(e) = self.ensure_leader(user) {
            return Err(e);
        }
        match &self.state {
            RoomState::Lobby { .. } => {
                self.state = RoomState::Lobby { config: new_config };
                Ok(())
            },
            RoomState::Game { .. } => Err(Error::GameAlreadyStarted),
        }
    }

    /// Ends any game and returns to a lobby with the default configuration.
    pub fn reset_to_lobby(&mut self, user: &UserId) -> (r: Result<(), Error>)
        requires
            old(self).wf(),
        ensures
            final(self).wf(),
            reset_post(*old(self), *user, *final(self), r),
    {
        if let Err(e) = self.ensure_leader(user) {
            return Err(e);
        }
        self.state = RoomState::Lobby { config: T::default_config() };
        Ok(())
    }

    /// Moves a seat from one user to another who has none.
    pub fn reassign_player(&mut self, user: &UserId, from_user: &UserId, to_user: &UserId) -> (r: Result<(), Error>)
        requires
            old(self).wf(),
        ensures
            final(self).wf(),
            reassign_post(*old(self), *user, *from_user, *to_user, *final(self), r),
    {
        if let Err(e) = self.ensure_leader(user) {
            return Err(e);
        }
        let ghost m0 = self.mapping();
        match &mut self.state {
            RoomState::Lobby { .. } => Err(Error::GameNotStarted),
            RoomState::Game { player_mapping, .. } => {
                if find_mapped(player_mapping, *to_user).is_some() {
                    return Err(Error::UserIsAlreadyPlayer(*to_user));
                }
                match find_mapped(player_mapping, *from_user) {
                    Some(i) => {
                        proof {
                            let k = mapping_index(m0, *from_user);
                            assert(m0[k].0 == *from_user);
                            if k < i as int {
                                assert(m0[k].0 != m0[i as int].0);
                            } else if k > i as int {
                                assert(m0[i as int].0 != m0[k].0);
                            }
                        }
                        let seat = player_mapping[i].1;
                        player_mapping.set(i, (*to_user, seat));
                        proof {
                            let m1 = player_mapping@;
                            assert forall|a: int, b: int| 0 <= a < b < m1.len()
                                implies #[trigger] m1[a].0 != #[trigger] m1[b].0 by {
                                if a == i as int {
                                    assert(m0[b].0 != *to_user);
                                } else if b == i as int {
                                    assert(m0[a].0 != *to_user);
                                } else {
                                    assert(m0[a].0 != m0[b].0);
                                }
                            }
                            assert forall|a: int, b: int| 0 <= a < b < m1.len()
                                implies #[trigger] m1[a].1 != #[trigger] m1[b].1 by {
                                assert(m0[a].1 != m0[b].1);
                            }
                        }
                        Ok(())
                    },
                    None => Err(Error::UserIsNotPlayer(*from_user)),
                }
            },
        }
    }

    /// Removes a user who holds no seat, with its record.
    pub fn kick_user(&mut self, user: &UserId, target: &UserId) -> (r: Result<(), Error>)
        requires
            old(self).wf(),
        ensures
            final(self).wf(),
            kick_post(*old(self), *user, *target, *final(self), r),
    {
        if let Err(e) = self.ensure_leader(user) {
            return Err(e);
        }
        match &self.state {
            RoomState::Lobby { .. } => {},
            RoomState::Game { player_mapping, .. } => {
                if find_mapped(player_mapping, *target).is_some() {
                    return Err(Error::UserIsPlayer);
                }
            },
        }
        let i = match find_user_data(&self.user_data, *target) {
            Some(i) => i,
            None => {
                return Err(Error::UserNotFound);
            },
        };
        let ghost d0 = self.user_data@;
        let ghost u0 = self.users@;
        proof {
            let k = user_index(d0, *target);
            assert(d0[k].id == *target);
            if k < i as int {
                assert(d0[k].id != d0[i as int].id);
            } else if k > i as int {
                assert(d0[i as int].id != d0[k].id);
            }
        }
        self.user_data.remove(i);
        match position_of(&self.users, *target) {
            Some(j) => {
                proof {
                    let k = id_index(u0, *target);
                    assert(u0[j as int] == *target);
                    assert(u0[k] == *target);
                    if k < j as int {
                        assert(u0[k] != u0[j as int]);
                    } else if k > j as int {
                        assert(u0[j as int] != u0[k]);
                    }
                }
                self.users.remove(j);
            },
            None => {},
        }
        proof {
            let d1 = self.user_data@;
            let u1 = self.users@;
            assert forall|a: int, b: int| 0 <= a < b < d1.len()
                implies #[trigger] d1[a].id != #[trigger] d1[b].id by {
                let a0 = if a < i as int { a } else { a + 1 };
                let b0 = if b < i as int { b } else { b + 1 };
                assert(d1[a] == d0[a0] && d1[b] == d0[b0]);
                assert(d0[a0].id != d0[b0].id);
            }
            assert forall|a: int, b: int| 0 <= a < b < d1.len()
                implies #[trigger] d1[a].username@ != #[trigger] d1[b].username@ by {
                let a0 = if a < i as int { a } else { a + 1 };
                let b0 = if b < i as int { b } else { b + 1 };
                assert(d1[a] == d0[a0] && d1[b] == d0[b0]);
                assert(d0[a0].username@ != d0[b0].username@);
            }
            assert forall|a: int| 0 <= a < d1.len() implies (#[trigger] d1[a]).id.0 < self.next_user_id.0 by {
                let a0 = if a < i as int { a } else { a + 1 };
                assert(d1[a] == d0[a0]);
            }
            assert forall|a: int, b: int| 0 <= a < b < u1.len()
                implies #[trigger] u1[a] != #[trigger] u1[b] by {
                if u0.contains(*target) {
                    let j = id_index(u0, *target);
                    let a0 = if a < j { a } else { a + 1 };
                    let b0 = if b < j { b } else { b + 1 };
                    assert(u1[a] == u0[a0] && u1[b] == u0[b0]);
                    assert(u0[a0] != u0[b0]);
                } else {
                    assert(u0[a] != u0[b]);
                }
            }
            assert forall|a: int| 0 <= a < u1.len() implies has_user(d1, #[trigger] u1[a]) by {
                let a0 = if u0.contains(*target) && a >= id_index(u0, *target) { a + 1 } else { a };
                assert(u1[a] == u0[a0]);
                assert(has_user(d0, u0[a0]));
                let k = choose|k: int| 0 <= k < d0.len() && #[trigger] d0[k].id == u0[a0];
                if u0.contains(*target) {
                    assert(u0[id_index(u0, *target)] == *target);
                    if a0 < id_index(u0, *target) {
                        assert(u0[a0] != u0[id_index(u0, *target)]);
                    } else {
                        assert(u0[id_index(u0, *target)] != u0[a0]);
                    }
                } else {
                    assert(u0[a0] != *target);
                }
                assert(k != i as int);
                if k < i as int {
                    assert(d1[k] == d0[k]);
                } else {
                    assert(d1[k - 1] == d0[k]);
                }
            }
        }
        Ok(())
    }

    /// Lets a seated user take an action in the running game.
    pub fn user_action(&mut self, user: &UserId, action: &T::Action) -> (r: Result<(), Error>)
        requires
            old(self).wf(),
        ensures
            final(self).wf(),
            action_post(*old(self), *user, *action, *final(self), r),
    {
        match &mut self.state {
            RoomState::Game { game_state, player_mapping } => match lookup_player(player_mapping, *user) {
                Some(player) => game_state.do_action(player, action),
                None => Err(Error::UserNotInGame),
            },
            RoomState::Lobby { .. } => Err(Error::GameNotStarted),
        }
    }

    /// The active users as clients see them, leader first.
    pub fn user_info(&self) -> (r: Vec<UserInfo>)
        requires
            self.wf(),
        ensures
            r@ == self.roster(),
    {
        let mut r: Vec<UserInfo> = Vec::new();
        let mut i: usize = 0;
        while i < self.users.len()
            invariant
                self.wf(),
                i <= self.users@.len(),
                r@.len() == i,
                forall|k: int| 0 <= k < i ==> {
                    let u = #[trigger] r@[k];
                    &&& u.id == self.users@[k]
                    &&& u.username == self.user_data@[user_index(self.user_data@, self.users@[k])].username
                    &&& u.leader == (k == 0)
                    &&& u.player_id == self.seat(self.users@[k])
                },
            decreases self.users@.len() - i,
        {
            let id = self.users[i];
            let ghost idx = i as int;
            let j = match find_user_data(&self.user_data, id) {
                Some(j) => j,
                None => {
                    proof {
                        assert(has_user(self.user_data@, self.users@[idx]));
                    }
                    return r;
                },
            };
            proof {
                let k = user_index(self.user_data@, id);
                assert(has_user(self.user_data@, self.users@[idx]));
                assert(self.user_data@[k].id == id);
                if k < j as int {
                    assert(self.user_data@[k].id != self.user_data@[j as int].id);
                } else if k > j as int {
                    assert(self.user_data@[j as int].id != self.user_data@[k].id);
                }
                if i > 0 {
                    assert(self.users@[0] != self.users@[idx]);
                }
            }
            let player_id = match &self.state {
                RoomState::Lobby { .. } => None,
                RoomState::Game { player_mapping, .. } => lookup_player(player_mapping, id),
            };
            let leader = id == self.users[0];
            r.push(UserInfo::new(id, self.user_data[j].username.clone(), leader, player_id));
            i = i + 1;
        }
        assert(r@ =~= self.roster());
        r
    }

    /// The active users together with the seated ones, each once.
    pub fn all_users(&self) -> (r: Vec<UserId>)
        requires
            self.wf(),
        ensures
            forall|u: UserId| r@.contains(u) <==> (self.users@.contains(u) || mapped(self.mapping(), u)),
            forall|i: int, j: int| 0 <= i < j < r@.len() ==> #[trigger] r@[i] != #[trigger] r@[j],
    {
        let mut r: Vec<UserId> = Vec::new();
        let mut i: usize = 0;
        while i < self.users.len()
            invariant
                self.wf(),
                i <= self.users@.len(),
                r@ == self.users@.take(i as int),
            decreases self.users@.len() - i,
        {
            r.push(self.users[i]);
            i = i + 1;
            assert(r@ =~= self.users@.take(i as int));
        }
        assert(r@ =~= self.users@);
        match &self.state {
            RoomState::Lobby { .. } => {},
            RoomState::Game { player_mapping, .. } => {
                let mut k: usize = 0;
                while k < player_mapping.len()
                    invariant
                        k <= player_mapping@.len(),
                        player_mapping@ == self.mapping(),
                        forall|a: int, b: int| 0 <= a < b < r@.len() ==> #[trigger] r@[a] != #[trigger] r@[b],
                        forall|u: UserId| r@.contains(u) <==> (self.users@.contains(u)
                            || mapped(player_mapping@.take(k as int), u)),
                    decreases player_mapping@.len() - k,
                {
                    let u = player_mapping[k].0;
                    let ghost r0 = r@;
                    let present = position_of(&r, u).is_some();
                    if !present {
                        r.push(u);
                    }
                    proof {
                        lemma_seq_push_contains(r0, u, present, r@);
                        assert forall|a: int, b: int| 0 <= a < b < r@.len() implies #[trigger] r@[a] != #[trigger] r@[b] by {
                            if !present && b == r0.len() {
                                assert(r0[a] != u);
                            } else {
                                assert(r0[a] != r0[b]);
                            }
                        }
                        assert(player_mapping@.take(k as int + 1) =~= player_mapping@.take(k as int).push(player_mapping@[k as int]));
                        lemma_mapped_push(player_mapping@.take(k as int), player_mapping@[k as int]);
                    }
                    k = k + 1;
                }
                assert(player_mapping@.take(player_mapping@.len() as int) =~= player_mapping@);
            },
        }
        r
    }

    pub fn user_leader(&self) -> (r: Result<UserId, Error>)
        ensures
            self.users@.len() > 0 ==> r == Ok::<UserId, Error>(self.users@[0]),
            self.users@.len() == 0 ==> r == Err::<UserId, Error>(Error::EmptyLobby),
    {
        if self.users.len() > 0 {
            Ok(self.users[0])
        } else {
            Err(Error::EmptyLobby)
        }
    }

    pub fn active_users(&self) -> (r: &Vec<UserId>)
        ensures
            r@ == self.users@,
    {
        &self.users
    }

    fn ensure_leader(&self, user: &UserId) -> (r: Result<(), Error>)
        ensures
            self.is_leader(*user) ==> r is Ok,
            !self.is_leader(*user) ==> r == Err::<(), Error>(Error::UserNotLeader),
    {
        if self.users.len() > 0 && self.users[0] == *user {
            Ok(())
        } else {
            Err(Error::UserNotLeader)
        }
    }

    /// The JSON of the lobby's configuration; none while a game runs.
    pub fn lobby_info(&self) -> (r: Option<serde_json::Value>)
        ensures
            r == self.lobby_json(),
    {
        match &self.state {
            RoomState::Lobby { config } => Some(T::config_to_json(config)),
            RoomState::Game { .. } => None,
        }
    }

    /// What a user sees of the running game (a spectator's view if the user
    /// has no seat).
    pub fn user_view(&self, user: &UserId) -> (r: Result<serde_json::Value, Error>)
        requires
            self.wf(),
        ensures
            self.view_of(*user) matches Some(v) ==> r == Ok::<serde_json::Value, Error>(v),
            self.view_of(*user) is None ==> r == Err::<serde_json::Value, Error>(Error::GameNotStarted),
    {
        match &self.state {
            RoomState::Game { game_state, player_mapping } => {
                let seat = lookup_player(player_mapping, *user);
                Ok(game_state.view(seat))
            },
            RoomState::Lobby { .. } => Err(Error::GameNotStarted),
        }
    }
}

/// Without leadership no leader-only operation succeeds: each fails with
/// `UserNotLeader` and leaves the room as it was. An empty room has no leader.
pub proof fn lemma_leader_only<T: Game>(
    old: Room<T>,
    user: UserId,
    config: T::Config,
    mapping: Option<PlayerMapping>,
    target: UserId,
    from_user: UserId,
    to_user: UserId,
    new: Room<T>,
    r: Result<(), Error>,
)
    requires
        !old.is_leader(user),
    ensures
        old.users@.len() == 0 ==> forall|u: UserId| !old.is_leader(u),
        update_config_post(old, user, config, new, r) ==> r == Err::<(), Error>(Error::UserNotLeader) && new == old,
        start_post(old, user, mapping, new, r) ==> r == Err::<(), Error>(Error::UserNotLeader) && new == old,
        kick_post(old, user, target, new, r) ==> r == Err::<(), Error>(Error::UserNotLeader) && new == old,
        reassign_post(old, user, from_user, to_user, new, r) ==> r == Err::<(), Error>(Error::UserNotLeader)
            && new == old,
        reset_post(old, user, new, r) ==> r == Err::<(), Error>(Error::UserNotLeader) && new == old,
{
}

/// Rejoining with a token twice in a row binds both times to the same user.
pub proof fn lemma_rejoin_same_user<T: Game>(
    r0: Room<T>,
    token: ReconnectToken,
    r1: Room<T>,
    res1: Result<UserData, Error>,
    r2: Room<T>,
    res2: Result<UserData, Error>,
)
    requires
        join_post(r0, JoinInfo::ReconnectToken(token), r1, res1),
        join_post(r1, JoinInfo::ReconnectToken(token), r2, res2),
        res1 is Ok,
    ensures
        res2 is Ok,
        res2->Ok_0.id == res1->Ok_0.id,
{
}

/// A join under a new name keeps every token naming the user it named.
pub proof fn lemma_name_join_keeps_tokens<T: Game>(
    r0: Room<T>,
    name: String,
    r1: Room<T>,
    res: Result<UserData, Error>,
    token: Seq<char>,
)
    requires
        join_post(r0, JoinInfo::Username(name), r1, res),
        token_index(r0.user_data@, token) is Some,
    ensures
        token_index(r1.user_data@, token) == token_index(r0.user_data@, token),
        r1.user_data@[token_index(r1.user_data@, token)->0] == r0.user_data@[token_index(r0.user_data@, token)->0],
{
    if res is Ok {
        let i = token_index(r0.user_data@, token)->0;
        let d0 = r0.user_data@;
        let d1 = r1.user_data@;
        assert(first_with_token(d0, token, i));
        assert(first_with_token(d1, token, i)) by {
            assert(d1[i] == d0[i]);
            assert forall|j: int| 0 <= j < i implies #[trigger] d1[j].token.0@ != token by {
                assert(d1[j] == d0[j]);
            }
        }
        lemma_first_with_token_unique(d1, token, i);
    }
}

/// In a well-formed room exactly one user of the roster is marked leader
/// when there are users at all, and none otherwise.
pub proof fn lemma_one_leader<T: Game>(room: Room<T>)
    requires
        room.wf(),
    ensures
        room.users@.len() > 0 ==> room.roster()[0].leader
            && forall|j: int| 0 <= j < room.roster().len() && (#[trigger] room.roster()[j]).leader ==> j == 0,
        room.users@.len() == 0 ==> room.roster().len() == 0,
{
}

/// A configuration that the leader sets in the lobby is what the room then
/// publishes, JSON-encoded.
pub proof fn lemma_config_published<T: Game>(old: Room<T>, user: UserId, config: T::Config, new: Room<T>)
    requires
        update_config_post(old, user, config, new, Ok(())),
    ensures
        new.lobby_json() == Some(T::spec_config_json(config)),
{
}

/// Starting a game and then resetting returns to a lobby with the default
/// configuration, published again, with the same users.
pub proof fn lemma_start_then_reset<T: Game>(
    r0: Room<T>,
    user: UserId,
    mapping: Option<PlayerMapping>,
    r1: Room<T>,
    r2: Room<T>,
    res: Result<(), Error>,
)
    requires
        start_post(r0, user, mapping, r1, Ok(())),
        reset_post(r1, user, r2, res),
    ensures
        res is Ok,
        r2.state == (RoomState::<T>::Lobby { config: T::spec_default_config() }),
        r2.lobby_json() == Some(T::spec_config_json(T::spec_default_config())),
        same_members(r0, r2),
{
}

} // verus!

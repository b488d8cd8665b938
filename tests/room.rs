use board_game_io_base::counter_game::{Action, MyGame};
use board_game_io_base::error::Error;
use board_game_io_base::ids::{PlayerId, ReconnectToken, RoomId, UserId};
use board_game_io_base::room::{JoinInfo, Room, RoomState};
use serde_json::Value;

#[test]
fn it_works() {
    let result = 2 + 2;
    assert_eq!(result, 4);
}

fn join(room: &mut Room<MyGame>, name: &str) -> UserId {
    room.join_room(JoinInfo::Username(name.to_string())).unwrap().id
}

#[test]
fn first_join_is_leader_with_fresh_token() {
    let mut room = Room::<MyGame>::new();
    assert!(matches!(room.user_leader(), Err(Error::EmptyLobby)));
    let data = room.join_room(JoinInfo::Username("a".to_string())).unwrap();
    assert_eq!(data.id, UserId(0));
    assert_eq!(data.username, "a");
    assert_eq!(data.token.0.len(), 16);
    assert!(data.token.0.chars().all(|c| c.is_ascii_alphanumeric()));
    assert_eq!(room.user_leader().unwrap(), UserId(0));
    let b = join(&mut room, "b");
    assert_eq!(b, UserId(1));
    assert_eq!(room.active_users(), &vec![UserId(0), UserId(1)]);
}

#[test]
fn username_collision_is_refused() {
    let mut room = Room::<MyGame>::new();
    join(&mut room, "a");
    let err = room.join_room(JoinInfo::Username("a".to_string())).unwrap_err();
    assert!(matches!(err, Error::UsernameInUse));
    assert!(err.message().contains("in use"));
    assert_eq!(room.users.len(), 1);
}

#[test]
fn reconnect_returns_same_user() {
    let mut room = Room::<MyGame>::new();
    let first = room.join_room(JoinInfo::Username("a".to_string())).unwrap();
    join(&mut room, "b");
    let again = room.join_room(JoinInfo::ReconnectToken(first.token.clone())).unwrap();
    assert_eq!(again.id, first.id);
    assert_eq!(again.username, "a");
    let third = room.join_room(JoinInfo::ReconnectToken(first.token.clone())).unwrap();
    assert_eq!(third.id, first.id);
    assert_eq!(room.users, vec![UserId(0), UserId(1)]);
}

#[test]
fn bogus_token_is_refused() {
    let mut room = Room::<MyGame>::new();
    join(&mut room, "a");
    let err = room.join_room(JoinInfo::ReconnectToken(ReconnectToken("bogus".to_string()))).unwrap_err();
    assert!(matches!(err, Error::InvalidReconnectToken));
}

#[test]
fn only_leader_updates_config() {
    let mut room = Room::<MyGame>::new();
    let a = join(&mut room, "a");
    let d = join(&mut room, "d");
    let err = room.update_config(&d, 3).unwrap_err();
    assert!(matches!(err, Error::UserNotLeader));
    assert!(err.message().contains("user must be leader"));
    room.update_config(&a, 3).unwrap();
    assert_eq!(room.lobby_info(), Some(Value::from(3)));
}

#[test]
fn start_game_seats_users_in_order() {
    let mut room = Room::<MyGame>::new();
    let a = join(&mut room, "a");
    let b = join(&mut room, "b");
    assert!(matches!(room.start_game(&b, None), Err(Error::UserNotLeader)));
    room.start_game(&a, None).unwrap();
    assert_eq!(room.lobby_info(), None);
    let info = room.user_info();
    assert_eq!(info.len(), 2);
    assert_eq!(info[0].id, a);
    assert!(info[0].leader);
    assert_eq!(info[0].player_id, Some(PlayerId(0)));
    assert_eq!(info[1].username, "b");
    assert!(!info[1].leader);
    assert_eq!(info[1].player_id, Some(PlayerId(1)));
    assert_eq!(room.user_view(&a).unwrap(), Value::from(0));
    assert!(matches!(room.start_game(&a, None), Err(Error::GameAlreadyStarted)));
    assert!(matches!(room.update_config(&a, 1), Err(Error::GameAlreadyStarted)));
}

#[test]
fn lobby_has_no_view_and_no_seats() {
    let mut room = Room::<MyGame>::new();
    let a = join(&mut room, "a");
    assert!(matches!(room.user_view(&a), Err(Error::GameNotStarted)));
    assert!(matches!(room.user_action(&a, &Action::Incr), Err(Error::GameNotStarted)));
    assert_eq!(room.user_info()[0].player_id, None);
    assert_eq!(room.lobby_info(), Some(Value::from(10)));
}

#[test]
fn explicit_mapping_is_checked() {
    let mut room = Room::<MyGame>::new();
    let a = join(&mut room, "a");
    let b = join(&mut room, "b");
    let stranger = UserId(9);
    assert!(matches!(
        room.start_game(&a, Some(vec![(stranger, PlayerId(0))])),
        Err(Error::InvalidPlayerMapping)
    ));
    assert!(matches!(
        room.start_game(&a, Some(vec![(a, PlayerId(7))])),
        Err(Error::InvalidPlayerMapping)
    ));
    assert!(matches!(
        room.start_game(&a, Some(vec![(a, PlayerId(0)), (b, PlayerId(0))])),
        Err(Error::InvalidPlayerMapping)
    ));
    assert!(matches!(room.state, RoomState::Lobby { .. }));
    room.start_game(&a, Some(vec![(b, PlayerId(0))])).unwrap();
    let info = room.user_info();
    assert_eq!(info[0].player_id, None);
    assert_eq!(info[1].player_id, Some(PlayerId(0)));
}

#[test]
fn actions_move_the_counter_within_bound() {
    let mut room = Room::<MyGame>::new();
    let a = join(&mut room, "a");
    room.update_config(&a, 1).unwrap();
    room.start_game(&a, None).unwrap();
    room.user_action(&a, &Action::Incr).unwrap();
    assert_eq!(room.user_view(&a).unwrap(), Value::from(1));
    let err = room.user_action(&a, &Action::Incr).unwrap_err();
    match err {
        Error::InvalidAction(reason) => assert_eq!(reason, "count too high or low"),
        other => panic!("unexpected {:?}", other),
    }
    assert_eq!(room.user_view(&a).unwrap(), Value::from(1));
    room.user_action(&a, &Action::Decr).unwrap();
    room.user_action(&a, &Action::Decr).unwrap();
    assert_eq!(room.user_view(&a).unwrap(), Value::from(-1));
}

#[test]
fn spectator_cannot_act_but_sees_the_game() {
    let mut room = Room::<MyGame>::new();
    let a = join(&mut room, "a");
    room.start_game(&a, None).unwrap();
    let s = join(&mut room, "s");
    assert!(matches!(room.user_action(&s, &Action::Incr), Err(Error::UserNotInGame)));
    assert_eq!(room.user_view(&s).unwrap(), Value::from(0));
    assert_eq!(room.user_info()[1].player_id, None);
}

#[test]
fn reset_returns_to_default_lobby() {
    let mut room = Room::<MyGame>::new();
    let a = join(&mut room, "a");
    room.update_config(&a, 4).unwrap();
    room.start_game(&a, None).unwrap();
    room.reset_to_lobby(&a).unwrap();
    assert_eq!(room.lobby_info(), Some(Value::from(10)));
    assert_eq!(room.users, vec![a]);
    room.reset_to_lobby(&a).unwrap();
    assert!(matches!(room.state, RoomState::Lobby { config: 10 }));
}

#[test]
fn kick_rules() {
    let mut room = Room::<MyGame>::new();
    let a = join(&mut room, "a");
    let b = join(&mut room, "b");
    assert!(matches!(room.kick_user(&b, &a), Err(Error::UserNotLeader)));
    assert!(matches!(room.kick_user(&a, &UserId(42)), Err(Error::UserNotFound)));
    room.start_game(&a, None).unwrap();
    assert!(matches!(room.kick_user(&a, &b), Err(Error::UserIsPlayer)));
    let c = join(&mut room, "c");
    room.kick_user(&a, &c).unwrap();
    assert_eq!(room.users, vec![a, b]);
    assert_eq!(room.user_data.len(), 2);
    assert!(matches!(room.kick_user(&a, &c), Err(Error::UserNotFound)));
}

#[test]
fn kicked_user_cannot_reconnect() {
    let mut room = Room::<MyGame>::new();
    let a = join(&mut room, "a");
    let b = room.join_room(JoinInfo::Username("b".to_string())).unwrap();
    room.kick_user(&a, &b.id).unwrap();
    assert!(matches!(
        room.join_room(JoinInfo::ReconnectToken(b.token.clone())),
        Err(Error::InvalidReconnectToken)
    ));
    assert_eq!(join(&mut room, "b"), UserId(2));
}

#[test]
fn reassign_rules() {
    let mut room = Room::<MyGame>::new();
    let a = join(&mut room, "a");
    let b = join(&mut room, "b");
    assert!(matches!(room.reassign_player(&a, &a, &b), Err(Error::GameNotStarted)));
    room.start_game(&a, None).unwrap();
    let c = join(&mut room, "c");
    match room.reassign_player(&a, &a, &b) {
        Err(Error::UserIsAlreadyPlayer(u)) => assert_eq!(u, b),
        _ => panic!("expected UserIsAlreadyPlayer"),
    }
    match room.reassign_player(&a, &c, &UserId(50)) {
        Err(Error::UserIsNotPlayer(u)) => assert_eq!(u, c),
        _ => panic!("expected UserIsNotPlayer"),
    }
    room.reassign_player(&a, &b, &c).unwrap();
    let info = room.user_info();
    assert_eq!(info[1].player_id, None);
    assert_eq!(info[2].player_id, Some(PlayerId(1)));
    room.kick_user(&a, &b).unwrap();
}

#[test]
fn all_users_includes_seated_users_once() {
    let mut room = Room::<MyGame>::new();
    let a = join(&mut room, "a");
    let b = join(&mut room, "b");
    room.start_game(&a, None).unwrap();
    let c = join(&mut room, "c");
    room.reassign_player(&a, &b, &UserId(77)).unwrap();
    let mut all = room.all_users();
    all.sort_by_key(|u| u.0);
    assert_eq!(all, vec![a, b, c, UserId(77)]);
}

#[test]
fn one_leader_in_roster() {
    let mut room = Room::<MyGame>::new();
    assert!(room.user_info().is_empty());
    join(&mut room, "a");
    join(&mut room, "b");
    join(&mut room, "c");
    let leaders = room.user_info().into_iter().filter(|u| u.leader).count();
    assert_eq!(leaders, 1);
}

#[test]
fn room_id_is_four_capitals() {
    let id = RoomId::new();
    assert_eq!(id.0.len(), 4);
    assert!(id.0.chars().all(|c| c.is_ascii_uppercase()));
    let t = ReconnectToken::new();
    assert_ne!(t, ReconnectToken::new());
}

#[test]
fn error_messages() {
    assert_eq!(Error::UserIsNotPlayer(UserId(3)).message(), "user UserId(3) is not a player");
    assert_eq!(Error::UserIsAlreadyPlayer(UserId(12)).message(), "user UserId(12) is already a player");
    assert_eq!(Error::InvalidAction("no".to_string()).message(), "invalid action: no");
    assert_eq!(Error::UserNotLeader.message(), "user must be leader to perform operation");
    assert_eq!(Error::WrongPlayerCount.message(), "game state has wrong number of players");
    assert_eq!(UserId(0).to_text(), "UserId(0)");
}

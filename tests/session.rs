use board_game_io_base::client_handler::{
    failure_message, greet, rejoin_failed, room_changed, users_changed, ClientHandler, Command, Greeting,
};
use board_game_io_base::counter_game::MyGame;
use board_game_io_base::error::Error;
use board_game_io_base::ids::{ReconnectToken, RoomId, UserId};
use board_game_io_base::protocol::{ClientMessage, ServerMessage, UserInfo};
use board_game_io_base::room::{JoinInfo, UserData};
use board_game_io_base::room_manager::{Dirty, Reply, RoomManager, RoomManagerMessage};
use serde_json::Value;

fn json(text: &str) -> Value {
    serde_json::from_str(text).unwrap()
}

fn handler() -> ClientHandler {
    ClientHandler::new(
        RoomId("ABCD".to_string()),
        UserData { id: UserId(0), username: "a".to_string(), token: ReconnectToken("T".to_string()) },
    )
}

fn joined(manager: &mut RoomManager<MyGame>, name: &str) -> UserData {
    let (result, dirty) = manager.handle(RoomManagerMessage::JoinRoom {
        join_info: JoinInfo::Username(name.to_string()),
    });
    assert_eq!(dirty, Dirty { users: true, room: false, game: false });
    match result {
        Ok(Reply::Joined(d)) => d,
        _ => panic!("join failed"),
    }
}

const NONE: Dirty = Dirty { users: false, room: false, game: false };

#[test]
fn actor_dirty_bits_follow_the_table() {
    let mut m = RoomManager::<MyGame>::new();
    let a = joined(&mut m, "a").id;
    let d = joined(&mut m, "d").id;
    let (r, dirty) = m.handle(RoomManagerMessage::UpdateConfig { user_id: a, config: Value::from(5) });
    assert!(r.is_ok());
    assert_eq!(dirty, Dirty { users: false, room: true, game: false });
    assert_eq!(m.room.lobby_info(), Some(Value::from(5)));
    let (r, dirty) = m.handle(RoomManagerMessage::UpdateConfig { user_id: d, config: Value::from(6) });
    assert!(matches!(r, Err(Error::UserNotLeader)));
    assert_eq!(dirty, NONE);
    let (r, dirty) = m.handle(RoomManagerMessage::StartGame { user_id: a, player_mapping: None });
    assert!(r.is_ok());
    assert_eq!(dirty, Dirty { users: true, room: true, game: true });
    let (r, dirty) = m.handle(RoomManagerMessage::DoAction { user_id: a, action: json("\"Incr\"") });
    assert!(r.is_ok());
    assert_eq!(dirty, Dirty { users: false, room: false, game: true });
    let views = m.game_views();
    assert_eq!(views, vec![(a, Some(Value::from(1))), (d, Some(Value::from(1)))]);
    let (r, dirty) = m.handle(RoomManagerMessage::ReassignPlayer { user_id: a, from_user: d, to_user: UserId(30) });
    assert!(r.is_ok());
    assert_eq!(dirty, Dirty { users: true, room: false, game: true });
    let (r, dirty) = m.handle(RoomManagerMessage::KickUser { user_id: a, target: d });
    assert!(r.is_ok());
    assert_eq!(dirty, Dirty { users: true, room: false, game: true });
    assert_eq!(m.view_users, vec![a]);
    let (r, dirty) = m.handle(RoomManagerMessage::ResetToLobby { user_id: a });
    assert!(r.is_ok());
    assert_eq!(dirty, Dirty { users: true, room: true, game: true });
    assert_eq!(m.game_views(), vec![(a, None)]);
    assert_eq!(m.room.lobby_info(), Some(Value::from(10)));
}

#[test]
fn actor_reports_undecodable_payloads() {
    let mut m = RoomManager::<MyGame>::new();
    let a = joined(&mut m, "a").id;
    let (r, dirty) = m.handle(RoomManagerMessage::UpdateConfig { user_id: a, config: json("\"big\"") });
    assert!(matches!(r, Err(Error::ParseFailure)));
    assert_eq!(dirty, NONE);
    let (r, _) = m.handle(RoomManagerMessage::UpdateConfig { user_id: a, config: json("-1") });
    assert!(matches!(r, Err(Error::ParseFailure)));
    m.handle(RoomManagerMessage::StartGame { user_id: a, player_mapping: None }).0.unwrap();
    let (r, dirty) = m.handle(RoomManagerMessage::DoAction { user_id: a, action: json("\"Jump\"") });
    assert!(matches!(r, Err(Error::ParseFailure)));
    assert_eq!(dirty, NONE);
}

#[test]
fn actor_refused_action_changes_nothing() {
    let mut m = RoomManager::<MyGame>::new();
    let a = joined(&mut m, "a").id;
    m.handle(RoomManagerMessage::UpdateConfig { user_id: a, config: json("0") }).0.unwrap();
    m.handle(RoomManagerMessage::StartGame { user_id: a, player_mapping: None }).0.unwrap();
    let (r, dirty) = m.handle(RoomManagerMessage::DoAction { user_id: a, action: json("\"Decr\"") });
    let frame = failure_message(r.unwrap_err());
    assert!(matches!(frame, ServerMessage::InvalidAction { ref message } if message == "count too high or low"));
    assert_eq!(dirty, NONE);
    assert_eq!(m.game_views(), vec![(a, Some(Value::from(0)))]);
}

#[test]
fn actor_rejoin_keeps_one_view_topic() {
    let mut m = RoomManager::<MyGame>::new();
    let a = joined(&mut m, "a");
    let (r, dirty) = m.handle(RoomManagerMessage::JoinRoom { join_info: JoinInfo::ReconnectToken(a.token.clone()) });
    match r {
        Ok(Reply::Joined(d)) => assert_eq!(d.id, a.id),
        _ => panic!("rejoin failed"),
    }
    assert_eq!(dirty, Dirty { users: true, room: false, game: false });
    assert_eq!(m.view_users, vec![a.id]);
}

#[test]
fn config_round_trip_through_json() {
    let mut m = RoomManager::<MyGame>::new();
    let a = joined(&mut m, "a").id;
    m.handle(RoomManagerMessage::UpdateConfig { user_id: a, config: json("7") }).0.unwrap();
    assert_eq!(room_changed(m.room.lobby_info()).map(|f| match f {
        ServerMessage::RoomInfo { config } => config,
        _ => Value::Null,
    }), Some(json("7")));
}

#[test]
fn greeting_before_join() {
    assert!(matches!(
        greet(ClientMessage::JoinRoom { username: "a".to_string(), room: None }),
        Greeting::Join { ref username, room: None } if username == "a"
    ));
    assert!(matches!(
        greet(ClientMessage::RejoinRoom { token: ReconnectToken("T".to_string()), room: RoomId("ABCD".to_string()) }),
        Greeting::Rejoin { .. }
    ));
    match greet(ClientMessage::StartGame) {
        Greeting::Refuse(ServerMessage::Error { message }) => assert_eq!(message, "Must join room first"),
        _ => panic!("expected refusal"),
    }
}

#[test]
fn rejoin_failures() {
    let token = ReconnectToken("bogus".to_string());
    let frames = rejoin_failed(token.clone(), None);
    assert_eq!(frames.len(), 2);
    assert!(matches!(frames[0], ServerMessage::InvalidateToken { ref token } if token.0 == "bogus"));
    assert!(matches!(frames[1], ServerMessage::Error { ref message } if message == "Room does not exist"));
    let frames = rejoin_failed(token.clone(), Some(Error::InvalidReconnectToken));
    assert_eq!(frames.len(), 1);
    assert!(matches!(frames[0], ServerMessage::InvalidateToken { .. }));
    let frames = rejoin_failed(token, Some(Error::Unknown));
    assert!(matches!(frames[0], ServerMessage::Error { ref message } if message == "unknown error"));
}

#[test]
fn messages_inside_a_room() {
    let h = handler();
    assert!(matches!(
        h.handle_client_message(ClientMessage::StartGame),
        Command::Request(RoomManagerMessage::StartGame { user_id: UserId(0), player_mapping: None })
    ));
    assert!(matches!(
        h.handle_client_message(ClientMessage::KickUser { user: UserId(4) }),
        Command::Request(RoomManagerMessage::KickUser { user_id: UserId(0), target: UserId(4) })
    ));
    assert!(matches!(h.handle_client_message(ClientMessage::GameViewRequest), Command::Reply(None)));
    match h.handle_client_message(ClientMessage::JoinRoom { username: "x".to_string(), room: None }) {
        Command::Reply(Some(ServerMessage::Error { message })) => assert_eq!(message, "You're in a room"),
        _ => panic!("expected refusal"),
    }
    match h.join_response() {
        ServerMessage::JoinResponse { room_id, token, user_id, username } => {
            assert_eq!(room_id.0, "ABCD");
            assert_eq!(token.0, "T");
            assert_eq!(user_id, UserId(0));
            assert_eq!(username, "a");
        },
        _ => panic!("expected join response"),
    }
}

#[test]
fn view_updates_become_full_views_then_diffs() {
    let mut h = handler();
    match h.view_changed(Some(Value::from(0))) {
        Some(ServerMessage::GameInfo { view }) => assert_eq!(view, Value::from(0)),
        _ => panic!("expected game info"),
    }
    match h.view_changed(Some(Value::from(1))) {
        Some(ServerMessage::GameViewDiff { diff }) => {
            assert_eq!(diff, json(r#"[{"op":"replace","path":"","value":1}]"#));
        },
        _ => panic!("expected diff"),
    }
    assert!(h.view_changed(Some(Value::from(1))).is_none());
    match h.handle_client_message(ClientMessage::GameViewRequest) {
        Command::Reply(Some(ServerMessage::GameInfo { view })) => assert_eq!(view, Value::from(1)),
        _ => panic!("expected view"),
    }
    assert!(h.view_changed(None).is_none());
    assert!(h.last_view.is_none());
    assert!(matches!(h.view_changed(Some(Value::from(2))), Some(ServerMessage::GameInfo { .. })));
}

#[test]
fn applying_diffs_reproduces_views() {
    let mut h = handler();
    let views = [
        json(r#"{"count":0,"players":[1,2],"name":"x"}"#),
        json(r#"{"count":1,"players":[1,2,3]}"#),
        json(r#"{"count":1,"players":[3],"extra":{"a":true}}"#),
        json(r#"[1,2]"#),
        json(r#"{"count":2}"#),
    ];
    let mut client: Option<Value> = None;
    for v in views.iter() {
        match h.view_changed(Some(v.clone())) {
            Some(ServerMessage::GameInfo { view }) => client = Some(view),
            Some(ServerMessage::GameViewDiff { diff }) => {
                let patch: json_patch::Patch = serde_json::from_value(diff).unwrap();
                let doc = client.as_mut().unwrap();
                json_patch::patch(doc, &patch).unwrap();
            },
            None => {},
            _ => panic!("unexpected frame"),
        }
        assert_eq!(client.as_ref(), Some(v));
    }
}

#[test]
fn two_sessions_of_one_user_agree() {
    let mut old_session = handler();
    let mut new_session = handler();
    old_session.view_changed(Some(Value::from(3)));
    old_session.view_changed(Some(Value::from(4)));
    new_session.view_changed(Some(Value::from(4)));
    let f1 = old_session.view_changed(Some(Value::from(5)));
    let f2 = new_session.view_changed(Some(Value::from(5)));
    assert!(matches!((f1, f2), (Some(ServerMessage::GameViewDiff { diff: a }), Some(ServerMessage::GameViewDiff { diff: b })) if a == b));
    assert_eq!(old_session.last_view, new_session.last_view);
}

#[test]
fn topic_frames() {
    assert!(room_changed(None).is_none());
    assert!(matches!(room_changed(Some(Value::from(2))), Some(ServerMessage::RoomInfo { .. })));
    let users = vec![UserInfo::new(UserId(0), "a".to_string(), true, None)];
    match users_changed(users) {
        ServerMessage::UserInfo { users } => {
            assert_eq!(users.len(), 1);
            assert!(users[0].leader);
        },
        _ => panic!("expected user info"),
    }
}

#[test]
fn failure_frames() {
    assert!(matches!(failure_message(Error::InvalidAction("r".to_string())),
        ServerMessage::InvalidAction { ref message } if message == "r"));
    assert!(matches!(failure_message(Error::GameNotStarted),
        ServerMessage::Error { ref message } if message == "game has not started"));
}

fn view_of(m: &RoomManager<MyGame>, id: UserId) -> Option<Value> {
    m.game_views().into_iter().find(|(u, _)| *u == id).and_then(|(_, v)| v)
}

fn request(m: &mut RoomManager<MyGame>, h: &ClientHandler, message: ClientMessage) -> Result<Dirty, Error> {
    match h.handle_client_message(message) {
        Command::Request(req) => {
            let (r, dirty) = m.handle(req);
            r.map(|_| dirty)
        },
        _ => panic!("expected a request"),
    }
}

#[test]
fn create_join_increment_observe() {
    let mut m = RoomManager::<MyGame>::new();
    let a = joined(&mut m, "a");
    let mut h = ClientHandler::new(RoomId::new(), a.clone());
    assert!(matches!(h.join_response(), ServerMessage::JoinResponse { ref username, .. } if username == "a"));
    match users_changed(m.room.user_info()) {
        ServerMessage::UserInfo { users } => {
            assert_eq!(users.len(), 1);
            assert!(users[0].leader);
            assert_eq!(users[0].username, "a");
            assert_eq!(users[0].player_id, None);
        },
        _ => panic!("expected user info"),
    }
    let dirty = request(&mut m, &h, ClientMessage::StartGame).unwrap();
    assert!(dirty.users && dirty.game);
    assert_eq!(m.room.user_info()[0].player_id, Some(board_game_io_base::ids::PlayerId(0)));
    match h.view_changed(view_of(&m, a.id)) {
        Some(ServerMessage::GameInfo { view }) => assert_eq!(view, Value::from(0)),
        _ => panic!("expected game info"),
    }
    request(&mut m, &h, ClientMessage::DoAction { action: json("\"Incr\"") }).unwrap();
    match h.view_changed(view_of(&m, a.id)) {
        Some(ServerMessage::GameViewDiff { diff }) => {
            assert_eq!(diff, json(r#"[{"op":"replace","path":"","value":1}]"#));
        },
        _ => panic!("expected diff"),
    }
}

#[test]
fn invalid_action_past_bound() {
    let mut m = RoomManager::<MyGame>::new();
    let a = joined(&mut m, "a");
    let mut h = ClientHandler::new(RoomId::new(), a.clone());
    request(&mut m, &h, ClientMessage::UpdateConfig { config: json("1") }).unwrap();
    request(&mut m, &h, ClientMessage::StartGame).unwrap();
    h.view_changed(view_of(&m, a.id));
    request(&mut m, &h, ClientMessage::DoAction { action: json("\"Incr\"") }).unwrap();
    h.view_changed(view_of(&m, a.id));
    let err = request(&mut m, &h, ClientMessage::DoAction { action: json("\"Incr\"") }).unwrap_err();
    match failure_message(err) {
        ServerMessage::InvalidAction { message } => assert_eq!(message, "count too high or low"),
        _ => panic!("expected invalid action"),
    }
    assert!(h.view_changed(view_of(&m, a.id)).is_none());
    assert_eq!(view_of(&m, a.id), Some(Value::from(1)));
}

#[test]
fn non_leader_config_update_is_an_error_frame() {
    let mut m = RoomManager::<MyGame>::new();
    joined(&mut m, "a");
    let d = joined(&mut m, "d");
    let h = ClientHandler::new(RoomId::new(), d);
    let err = request(&mut m, &h, ClientMessage::UpdateConfig { config: json("3") }).unwrap_err();
    match failure_message(err) {
        ServerMessage::Error { message } => assert!(message.contains("user must be leader")),
        _ => panic!("expected error"),
    }
}

fn generated_view(seed: &mut u64) -> Value {
    *seed = seed.wrapping_mul(6364136223846793005).wrapping_add(1442695040888963407);
    let r = *seed >> 33;
    let count = (r % 7) as i64;
    let items: Vec<Value> = (0..(r % 4)).map(|i| Value::from((i * r % 5) as i64)).collect();
    let mut doc = serde_json::Map::new();
    doc.insert("count".to_string(), Value::from(count));
    doc.insert("items".to_string(), Value::Array(items));
    if r % 3 == 0 {
        doc.insert("note".to_string(), Value::from(format!("n{}", r % 11)));
    }
    Value::Object(doc)
}

#[test]
fn applying_diffs_over_generated_views() {
    let mut h = handler();
    let mut seed: u64 = 7;
    let mut client: Option<Value> = None;
    for _ in 0..200 {
        let v = generated_view(&mut seed);
        match h.view_changed(Some(v.clone())) {
            Some(ServerMessage::GameInfo { view }) => client = Some(view),
            Some(ServerMessage::GameViewDiff { diff }) => {
                let patch: json_patch::Patch = serde_json::from_value(diff).unwrap();
                json_patch::patch(client.as_mut().unwrap(), &patch).unwrap();
            },
            None => {},
            _ => panic!("unexpected frame"),
        }
        assert_eq!(client.as_ref(), Some(&v));
    }
}

//! A multiplayer game-session engine: rooms that move between a lobby and a
//! running game, the per-room actor core that serialises requests and decides
//! which topics to republish, and the per-connection session logic that turns
//! wire messages into room requests and view updates into frames.
pub mod ids;
pub mod error;
pub mod json;
pub mod game;
pub mod counter_game;
pub mod protocol;
pub mod room;
pub mod room_manager;
pub mod client_handler;

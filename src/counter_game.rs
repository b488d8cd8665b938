//! A small game for the engine: the seats share one counter that each action
//! moves by one, within the bound that the room's configuration sets.
use vstd::prelude::*;
use vstd::string::StringExecFns;

use crate::error::Error;
use crate::game::Game;
use crate::ids::PlayerId;
use crate::json::{json_as_str, json_as_u64, json_from_i64, json_integer};

verus! {

/// A move of the counter.
#[derive(Clone, Copy, Debug, PartialEq, Eq, Structural)]
pub enum Action {
    Incr,
    Decr,
}

/// The state of the counter game: the counter, its bound (the configuration),
/// and the number of seats.
pub struct MyGame {
    pub count: i32,
    pub max_value: u32,
    pub num_players: u32,
}

/// The bound of a fresh lobby.
pub const DEFAULT_MAX_VALUE: u32 = 10;

/// The reason given for a move that would leave the bound.
pub open spec fn out_of_bounds_reason() -> Seq<char> {
    "count too high or low"@
}

impl MyGame {
    /// The counter after a move, as an unbounded integer.
    pub open spec fn moved(&self, action: Action) -> int {
        match action {
            Action::Incr => self.count + 1,
            Action::Decr => self.count - 1,
        }
    }

    /// Whether a counter value lies within the bound.
    pub open spec fn within_bound(&self, n: int) -> bool {
        &&& -(self.max_value as int) <= n <= self.max_value as int
        &&& i32::MIN <= n <= i32::MAX
    }
}

impl Game for MyGame {
    type Config = u32;
    type Action = Action;

    open spec fn spec_default_config() -> u32 {
        DEFAULT_MAX_VALUE
    }

    open spec fn spec_new(config: u32, players: u32) -> Option<MyGame> {
        Some(MyGame { count: 0, max_value: config, num_players: players })
    }

    open spec fn spec_players(&self) -> Seq<PlayerId> {
        Seq::new(self.num_players as nat, |i: int| PlayerId(i as u32))
    }

    open spec fn spec_view(&self, player: Option<PlayerId>) -> serde_json::Value {
        json_integer(self.count as int)
    }

    open spec fn spec_action(&self, player: PlayerId, action: Action) -> Result<MyGame, Seq<char>> {
        if self.within_bound(self.moved(action)) {
            Ok(MyGame { count: self.moved(action) as i32, ..*self })
        } else {
            Err(out_of_bounds_reason())
        }
    }

    open spec fn spec_config_json(config: u32) -> serde_json::Value {
        json_integer(config as int)
    }

    open spec fn spec_parse_config(v: serde_json::Value) -> Option<u32> {
        match json_as_u64(v) {
            Some(n) => if n <= u32::MAX { Some(n as u32) } else { None },
            None => None,
        }
    }

    open spec fn spec_parse_action(v: serde_json::Value) -> Option<Action> {
        match json_as_str(v) {
            Some(s) => if s == "Incr"@ {
                Some(Action::Incr)
            } else if s == "Decr"@ {
                Some(Action::Decr)
            } else {
                None
            },
            None => None,
        }
    }

    fn default_config() -> (r: u32) {
        DEFAULT_MAX_VALUE
    }

    fn new(config: &u32, players: u32) -> (r: Result<MyGame, Error>) {
        Ok(MyGame { count: 0, max_value: *config, num_players: players })
    }

    fn players(&self) -> (r: Vec<PlayerId>) {
        let mut r: Vec<PlayerId> = Vec::new();
        let mut i: u32 = 0;
        while i < self.num_players
            invariant
                i <= self.num_players,
                r@ =~= Seq::new(i as nat, |j: int| PlayerId(j as u32)),
            decreases self.num_players - i,
        {
            r.push(PlayerId(i));
            i = i + 1;
        }
        r
    }

    fn view(&self, player: Option<PlayerId>) -> (r: serde_json::Value) {
        json_from_i64(self.count as i64)
    }

    fn do_action(&mut self, player: PlayerId, action: &Action) -> (r: Result<(), Error>) {
        let moved: i64 = match action {
            Action::Incr => self.count as i64 + 1,
            Action::Decr => self.count as i64 - 1,
        };
        let bound: i64 = self.max_value as i64;
        if moved < -bound || moved > bound || moved < i32::MIN as i64 || moved > i32::MAX as i64 {
            Err(Error::InvalidAction(String::from_str("count too high or low")))
        } else {
            self.count = moved as i32;
            Ok(())
        }
    }

    fn config_to_json(config: &u32) -> (r: serde_json::Value) {
        json_from_i64(*config as i64)
    }

    fn parse_config(v: &serde_json::Value) -> (r: Option<u32>) {
        match v.as_u64() {
            Some(n) => if n <= u32::MAX as u64 { Some(n as u32) } else { None },
            None => None,
        }
    }

    fn parse_action(v: &serde_json::Value) -> (r: Option<Action>) {
        match v.as_str() {
            Some(s) => {
                let text = String::from_str(s);
                if text == String::from_str("Incr") {
                    Some(Action::Incr)
                } else if text == String::from_str("Decr") {
                    Some(Action::Decr)
                } else {
                    None
                }
            },
            None => None,
        }
    }
}

} // verus!

use vstd::prelude::*;

use crate::error::Error;
use crate::ids::PlayerId;

verus! {

/// A turn-based game that the engine hosts. The engine owns the state and
/// never reads game data: configurations, actions and views reach it as JSON.
pub trait Game: Sized {
    type Config;
    type Action;

    /// The configuration of a fresh lobby.
    spec fn spec_default_config() -> Self::Config;

    /// The state created from a configuration for a number of users, if any.
    spec fn spec_new(config: Self::Config, players: u32) -> Option<Self>;

    /// The seats of the game.
    spec fn spec_players(&self) -> Seq<PlayerId>;

    /// What a seat (or a spectator, for `None`) sees of the state.
    spec fn spec_view(&self, player: Option<PlayerId>) -> serde_json::Value;

    /// The state after a seat takes an action, or the reason it is refused.
    spec fn spec_action(&self, player: PlayerId, action: Self::Action) -> Result<Self, Seq<char>>;

    /// The JSON encoding of a configuration.
    spec fn spec_config_json(config: Self::Config) -> serde_json::Value;

    /// The configuration that a JSON value decodes to, if any.
    spec fn spec_parse_config(v: serde_json::Value) -> Option<Self::Config>;

    /// The action that a JSON value decodes to, if any.
    spec fn spec_parse_action(v: serde_json::Value) -> Option<Self::Action>;

    fn default_config() -> (r: Self::Config)
        ensures
            r == Self::spec_default_config(),
    ;

    fn new(config: &Self::Config, players: u32) -> (r: Result<Self, Error>)
        ensures
            Self::spec_new(*config, players) matches Some(g) ==> r == Ok::<Self, Error>(g),
            Self::spec_new(*config, players) is None ==> r is Err,
    ;

    fn players(&self) -> (r: Vec<PlayerId>)
        ensures
            r@ == self.spec_players(),
    ;

    fn view(&self, player: Option<PlayerId>) -> (r: serde_json::Value)
        ensures
            r == self.spec_view(player),
    ;

    /// Takes an action; a refused action leaves the state as it was. The seats
    /// never change once the state exists.
    fn do_action(&mut self, player: PlayerId, action: &Self::Action) -> (r: Result<(), Error>)
        ensures
            old(self).spec_action(player, *action) matches Ok(s) ==> r is Ok && *final(self) == s,
            old(self).spec_action(player, *action) matches Err(reason) ==> (*final(self) == *old(self)
                && (r matches Err(Error::InvalidAction(m)) && m@ == reason)),
            final(self).spec_players() == old(self).spec_players(),
    ;

    fn config_to_json(config: &Self::Config) -> (r: serde_json::Value)
        ensures
            r == Self::spec_config_json(*config),
    ;

    fn parse_config(v: &serde_json::Value) -> (r: Option<Self::Config>)
        ensures
            r == Self::spec_parse_config(*v),
    ;

    fn parse_action(v: &serde_json::Value) -> (r: Option<Self::Action>)
        ensures
            r == Self::spec_parse_action(*v),
    ;
}

} // verus!

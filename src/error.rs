use vstd::prelude::*;
use vstd::string::StringExecFns;

use crate::ids::UserId;

verus! {

/// What can go wrong in a room, an actor or a session.
#[derive(Debug)]
pub enum Error {
    ParseFailure,
    EmptyLobby,
    UsernameInUse,
    InvalidReconnectToken,
    UserNotLeader,
    UserNotFound,
    UserIsPlayer,
    UserIsNotPlayer(UserId),
    UserIsAlreadyPlayer(UserId),
    GameAlreadyStarted,
    GameNotStarted,
    InvalidPlayerMapping,
    WrongPlayerCount,
    InvalidCreate,
    UserNotInGame,
    InvalidAction(String),
    TransportError(String),
    Unknown,
}

/// The decimal digit for `d < 10`.
pub open spec fn digit_char(d: nat) -> char {
    if d == 0 { '0' }
    else if d == 1 { '1' }
    else if d == 2 { '2' }
    else if d == 3 { '3' }
    else if d == 4 { '4' }
    else if d == 5 { '5' }
    else if d == 6 { '6' }
    else if d == 7 { '7' }
    else if d == 8 { '8' }
    else { '9' }
}

/// The decimal notation of `n`, without leading zeros.
pub open spec fn decimal(n: nat) -> Seq<char>
    decreases n,
{
    if n < 10 {
        seq![digit_char(n)]
    } else {
        decimal(n / 10).push(digit_char(n % 10))
    }
}

/// Relies on the `Display` impl of `u32` (through `to_string`): it writes the
/// number in decimal, without sign or leading zeros.
#[verifier::external_body]
fn u32_to_decimal(n: u32) -> (r: String)
    ensures
        r@ == decimal(n as nat),
{
    n.to_string()
}

/// How a user id reads inside a message: `UserId(7)`.
pub open spec fn user_id_text(id: UserId) -> Seq<char> {
    "UserId("@ + decimal(id.0 as nat) + ")"@
}

impl UserId {
    /// The user id as it reads inside a message.
    pub fn to_text(&self) -> (r: String)
        ensures
            r@ == user_id_text(*self),
    {
        let mut s = String::from_str("UserId(");
        let digits = u32_to_decimal(self.0);
        s.append(digits.as_str());
        s.append(")");
        s
    }
}

impl Error {
    /// The human-readable message of the error.
    pub open spec fn text(&self) -> Seq<char> {
        match self {
            Error::ParseFailure => "could not parse value"@,
            Error::EmptyLobby => "lobby is empty"@,
            Error::UsernameInUse => "username is in use"@,
            Error::InvalidReconnectToken => "invalid reconnect token"@,
            Error::UserNotLeader => "user must be leader to perform operation"@,
            Error::UserNotFound => "user not found"@,
            Error::UserIsPlayer => "user is in game and cannot be kicked"@,
            Error::UserIsNotPlayer(id) => "user "@ + user_id_text(*id) + " is not a player"@,
            Error::UserIsAlreadyPlayer(id) => "user "@ + user_id_text(*id) + " is already a player"@,
            Error::GameAlreadyStarted => "game is already started"@,
            Error::GameNotStarted => "game has not started"@,
            Error::InvalidPlayerMapping => "invalid player mapping"@,
            Error::WrongPlayerCount => "game state has wrong number of players"@,
            Error::InvalidCreate => "could not create game state"@,
            Error::UserNotInGame => "user is spectating"@,
            Error::InvalidAction(reason) => "invalid action: "@ + reason@,
            Error::TransportError(reason) => "transport error: "@ + reason@,
            Error::Unknown => "unknown error"@,
        }
    }

    /// The human-readable message of the error, as a client is shown it.
    pub fn message(&self) -> (r: String)
        ensures
            r@ == self.text(),
    {
        match self {
            Error::ParseFailure => String::from_str("could not parse value"),
            Error::EmptyLobby => String::from_str("lobby is empty"),
            Error::UsernameInUse => String::from_str("username is in use"),
            Error::InvalidReconnectToken => String::from_str("invalid reconnect token"),
            Error::UserNotLeader => String::from_str("user must be leader to perform operation"),
            Error::UserNotFound => String::from_str("user not found"),
            Error::UserIsPlayer => String::from_str("user is in game and cannot be kicked"),
            Error::UserIsNotPlayer(id) => {
                let mut s = String::from_str("user ");
                let t = id.to_text();
                s.append(t.as_str());
                s.append(" is not a player");
                s
            },
            Error::UserIsAlreadyPlayer(id) => {
                let mut s = String::from_str("user ");
                let t = id.to_text();
                s.append(t.as_str());
                s.append(" is already a player");
                s
            },
            Error::GameAlreadyStarted => String::from_str("game is already started"),
            Error::GameNotStarted => String::from_str("game has not started"),
            Error::InvalidPlayerMapping => String::from_str("invalid player mapping"),
            Error::WrongPlayerCount => String::from_str("game state has wrong number of players"),
            Error::InvalidCreate => String::from_str("could not create game state"),
            Error::UserNotInGame => String::from_str("user is spectating"),
            Error::InvalidAction(reason) => {
                let mut s = String::from_str("invalid action: ");
                s.append(reason.as_str());
                s
            },
            Error::TransportError(reason) => {
                let mut s = String::from_str("transport error: ");
                s.append(reason.as_str());
                s
            },
            Error::Unknown => String::from_str("unknown error"),
        }
    }
}

} // verus!

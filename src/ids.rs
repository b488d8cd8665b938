use vstd::prelude::*;
use vstd::string::StringExecFns;

verus! {

/// A seat at a game, defined by the game when its state is created.
#[derive(Clone, Copy, Debug, PartialEq, Eq, Structural, Hash)]
pub struct PlayerId(pub u32);

/// A user of one room, minted by the room at the user's first join.
#[derive(Clone, Copy, Debug, PartialEq, Eq, Structural, Hash)]
pub struct UserId(pub u32);

/// The secret a client presents to bind a new connection to its old user.
#[derive(Debug, Eq, Hash)]
pub struct ReconnectToken(pub String);

/// The external handle of a room.
#[derive(Debug, Eq, Hash)]
pub struct RoomId(pub String);

/// Length of a freshly drawn reconnect token.
pub const TOKEN_LEN: usize = 16;

/// Length of a freshly drawn room id.
pub const ROOM_ID_LEN: usize = 4;

pub open spec fn is_ascii_alphanumeric(c: char) -> bool {
    ('a' <= c && c <= 'z') || ('A' <= c && c <= 'Z') || ('0' <= c && c <= '9')
}

pub open spec fn is_ascii_uppercase(c: char) -> bool {
    'A' <= c && c <= 'Z'
}

/// Relies on rand's `Alphanumeric` distribution, sampled from the thread-local
/// generator: it yields one of the 62 ASCII letters and digits.
#[verifier::external_body]
fn random_alphanumeric() -> (c: char)
    ensures
        is_ascii_alphanumeric(c),
{
    char::from(rand::Rng::sample(&mut rand::thread_rng(), rand::distributions::Alphanumeric))
}

/// Relies on rand's `Uniform::new_inclusive('A', 'Z')` for `char`, sampled from
/// the thread-local generator: it yields a character of that closed range.
#[verifier::external_body]
fn random_uppercase() -> (c: char)
    ensures
        is_ascii_uppercase(c),
{
    rand::Rng::sample(&mut rand::thread_rng(), rand::distributions::Uniform::new_inclusive('A', 'Z'))
}

/// Relies on `String::push`: the character is appended.
#[verifier::external_body]
pub(crate) fn push_char(s: &mut String, c: char)
    ensures
        final(s)@ == old(s)@.push(c),
{
    s.push(c)
}

impl PartialEq for ReconnectToken {
    fn eq(&self, other: &ReconnectToken) -> (r: bool) {
        self.0 == other.0
    }
}

impl vstd::std_specs::cmp::PartialEqSpecImpl for ReconnectToken {
    open spec fn obeys_eq_spec() -> bool {
        true
    }

    open spec fn eq_spec(&self, other: &ReconnectToken) -> bool {
        self.0@ == other.0@
    }
}

impl PartialEq for RoomId {
    fn eq(&self, other: &RoomId) -> (r: bool) {
        self.0 == other.0
    }
}

impl vstd::std_specs::cmp::PartialEqSpecImpl for RoomId {
    open spec fn obeys_eq_spec() -> bool {
        true
    }

    open spec fn eq_spec(&self, other: &RoomId) -> bool {
        self.0@ == other.0@
    }
}

impl Clone for ReconnectToken {
    fn clone(&self) -> (r: ReconnectToken)
        ensures
            r == *self,
    {
        ReconnectToken(self.0.clone())
    }
}

impl Clone for RoomId {
    fn clone(&self) -> (r: RoomId)
        ensures
            r == *self,
    {
        RoomId(self.0.clone())
    }
}

impl ReconnectToken {
    /// A token is well formed when it is sixteen ASCII letters or digits.
    pub open spec fn well_formed(&self) -> bool {
        &&& self.0@.len() == TOKEN_LEN
        &&& forall|i: int| 0 <= i < self.0@.len() ==> is_ascii_alphanumeric(#[trigger] self.0@[i])
    }

    /// Draws a fresh random token.
    pub fn new() -> (r: ReconnectToken)
        ensures
            r.well_formed(),
    {
        let mut s = String::from_str("");
        proof {
            reveal_strlit("");
        }
        let mut i: usize = 0;
        while i < TOKEN_LEN
            invariant
                i <= TOKEN_LEN,
                s@.len() == i,
                forall|j: int| 0 <= j < s@.len() ==> is_ascii_alphanumeric(#[trigger] s@[j]),
            decreases TOKEN_LEN - i,
        {
            let c = random_alphanumeric();
            push_char(&mut s, c);
            i = i + 1;
        }
        ReconnectToken(s)
    }
}

impl RoomId {
    /// A room id is well formed when it is four ASCII capital letters.
    pub open spec fn well_formed(&self) -> bool {
        &&& self.0@.len() == ROOM_ID_LEN
        &&& forall|i: int| 0 <= i < self.0@.len() ==> is_ascii_uppercase(#[trigger] self.0@[i])
    }

    /// Draws a fresh random room id.
    pub fn new() -> (r: RoomId)
        ensures
            r.well_formed(),
    {
        let mut s = String::from_str("");
        proof {
            reveal_strlit("");
        }
        let mut i: usize = 0;
        while i < ROOM_ID_LEN
            invariant
                i <= ROOM_ID_LEN,
                s@.len() == i,
                forall|j: int| 0 <= j < s@.len() ==> is_ascii_uppercase(#[trigger] s@[j]),
            decreases ROOM_ID_LEN - i,
        {
            let c = random_uppercase();
            push_char(&mut s, c);
            i = i + 1;
        }
        RoomId(s)
    }
}

} // verus!

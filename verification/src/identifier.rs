use vstd::prelude::*;
use vstd::string::StrSliceExecFns;

use crate::error::IdentifierError;
use crate::kv::StoreKey;

verus! {

/// The character set of IBC identifiers: alphanumerics and
/// `. _ + - # [ ] < >`.
pub open spec fn valid_id_char(c: char) -> bool {
    ('a' as u32 <= c as u32 && c as u32 <= 'z' as u32)
        || ('A' as u32 <= c as u32 && c as u32 <= 'Z' as u32)
        || ('0' as u32 <= c as u32 && c as u32 <= '9' as u32)
        || c == '.' || c == '_' || c == '+' || c == '-' || c == '#'
        || c == '[' || c == ']' || c == '<' || c == '>'
}

/// An identifier holds 1 to 64 characters, all from the allowed set.
pub open spec fn valid_identifier(s: Seq<char>) -> bool {
    1 <= s.len() <= 64 && (forall|i: int| 0 <= i < s.len() ==> valid_id_char(s[i]))
}

fn id_char_ok(c: char) -> (r: bool)
    ensures
        r == valid_id_char(c),
{
    let u = c as u32;
    ('a' as u32 <= u && u <= 'z' as u32)
        || ('A' as u32 <= u && u <= 'Z' as u32)
        || ('0' as u32 <= u && u <= '9' as u32)
        || c == '.' || c == '_' || c == '+' || c == '-' || c == '#'
        || c == '[' || c == ']' || c == '<' || c == '>'
}

/// Decides whether `s` has the general form of an IBC identifier.
pub fn validate_identifier(s: &str) -> (r: bool)
    ensures
        r == valid_identifier(s@),
{
    let n = s.unicode_len();
    if n < 1 || n > 64 {
        return false;
    }
    let mut i: usize = 0;
    while i < n
        invariant
            n == s@.len(),
            i <= n,
            forall|j: int| 0 <= j < i ==> valid_id_char(s@[j]),
        decreases n - i,
    {
        if !id_char_ok(s.get_char(i)) {
            return false;
        }
        i = i + 1;
    }
    true
}

/// Identifies a light client of a counterparty chain.
#[derive(Debug)]
pub struct ClientId(String);

/// Identifies a connection end on this chain.
#[derive(Debug)]
pub struct ConnectionId(String);

/// Identifies the application port a channel serves.
#[derive(Debug)]
pub struct PortId(String);

/// Identifies a channel end on this chain.
#[derive(Debug)]
pub struct ChannelId(String);

impl View for ClientId {
    type V = Seq<char>;

    closed spec fn view(&self) -> Seq<char> {
        self.0@
    }
}

impl View for ConnectionId {
    type V = Seq<char>;

    closed spec fn view(&self) -> Seq<char> {
        self.0@
    }
}

impl View for PortId {
    type V = Seq<char>;

    closed spec fn view(&self) -> Seq<char> {
        self.0@
    }
}

impl View for ChannelId {
    type V = Seq<char>;

    closed spec fn view(&self) -> Seq<char> {
        self.0@
    }
}

impl ConnectionId {
    /// Mints the identifier this chain itself assigns; callers
    /// outside the crate go through `new`, which validates.
    pub(crate) fn from_raw(s: String) -> (r: ConnectionId)
        ensures
            r@ == s@,
    {
        ConnectionId(s)
    }
}

impl ChannelId {
    /// Mints the identifier this chain itself assigns; callers
    /// outside the crate go through `new`, which validates.
    pub(crate) fn from_raw(s: String) -> (r: ChannelId)
        ensures
            r@ == s@,
    {
        ChannelId(s)
    }
}

impl ClientId {
    pub fn new(s: String) -> (r: Result<ClientId, IdentifierError>)
        ensures
            match r {
                Ok(id) => valid_identifier(s@) && id@ == s@,
                Err(e) => !valid_identifier(s@) && e == IdentifierError::InvalidIdentifier,
            },
    {
        if validate_identifier(s.as_str()) {
            Ok(ClientId(s))
        } else {
            Err(IdentifierError::InvalidIdentifier)
        }
    }

    pub fn as_str(&self) -> (r: &str)
        ensures
            r@ == self@,
    {
        self.0.as_str()
    }
}

impl ConnectionId {
    pub fn new(s: String) -> (r: Result<ConnectionId, IdentifierError>)
        ensures
            match r {
                Ok(id) => valid_identifier(s@) && id@ == s@,
                Err(e) => !valid_identifier(s@) && e == IdentifierError::InvalidIdentifier,
            },
    {
        if validate_identifier(s.as_str()) {
            Ok(ConnectionId(s))
        } else {
            Err(IdentifierError::InvalidIdentifier)
        }
    }

    pub fn as_str(&self) -> (r: &str)
        ensures
            r@ == self@,
    {
        self.0.as_str()
    }
}

impl PortId {
    pub fn new(s: String) -> (r: Result<PortId, IdentifierError>)
        ensures
            match r {
                Ok(id) => valid_identifier(s@) && id@ == s@,
                Err(e) => !valid_identifier(s@) && e == IdentifierError::InvalidIdentifier,
            },
    {
        if validate_identifier(s.as_str()) {
            Ok(PortId(s))
        } else {
            Err(IdentifierError::InvalidIdentifier)
        }
    }

    pub fn as_str(&self) -> (r: &str)
        ensures
            r@ == self@,
    {
        self.0.as_str()
    }
}

impl ChannelId {
    pub fn new(s: String) -> (r: Result<ChannelId, IdentifierError>)
        ensures
            match r {
                Ok(id) => valid_identifier(s@) && id@ == s@,
                Err(e) => !valid_identifier(s@) && e == IdentifierError::InvalidIdentifier,
            },
    {
        if validate_identifier(s.as_str()) {
            Ok(ChannelId(s))
        } else {
            Err(IdentifierError::InvalidIdentifier)
        }
    }

    pub fn as_str(&self) -> (r: &str)
        ensures
            r@ == self@,
    {
        self.0.as_str()
    }
}

impl Clone for ClientId {
    fn clone(&self) -> (r: Self)
        ensures
            r@ == self@,
    {
        ClientId(self.0.clone())
    }
}

impl Clone for ConnectionId {
    fn clone(&self) -> (r: Self)
        ensures
            r@ == self@,
    {
        ConnectionId(self.0.clone())
    }
}

impl Clone for PortId {
    fn clone(&self) -> (r: Self)
        ensures
            r@ == self@,
    {
        PortId(self.0.clone())
    }
}

impl Clone for ChannelId {
    fn clone(&self) -> (r: Self)
        ensures
            r@ == self@,
    {
        ChannelId(self.0.clone())
    }
}

impl StoreKey for ClientId {
    fn key_eq(&self, other: &Self) -> (r: bool)
        ensures
            r == (self@ == other@),
    {
        self.0 == other.0
    }
}

impl StoreKey for ConnectionId {
    fn key_eq(&self, other: &Self) -> (r: bool)
        ensures
            r == (self@ == other@),
    {
        self.0 == other.0
    }
}

impl StoreKey for PortId {
    fn key_eq(&self, other: &Self) -> (r: bool)
        ensures
            r == (self@ == other@),
    {
        self.0 == other.0
    }
}

impl StoreKey for ChannelId {
    fn key_eq(&self, other: &Self) -> (r: bool)
        ensures
            r == (self@ == other@),
    {
        self.0 == other.0
    }
}

} // verus!

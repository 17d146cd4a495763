//! Chat messages as the coin bot sees them, whatever the chat service.
use vstd::prelude::*;

verus! {

/// A chat user.
#[derive(Debug, Clone, Copy, PartialEq, Eq, Structural)]
pub struct User {
    pub id: u64,
}

/// A chat channel.
#[derive(Debug, Clone, Copy, PartialEq, Eq, Structural)]
pub struct Channel {
    pub id: u64,
}

/// A chat server.
#[derive(Debug, Clone, Copy, PartialEq, Eq, Structural)]
pub struct Server {
    pub id: u64,
}

/// A message posted in a channel.
#[derive(Debug)]
pub struct Message {
    pub id: u64,
    pub content: String,
    pub user: User,
    pub channel: Channel,
    pub server: Server,
    /// when the message was posted, in seconds since the Unix epoch (UTC)
    pub timestamp: i64,
    /// the users the message mentions, in order
    pub mentions: Vec<User>,
}

impl From<u64> for User {
    fn from(id: u64) -> (r: Self) {
        User { id }
    }
}

impl vstd::std_specs::convert::FromSpecImpl<u64> for User {
    open spec fn obeys_from_spec() -> bool {
        true
    }

    open spec fn from_spec(id: u64) -> Self {
        User { id }
    }
}

impl From<u64> for Channel {
    fn from(id: u64) -> (r: Self) {
        Channel { id }
    }
}

impl vstd::std_specs::convert::FromSpecImpl<u64> for Channel {
    open spec fn obeys_from_spec() -> bool {
        true
    }

    open spec fn from_spec(id: u64) -> Self {
        Channel { id }
    }
}

impl From<u64> for Server {
    fn from(id: u64) -> (r: Self) {
        Server { id }
    }
}

impl vstd::std_specs::convert::FromSpecImpl<u64> for Server {
    open spec fn obeys_from_spec() -> bool {
        true
    }

    open spec fn from_spec(id: u64) -> Self {
        Server { id }
    }
}

} // verus!

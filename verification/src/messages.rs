//! The events that reach the hub, and the text frame that leaves it.

use vstd::prelude::*;

verus! {

/// A text frame for one connection.
#[derive(Clone, Debug, PartialEq, Eq)]
pub struct WsMessage(pub String);

impl View for WsMessage {
    type V = Seq<char>;

    open spec fn view(&self) -> Seq<char> {
        self.0@
    }
}

/// A connection has joined: its identity, and the handle through which text
/// is pushed to it.
pub struct Connect<H> {
    pub addr: H,
    pub id: u128,
}

/// A connection has gone.
pub struct Disconnect {
    pub id: u128,
}

/// A text that a connection has sent.
#[derive(Clone, Debug, PartialEq, Eq)]
pub struct Packet {
    pub id: u128,
    pub data: String,
}

impl Packet {
    /// The event that the connection `id` has sent `data`.
    pub fn new(id: u128, data: &str) -> (packet: Packet)
        ensures
            packet.id == id,
            packet.data@ == data@,
    {
        Packet { id, data: data.to_owned() }
    }
}

} // verus!

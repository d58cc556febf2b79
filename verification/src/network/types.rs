//! What the players of a shared session tell each other.

use vstd::prelude::*;
use crate::game::notes::Note;

verus! {

/// The address of a host on the network.
#[derive(Clone, Copy, Debug, PartialEq, Eq, Hash, Structural)]
pub enum PeerIp {
    /// The four bytes of an IPv4 address, the first byte weighing most.
    V4(u32),
    /// The sixteen bytes of an IPv6 address, the first byte weighing most.
    V6(u128),
}

/// The address of a socket of a player.
#[derive(Clone, Copy, Debug, PartialEq, Eq, Hash, Structural)]
pub struct PeerAddr {
    pub ip: PeerIp,
    pub port: u16,
}

impl PeerAddr {
    /// The socket at another port of the same host.
    pub fn with_port(self, port: u16) -> (r: PeerAddr)
        ensures
            r == (PeerAddr { ip: self.ip, port }),
    {
        PeerAddr { ip: self.ip, port }
    }
}

/// The bytes that a player reads of one message: no message is longer.
pub const RECEIVE_BUFFER_SIZE: usize = 300;

/// One message between players.
#[derive(Debug, Clone, PartialEq)]
pub enum NetworkEvent {
    /// Tells a player its seat, which gives it its colour.
    ID(usize),
    /// A note was played.
    Note(Note),
    /// The roster: the port at which the host receives, and the sockets at
    /// which the players receive.
    Peers(u16, Vec<PeerAddr>),
    /// A player joins and receives at this port.
    PlayerJoin(u16),
    /// The player that receives at this port has left.
    PlayerLeft(u16),
}

/// A message as it was received.
#[derive(Debug, Clone, PartialEq)]
pub struct NetworkData {
    /// The number of bytes received.
    pub amt: usize,
    /// The socket that sent the message.
    pub src: PeerAddr,
    /// The message.
    pub event: NetworkEvent,
}

/// A message to send, and the sockets to send it to, in this order.
#[derive(Debug, Clone, PartialEq)]
pub struct Outgoing {
    pub event: NetworkEvent,
    pub recipients: Vec<PeerAddr>,
}

} // verus!

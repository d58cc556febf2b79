//! The shared session: what a player does with each message it receives.

pub mod sender;
pub mod types;

pub use crate::network::sender::Sender;
pub use crate::network::types::NetworkEvent;

use vstd::prelude::*;
use crate::color::{color_of_seat, seat_color};
use crate::game::notes::Note;
use crate::game::PianoKeyboard;
use crate::network::sender::{is_seat_of, own_socket, roster_with};
use crate::network::types::{NetworkData, Outgoing, PeerAddr};

verus! {

/// What is left for the caller to do after a message was handled.
#[derive(Debug, Clone, PartialEq)]
pub enum Reaction {
    /// Nothing.
    Nothing,
    /// Send these two messages, the first one first.
    Send(Outgoing, Outgoing),
    /// Play this note.
    Play(Note),
}

/// The roster that a host announces, as the player that receives it holds
/// it: the first place is the host's own, and there stands the socket at
/// which the host receives, as seen from this player. A roster without a
/// first place is no roster.
pub open spec fn announced_roster(peers: Seq<PeerAddr>, src: PeerAddr, port: u16) -> Option<
    Seq<PeerAddr>,
> {
    if peers.len() == 0 {
        None
    } else {
        Some(peers.update(0, PeerAddr { ip: src.ip, port }))
    }
}

/// Handles one message that was received.
///
/// - A player that joins is registered at the port it names, on the host
///   that the message came from; the messages that tell it its seat and
///   tell everybody the roster are returned for sending.
/// - A roster replaces the roster of the sender, with the host's own
///   socket in the first place. One without a first place is dropped.
/// - A seat sets the colour of the keyboard and is kept by the sender.
/// - A consistent note is returned for playing. One that is not consistent
///   is dropped, as a message that cannot be read is.
/// - A player that left changes nothing.
///
/// After any message the sender takes the socket in its seat of the roster
/// for its own, so that its notes go to the other players only.
pub fn handle_network_receive_event(
    keyboard: &mut PianoKeyboard,
    event_sender: &mut Sender,
    receiver_port: u16,
    data: NetworkData,
) -> (r: Reaction)
    ensures
        final(keyboard).sequence == old(keyboard).sequence,
        final(keyboard).sound_duration == old(keyboard).sound_duration,
        final(keyboard).mark_duration == old(keyboard).mark_duration,
        final(keyboard).recorder == old(keyboard).recorder,
        final(event_sender).host_addr == old(event_sender).host_addr,
        match data.event {
            NetworkEvent::PlayerJoin(port) => {
                let client = PeerAddr { ip: data.src.ip, port };
                &&& final(keyboard).color == old(keyboard).color
                &&& final(event_sender).seat == old(event_sender).seat
                &&& final(event_sender).peer_addrs@ == roster_with(
                    old(event_sender).peer_addrs@,
                    client,
                )
                &&& r matches Reaction::Send(seat, roster)
                &&& seat.event is ID
                &&& is_seat_of(final(event_sender).peer_addrs@, client, seat.event->ID_0 as int)
                &&& seat.recipients@ == seq![client]
                &&& roster.event is Peers
                &&& roster.event->Peers_0 == receiver_port
                &&& roster.event->Peers_1@ == final(event_sender).peer_addrs@
                &&& roster.recipients@ == final(event_sender).peer_addrs@
            },
            NetworkEvent::Peers(port, peers) => {
                &&& final(keyboard).color == old(keyboard).color
                &&& final(event_sender).peer_addrs@ == match announced_roster(
                    peers@,
                    data.src,
                    port,
                ) {
                    Some(roster) => roster,
                    None => old(event_sender).peer_addrs@,
                }
                &&& final(event_sender).seat == old(event_sender).seat
                &&& r is Nothing
            },
            NetworkEvent::ID(id) => {
                &&& final(keyboard).color == seat_color(id as int)
                &&& final(event_sender).peer_addrs@ == old(event_sender).peer_addrs@
                &&& final(event_sender).seat == Some(id)
                &&& r is Nothing
            },
            NetworkEvent::Note(note) => {
                &&& final(keyboard).color == old(keyboard).color
                &&& final(event_sender).peer_addrs@ == old(event_sender).peer_addrs@
                &&& final(event_sender).seat == old(event_sender).seat
                &&& r == if note.wf() {
                    Reaction::Play(note)
                } else {
                    Reaction::Nothing
                }
            },
            NetworkEvent::PlayerLeft(_) => {
                &&& final(keyboard).color == old(keyboard).color
                &&& final(event_sender).peer_addrs@ == old(event_sender).peer_addrs@
                &&& final(event_sender).seat == old(event_sender).seat
                &&& r is Nothing
            },
        },
        final(event_sender).receiver_addr == own_socket(
            final(event_sender).peer_addrs@,
            final(event_sender).seat,
            old(event_sender).receiver_addr,
        ),
{
    let src = data.src;
    let reaction = match data.event {
        NetworkEvent::PlayerJoin(port) => {
            let (seat, roster) = event_sender.register_remote_socket(
                receiver_port,
                src.with_port(port),
            );
            Reaction::Send(seat, roster)
        },
        NetworkEvent::Peers(port, mut peers) => {
            if peers.len() > 0 {
                peers.set(0, src.with_port(port));
                event_sender.take_roster(peers);
            }
            Reaction::Nothing
        },
        NetworkEvent::ID(id) => {
            keyboard.set_note_color(color_of_seat(id));
            event_sender.take_seat(id);
            Reaction::Nothing
        },
        NetworkEvent::Note(note) => {
            if note.is_consistent() {
                Reaction::Play(note)
            } else {
                Reaction::Nothing
            }
        },
        NetworkEvent::PlayerLeft(_) => Reaction::Nothing,
    };
    event_sender.settle();
    reaction
}

} // verus!

//! The sending side of a player: the host it joined and the roster of the
//! players it sends to.
//!
//! The sender decides what is sent to whom; putting the messages on the
//! wire is the caller's part. A note goes to every other player: the player
//! that plays it hears it at once and is not sent it.

use vstd::prelude::*;
use crate::game::notes::Note;
use crate::network::types::{NetworkEvent, Outgoing, PeerAddr};

verus! {

/// The sending side of a player.
#[derive(Debug)]
pub struct Sender {
    /// The socket at which the host receives.
    pub host_addr: PeerAddr,
    /// The socket at which this player receives, as the roster names it.
    pub receiver_addr: PeerAddr,
    /// The seat of this player, once the host has told it.
    pub seat: Option<usize>,
    /// The roster: the sockets at which the players receive. The place of a
    /// player in the roster is its seat.
    pub peer_addrs: Vec<PeerAddr>,
}

/// The socket at which a player receives, as a roster names it: the socket
/// in the player's seat. Where the seat is not known, or is no place of the
/// roster, it is the socket known before.
pub open spec fn own_socket(peers: Seq<PeerAddr>, seat: Option<usize>, known: PeerAddr) -> PeerAddr {
    match seat {
        Some(place) => if place < peers.len() {
            peers[place as int]
        } else {
            known
        },
        None => known,
    }
}

/// The players of a roster other than the one that receives at `own`, in
/// the order of the roster.
pub open spec fn others(peers: Seq<PeerAddr>, own: PeerAddr) -> Seq<PeerAddr> {
    peers.filter(is_other(own))
}

/// The test that tells the other players from the one that receives at
/// `own`.
pub open spec fn is_other(own: PeerAddr) -> spec_fn(PeerAddr) -> bool {
    |addr: PeerAddr| addr != own
}

/// Two tests that agree on every socket keep the same sockets of a roster.
proof fn lemma_filter_by_equal_tests(
    peers: Seq<PeerAddr>,
    one: spec_fn(PeerAddr) -> bool,
    other: spec_fn(PeerAddr) -> bool,
)
    requires
        forall|addr: PeerAddr| #[trigger] one(addr) == other(addr),
    ensures
        peers.filter(one) == peers.filter(other),
    decreases peers.len(),
{
    reveal(Seq::filter);
    if peers.len() > 0 {
        lemma_filter_by_equal_tests(peers.drop_last(), one, other);
    }
}

/// Whether no socket stands twice in a roster.
pub open spec fn no_duplicates(peers: Seq<PeerAddr>) -> bool {
    forall|i: int, j: int| 0 <= i < j < peers.len() ==> peers[i] != peers[j]
}

/// Whether `seat` is the first place of `addr` in a roster.
pub open spec fn is_seat_of(peers: Seq<PeerAddr>, addr: PeerAddr, seat: int) -> bool {
    &&& 0 <= seat < peers.len()
    &&& peers[seat] == addr
    &&& forall|j: int| 0 <= j < seat ==> peers[j] != addr
}

/// The roster after a player registers: a new socket goes to the end, and
/// one that stands in the roster changes nothing.
pub open spec fn roster_with(peers: Seq<PeerAddr>, addr: PeerAddr) -> Seq<PeerAddr> {
    if peers.contains(addr) {
        peers
    } else {
        peers.push(addr)
    }
}

/// Finds the first place of a socket in a roster.
fn find_seat(peers: &Vec<PeerAddr>, addr: PeerAddr) -> (r: Option<usize>)
    ensures
        match r {
            Some(seat) => is_seat_of(peers@, addr, seat as int),
            None => !peers@.contains(addr),
        },
{
    let n: usize = peers.len();
    let mut i: usize = 0;
    while i < n
        invariant
            i <= n,
            n == peers@.len(),
            forall|j: int| 0 <= j < i ==> peers@[j] != addr,
        decreases n - i,
    {
        if peers[i] == addr {
            return Some(i);
        }
        i += 1;
    }
    None
}

/// Copies a roster.
fn copy_roster(peers: &Vec<PeerAddr>) -> (r: Vec<PeerAddr>)
    ensures
        r@ == peers@,
{
    let n: usize = peers.len();
    let mut copy: Vec<PeerAddr> = Vec::new();
    let mut i: usize = 0;
    while i < n
        invariant
            i <= n,
            n == peers@.len(),
            copy@ == peers@.subrange(0, i as int),
        decreases n - i,
    {
        copy.push(peers[i]);
        assert(copy@ =~= peers@.subrange(0, i + 1));
        i += 1;
    }
    assert(copy@ =~= peers@);
    copy
}

/// Lists the players of a roster other than the one that receives at `own`.
fn other_players(peers: &Vec<PeerAddr>, own: PeerAddr) -> (r: Vec<PeerAddr>)
    ensures
        r@ == others(peers@, own),
{
    let n: usize = peers.len();
    let mut kept: Vec<PeerAddr> = Vec::new();
    let mut i: usize = 0;
    proof {
        reveal(Seq::filter);
        assert(peers@.subrange(0, 0) =~= Seq::<PeerAddr>::empty());
    }
    while i < n
        invariant
            i <= n,
            n == peers@.len(),
            kept@ == others(peers@.subrange(0, i as int), own),
        decreases n - i,
    {
        proof {
            reveal(Seq::filter);
            assert(peers@.subrange(0, i + 1).drop_last() =~= peers@.subrange(0, i as int));
        }
        if peers[i] != own {
            kept.push(peers[i]);
        }
        i += 1;
    }
    assert(peers@.subrange(0, n as int) =~= peers@);
    kept
}

impl Sender {
    /// Takes the socket in this player's seat of the roster for the socket
    /// at which it receives.
    pub fn settle(&mut self)
        ensures
            final(self).host_addr == old(self).host_addr,
            final(self).seat == old(self).seat,
            final(self).peer_addrs == old(self).peer_addrs,
            final(self).receiver_addr == own_socket(
                old(self).peer_addrs@,
                old(self).seat,
                old(self).receiver_addr,
            ),
    {
        match self.seat {
            Some(place) => {
                if place < self.peer_addrs.len() {
                    self.receiver_addr = self.peer_addrs[place];
                }
            },
            None => {},
        }
    }

    /// Takes the seat that the host tells this player.
    pub fn take_seat(&mut self, seat: usize)
        ensures
            final(self).host_addr == old(self).host_addr,
            final(self).peer_addrs == old(self).peer_addrs,
            final(self).seat == Some(seat),
            final(self).receiver_addr == own_socket(
                old(self).peer_addrs@,
                Some(seat),
                old(self).receiver_addr,
            ),
    {
        self.seat = Some(seat);
        self.settle();
    }

    /// Takes the roster that the host tells this player.
    pub fn take_roster(&mut self, peers: Vec<PeerAddr>)
        ensures
            final(self).host_addr == old(self).host_addr,
            final(self).seat == old(self).seat,
            final(self).peer_addrs == peers,
            final(self).receiver_addr == own_socket(peers@, old(self).seat, old(self).receiver_addr),
    {
        self.peer_addrs = peers;
        self.settle();
    }

    /// The sender of a player that joined the host at `host_addr`, with an
    /// empty roster. The player receives at `receiver_addr` and has no
    /// seat yet.
    pub fn new(host_addr: PeerAddr, receiver_addr: PeerAddr) -> (r: Sender)
        ensures
            r.host_addr == host_addr,
            r.receiver_addr == receiver_addr,
            r.seat is None,
            r.peer_addrs@.len() == 0,
    {
        Sender { host_addr, receiver_addr, seat: None, peer_addrs: Vec::new() }
    }

    /// Announces this player to the host: it joins, and it receives at
    /// `receiver_port`.
    pub fn register_self(&self, receiver_port: u16) -> (r: Outgoing)
        ensures
            r.event == NetworkEvent::PlayerJoin(receiver_port),
            r.recipients@ == seq![self.host_addr],
    {
        let mut recipients: Vec<PeerAddr> = Vec::new();
        recipients.push(self.host_addr);
        assert(recipients@ =~= seq![self.host_addr]);
        Outgoing { event: NetworkEvent::PlayerJoin(receiver_port), recipients }
    }

    /// Registers a player that receives at `client_addr`.
    ///
    /// A new player takes the next seat of the roster; one that is
    /// registered keeps its seat. The player is told its seat, and then
    /// every player of the roster is told the roster, with the port at which
    /// this host receives.
    pub fn register_remote_socket(&mut self, receiver_port: u16, client_addr: PeerAddr) -> (r: (
        Outgoing,
        Outgoing,
    ))
        ensures
            final(self).host_addr == old(self).host_addr,
            final(self).seat == old(self).seat,
            final(self).peer_addrs@ == roster_with(old(self).peer_addrs@, client_addr),
            final(self).receiver_addr == own_socket(
                final(self).peer_addrs@,
                old(self).seat,
                old(self).receiver_addr,
            ),
            r.0.event is ID,
            is_seat_of(final(self).peer_addrs@, client_addr, r.0.event->ID_0 as int),
            r.0.recipients@ == seq![client_addr],
            r.1.event is Peers,
            r.1.event->Peers_0 == receiver_port,
            r.1.event->Peers_1@ == final(self).peer_addrs@,
            r.1.recipients@ == final(self).peer_addrs@,
    {
        let seat: usize = match find_seat(&self.peer_addrs, client_addr) {
            Some(seat) => seat,
            None => {
                self.peer_addrs.push(client_addr);
                self.peer_addrs.len() - 1
            },
        };
        self.settle();
        let mut client: Vec<PeerAddr> = Vec::new();
        client.push(client_addr);
        assert(client@ =~= seq![client_addr]);
        let roster = copy_roster(&self.peer_addrs);
        let recipients = copy_roster(&self.peer_addrs);
        (
            Outgoing { event: NetworkEvent::ID(seat), recipients: client },
            Outgoing { event: NetworkEvent::Peers(receiver_port, roster), recipients },
        )
    }

    /// Tells every other player of the roster that a note was played: the
    /// note goes to each socket of the roster but the one at which this
    /// player receives, in the order of the roster.
    pub fn tick(&self, note: Note) -> (r: Outgoing)
        ensures
            r.event == NetworkEvent::Note(note),
            r.recipients@ == self.peer_addrs@.filter(|addr: PeerAddr| addr != self.receiver_addr),
            r.recipients@ == others(self.peer_addrs@, self.receiver_addr),
    {
        let recipients = other_players(&self.peer_addrs, self.receiver_addr);
        proof {
            lemma_filter_by_equal_tests(
                self.peer_addrs@,
                |addr: PeerAddr| addr != self.receiver_addr,
                is_other(self.receiver_addr),
            );
        }
        Outgoing { event: NetworkEvent::Note(note), recipients }
    }
}

/// A note goes to every other player and to nobody else: a socket is among
/// the recipients exactly if it stands in the roster and is not the
/// player's own, and the player's own is never among them.
pub proof fn lemma_others(peers: Seq<PeerAddr>, own: PeerAddr, addr: PeerAddr)
    ensures
        others(peers, own).contains(addr) <==> peers.contains(addr) && addr != own,
        !others(peers, own).contains(own),
        !peers.contains(own) ==> others(peers, own) == peers,
    decreases peers.len(),
{
    reveal(Seq::filter);
    if peers.len() > 0 {
        let front = peers.drop_last();
        lemma_others(front, own, addr);
        lemma_others(front, own, own);
        let kept = others(front, own);
        if peers.contains(addr) {
            let i = choose|i: int| 0 <= i < peers.len() && peers[i] == addr;
            if i < front.len() {
                assert(front[i] == addr);
            }
        }
        if front.contains(addr) {
            let i = choose|i: int| 0 <= i < front.len() && front[i] == addr;
            assert(peers[i] == addr);
        }
        if peers.last() != own {
            let all = kept.push(peers.last());
            assert(all.last() == peers.last());
            assert forall|x: PeerAddr| all.contains(x) <==> kept.contains(x) || x == peers.last() by {
                if all.contains(x) {
                    let i = choose|i: int| 0 <= i < all.len() && all[i] == x;
                    if i < kept.len() {
                        assert(kept[i] == x);
                    }
                }
                if kept.contains(x) {
                    let i = choose|i: int| 0 <= i < kept.len() && kept[i] == x;
                    assert(all[i] == x);
                }
                if x == peers.last() {
                    assert(all[kept.len() as int] == x);
                }
            }
            assert(peers.contains(peers.last())) by {
                assert(peers[peers.len() - 1] == peers.last());
            }
        } else {
            assert(peers.contains(own)) by {
                assert(peers[peers.len() - 1] == own);
            }
        }
        if !peers.contains(own) {
            assert(!front.contains(own)) by {
                if front.contains(own) {
                    let i = choose|i: int| 0 <= i < front.len() && front[i] == own;
                    assert(peers[i] == own);
                }
            }
            assert(kept.push(peers.last()) =~= peers);
        }
    }
}

/// Registering keeps a roster free of duplicates, keeps the seats of the
/// players that are in it, and gives the player that registers a seat of
/// its own.
pub proof fn lemma_registering_keeps_seats(peers: Seq<PeerAddr>, addr: PeerAddr)
    requires
        no_duplicates(peers),
    ensures
        no_duplicates(roster_with(peers, addr)),
        roster_with(peers, addr).contains(addr),
        forall|other: PeerAddr, seat: int|
            is_seat_of(peers, other, seat) ==> is_seat_of(roster_with(peers, addr), other, seat),
        forall|a: int, b: int|
            is_seat_of(roster_with(peers, addr), addr, a) && is_seat_of(
                roster_with(peers, addr),
                addr,
                b,
            ) ==> a == b,
{
    let after = roster_with(peers, addr);
    if peers.contains(addr) {
    } else {
        assert(after[peers.len() as int] == addr);
        assert forall|i: int, j: int| 0 <= i < j < after.len() implies after[i] != after[j] by {
            if j == peers.len() {
                assert(peers[i] == after[i]);
                assert(peers.contains(after[i]));
            } else {
                assert(peers[i] == after[i] && peers[j] == after[j]);
            }
        }
    }
}

} // verus!

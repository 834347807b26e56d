//! The hub as a state machine over mathematical values: what each event does
//! to the registry and the board, and which packets it sends to whom.

use crate::board::{BoardView, Square, Turn};
use crate::codec::wire_text;
use crate::packets::{DecodeError, PacketView};
use crate::server::{is_broadcast, is_emit, Delivery, User};
use vstd::prelude::*;

verus! {

/// The code that every failure notice carries.
pub const FAILURE_CODE: u64 = 401;

/// The text of the notice for a connection that comes after the game has
/// started.
pub open spec fn started_text() -> Seq<char> {
    "Game has already started"@
}

/// The text of the notice for a payload that is no packet.
pub open spec fn invalid_text() -> Seq<char> {
    "Invalid request"@
}

/// The chat text that announces a departure.
pub open spec fn departure_text() -> Seq<char> {
    "User has left the room"@
}

/// An event that the hub takes.
pub enum HubEvent<H> {
    /// A connection has joined, with its push handle.
    Connect(u128, H),
    /// A connection has gone.
    Disconnect(u128),
    /// A connection has sent a text, which was read as a packet or refused.
    Payload(u128, Result<PacketView, DecodeError>),
}

/// One packet for a set of connections, each of which gets it once.
pub struct Send {
    pub to: Set<u128>,
    pub packet: PacketView,
}

/// The mathematical value of the hub: its registry and its board.
pub struct HubView<H> {
    pub connections: Map<u128, User<H>>,
    pub board: BoardView,
}

impl<H> HubView<H> {
    /// The hub to which nothing has happened yet.
    pub open spec fn fresh() -> Self {
        HubView { connections: Map::empty(), board: BoardView::fresh() }
    }

    /// What holds of the hub at all times: at most two connections, at most
    /// one while the game has not started, each entry under its own identity,
    /// and a board of nine squares.
    pub open spec fn inv(self) -> bool {
        &&& self.connections.dom().finite()
        &&& self.connections.len() <= 2
        &&& !self.board.active ==> self.connections.len() <= 1
        &&& self.board.cells.len() == 9
        &&& forall|id: u128| #[trigger]
            self.connections.contains_key(id) ==> self.connections[id].id == id
    }

    /// The hub after a connection has joined. Once the game has started
    /// nobody is let in; before that the connection is registered, and the
    /// game starts with the second one.
    pub open spec fn connected(self, id: u128, socket: H) -> Self {
        if self.board.active {
            self
        } else {
            let connections = self.connections.insert(id, User { id, socket });
            HubView {
                connections,
                board: if connections.len() >= 2 {
                    self.board.started()
                } else {
                    self.board
                },
            }
        }
    }

    /// The hub after a connection has gone.
    pub open spec fn disconnected(self, id: u128) -> Self {
        HubView { connections: self.connections.remove(id), board: self.board }
    }

    /// The hub after a move. A move to a square of the grid is written
    /// whatever the square held and whoever moves; one outside the grid
    /// writes nothing.
    pub open spec fn moved(self, row: usize, column: usize, square: Square) -> Self {
        if row < 3 && column < 3 {
            HubView {
                connections: self.connections,
                board: self.board.put(row as int, column as int, square),
            }
        } else {
            self
        }
    }

    /// The hub after a payload of the connection `id`. Only a move of a
    /// registered connection changes anything.
    pub open spec fn received(self, id: u128, input: Result<PacketView, DecodeError>) -> Self {
        if self.connections.contains_key(id) {
            match input {
                Ok(PacketView::SetSquare(row, column, square)) => self.moved(row, column, square),
                _ => self,
            }
        } else {
            self
        }
    }

    /// The hub after an event.
    pub open spec fn step(self, event: HubEvent<H>) -> Self {
        match event {
            HubEvent::Connect(id, socket) => self.connected(id, socket),
            HubEvent::Disconnect(id) => self.disconnected(id),
            HubEvent::Payload(id, input) => self.received(id, input),
        }
    }

    /// The role that a connection gets when it is registered: X if it is
    /// then alone in the registry, else O.
    pub open spec fn role(self) -> Turn {
        if self.connections.len() == 1 {
            Turn::X
        } else {
            Turn::O
        }
    }

    /// The packets that the hub sends to registered connections in answer to
    /// an event, in order.
    pub open spec fn response(self, event: HubEvent<H>) -> Seq<Send> {
        let all = self.connections.dom();
        match event {
            HubEvent::Connect(id, socket) => {
                let after = self.connected(id, socket);
                let everyone = after.connections.dom();
                let role = Send { to: set![id], packet: PacketView::RoleUpdate(after.role()) };
                if self.board.active {
                    Seq::empty()
                } else if after.connections.len() >= 2 {
                    seq![
                        Send { to: everyone, packet: PacketView::TurnUpdate(after.board.turn()) },
                        Send { to: everyone, packet: PacketView::BoardUpdate(after.board) },
                        role,
                    ]
                } else {
                    seq![role]
                }
            },
            HubEvent::Disconnect(id) => seq![
                Send { to: all, packet: PacketView::Message(departure_text()) },
            ],
            HubEvent::Payload(id, input) => {
                if !self.connections.contains_key(id) {
                    Seq::empty()
                } else {
                    match input {
                        Err(_) => seq![
                            Send {
                                to: set![id],
                                packet: PacketView::Error(FAILURE_CODE, invalid_text()),
                            },
                        ],
                        Ok(PacketView::Message(text)) => seq![
                            Send { to: all, packet: PacketView::Message(text) },
                        ],
                        Ok(PacketView::GetBoard(_)) => seq![
                            Send { to: set![id], packet: PacketView::BoardUpdate(self.board) },
                        ],
                        Ok(PacketView::SetSquare(row, column, square)) => {
                            let after = self.moved(row, column, square);
                            seq![
                                Send { to: all, packet: PacketView::BoardUpdate(after.board) },
                                Send {
                                    to: all,
                                    packet: PacketView::TurnUpdate(after.board.turn()),
                                },
                            ]
                        },
                        Ok(_) => Seq::empty(),
                    }
                }
            },
        }
    }

    /// The notice for a connection that is not let in: there is one exactly
    /// when a connection joins after the game has started.
    pub open spec fn refusal(self, event: HubEvent<H>) -> Option<PacketView> {
        if event is Connect && self.board.active {
            Some(PacketView::Error(FAILURE_CODE, started_text()))
        } else {
            None
        }
    }

    /// The hub after a sequence of events.
    pub open spec fn run(self, events: Seq<HubEvent<H>>) -> Self
        decreases events.len(),
    {
        if events.len() == 0 {
            self
        } else {
            self.run(events.drop_last()).step(events.last())
        }
    }
}

/// The frames `out` carry the packets `sends`, one after the other: for each
/// of them a broadcast of its wire text to its connections.
pub open spec fn carries(out: Seq<Delivery>, sends: Seq<Send>) -> bool
    decreases sends.len(),
{
    if sends.len() == 0 {
        out.len() == 0
    } else {
        let count = sends[0].to.len() as int;
        &&& count <= out.len()
        &&& is_broadcast(out.subrange(0, count), sends[0].to, wire_text(sends[0].packet))
        &&& carries(out.subrange(count, out.len() as int), sends.drop_first())
    }
}

/// A broadcast followed by frames that carry some packets carries the
/// broadcast packet and then those.
pub proof fn lemma_carries_more(chunk: Seq<Delivery>, first: Send, rest: Seq<Delivery>, sends: Seq<Send>)
    requires
        is_broadcast(chunk, first.to, wire_text(first.packet)),
        carries(rest, sends),
    ensures
        carries(chunk + rest, seq![first] + sends),
{
    let out = chunk + rest;
    let all = seq![first] + sends;
    let count = first.to.len() as int;
    assert(all[0] == first);
    assert(out.subrange(0, count) =~= chunk);
    assert(out.subrange(count, out.len() as int) =~= rest);
    assert(all.drop_first() =~= sends);
}

/// Frames that go, one each and with one text, to the connections of a list
/// without repetitions are a broadcast to the set of that list.
pub proof fn lemma_broadcast(out: Seq<Delivery>, keys: Seq<u128>, to: Set<u128>, text: Seq<char>)
    requires
        keys.to_set() == to,
        keys.no_duplicates(),
        keys.len() == to.len(),
        out.len() == keys.len(),
        forall|j: int| 0 <= j < keys.len() ==> (#[trigger] out[j]).to == keys[j],
        forall|j: int| 0 <= j < keys.len() ==> (#[trigger] out[j]).message@ == text,
    ensures
        is_broadcast(out, to, text),
{
    assert forall|i: int| 0 <= i < out.len() implies to.contains((#[trigger] out[i]).to) by {
        assert(keys.contains(keys[i]));
    }
    assert forall|id: u128| #[trigger] to.contains(id) implies exists|i: int|
        0 <= i < out.len() && (#[trigger] out[i]).to == id by {
        assert(keys.contains(id));
        let i = choose|i: int| 0 <= i < keys.len() && keys[i] == id;
        assert(out[i].to == id);
    }
}

/// One frame for a connection is a broadcast to that connection alone.
pub proof fn lemma_emit_is_broadcast(out: Seq<Delivery>, to: u128, text: Seq<char>)
    requires
        is_emit(out, to, text),
    ensures
        is_broadcast(out, set![to], text),
{
    assert(set![to].len() == 1) by {
        assert(set![to] =~= Set::<u128>::empty().insert(to));
    }
    assert(out[0].to == to);
}

/// Frames that carry some packets, followed by frames that carry more, carry
/// all of them.
pub proof fn lemma_carries_end(out: Seq<Delivery>, sends: Seq<Send>, rest: Seq<Delivery>, more: Seq<Send>)
    requires
        carries(out, sends),
        carries(rest, more),
    ensures
        carries(out + rest, sends + more),
    decreases sends.len(),
{
    if sends.len() == 0 {
        assert(out + rest =~= rest);
        assert(sends + more =~= more);
    } else {
        let count = sends[0].to.len() as int;
        let chunk = out.subrange(0, count);
        let tail = out.subrange(count, out.len() as int);
        lemma_carries_end(tail, sends.drop_first(), rest, more);
        lemma_carries_more(chunk, sends[0], tail + rest, sends.drop_first() + more);
        assert(chunk + (tail + rest) =~= out + rest);
        assert(seq![sends[0]] + (sends.drop_first() + more) =~= sends + more);
    }
}

/// Every event keeps what holds of the hub at all times.
pub proof fn lemma_step_keeps_inv<H>(hub: HubView<H>, event: HubEvent<H>)
    requires
        hub.inv(),
    ensures
        hub.step(event).inv(),
{
    let after = hub.step(event);
    match event {
        HubEvent::Connect(id, socket) => {
            if !hub.board.active {
                assert(after.connections.dom() =~= hub.connections.dom().insert(id));
            }
        },
        HubEvent::Disconnect(id) => {
            assert(after.connections.dom() =~= hub.connections.dom().remove(id));
        },
        HubEvent::Payload(id, input) => {},
    }
}

/// Whatever the events, the registry never holds more than two connections,
/// nor more than one while the game has not started.
pub proof fn lemma_registry_bounded<H>(events: Seq<HubEvent<H>>)
    ensures
        HubView::<H>::fresh().run(events).inv(),
        HubView::<H>::fresh().run(events).connections.len() <= 2,
        !HubView::<H>::fresh().run(events).board.active ==> HubView::<H>::fresh().run(
            events,
        ).connections.len() <= 1,
    decreases events.len(),
{
    if events.len() == 0 {
        assert(HubView::<H>::fresh().connections.dom() =~= Set::empty());
    } else {
        lemma_registry_bounded(events.drop_last());
        lemma_step_keeps_inv(HubView::<H>::fresh().run(events.drop_last()), events.last());
    }
}

/// A connection that joins after the game has started is refused, and the
/// hub stays as it was.
pub proof fn lemma_late_connect_refused<H>(hub: HubView<H>, id: u128, socket: H)
    requires
        hub.board.active,
    ensures
        hub.step(HubEvent::Connect(id, socket)) == hub,
        hub.response(HubEvent::Connect(id, socket)).len() == 0,
        hub.refusal(HubEvent::Connect(id, socket)) is Some,
{
}

/// A game that has started stays started, whatever the event.
pub proof fn lemma_started_for_good<H>(hub: HubView<H>, event: HubEvent<H>)
    requires
        hub.board.active,
    ensures
        hub.step(event).board.active,
{
}

/// The first connection to register with an empty hub gets the role X, and
/// another one that joins next gets the role O.
pub proof fn lemma_roles<H>(hub: HubView<H>, first: u128, first_socket: H, second: u128, second_socket: H)
    requires
        hub.inv(),
        !hub.board.active,
        hub.connections.len() == 0,
        first != second,
    ensures
        hub.response(HubEvent::Connect(first, first_socket)) == seq![
            Send { to: set![first], packet: PacketView::RoleUpdate(Turn::X) },
        ],
        hub.step(HubEvent::Connect(first, first_socket)).response(
            HubEvent::Connect(second, second_socket),
        ).last() == (Send { to: set![second], packet: PacketView::RoleUpdate(Turn::O) }),
{
    let one = hub.step(HubEvent::Connect(first, first_socket));
    assert(one.connections.dom() =~= hub.connections.dom().insert(first));
    let two = one.step(HubEvent::Connect(second, second_socket));
    assert(two.connections.dom() =~= one.connections.dom().insert(second));
}

/// A role is told once: only a connection that is let in gets a role packet,
/// as the last packet of the answer, and no other event sends one.
pub proof fn lemma_role_told_once<H>(hub: HubView<H>, event: HubEvent<H>)
    ensures
        forall|i: int|
            0 <= i < hub.response(event).len() && (#[trigger] hub.response(
                event,
            )[i]).packet is RoleUpdate ==> {
                &&& event matches HubEvent::Connect(id, _)
                &&& i == hub.response(event).len() - 1
                &&& hub.response(event)[i].to == set![id]
            },
{
}

} // verus!

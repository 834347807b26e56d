//! The hub: the one owner of the registry of connections and of the board.
//! It takes the events one at a time and answers each with the frames to
//! push, in the order in which they are to be pushed.

use crate::board::{Board, Turn};
use crate::codec::{decoded, from_json, to_json, wire_text};
use crate::hub::{
    carries, departure_text, invalid_text, lemma_broadcast, lemma_carries_end, lemma_carries_more,
    lemma_emit_is_broadcast, lemma_step_keeps_inv, started_text, HubEvent, HubView, Send,
    FAILURE_CODE,
};
use crate::messages::{Connect, Disconnect, Packet, WsMessage};
use crate::packets::{DecodeError, PacketType, PacketView};
use std::collections::HashMap;
use vstd::prelude::*;

verus! {

/// A registered connection: its identity and its push handle.
#[derive(Debug)]
pub struct User<H> {
    pub id: u128,
    pub socket: H,
}

impl<H> User<H> {
    /// The connection `id` with its push handle.
    pub fn new(id: u128, socket: H) -> (user: User<H>)
        ensures
            user == (User { id, socket }),
    {
        User { id, socket }
    }
}

/// One frame to push: the connection that gets it, and the frame.
#[derive(Clone, Debug, PartialEq, Eq)]
pub struct Delivery {
    pub to: u128,
    pub message: WsMessage,
}

/// The frames `out` are one frame with the text `text` for the connection
/// `to`.
pub open spec fn is_emit(out: Seq<Delivery>, to: u128, text: Seq<char>) -> bool {
    &&& out.len() == 1
    &&& out[0].to == to
    &&& out[0].message@ == text
}

/// The frames `out` are a broadcast of `text` to the connections `to`: each
/// of them gets the text exactly once, and nobody else gets anything. The
/// order among the connections is open.
pub open spec fn is_broadcast(out: Seq<Delivery>, to: Set<u128>, text: Seq<char>) -> bool {
    &&& out.len() == to.len()
    &&& forall|i: int| 0 <= i < out.len() ==> to.contains((#[trigger] out[i]).to)
    &&& forall|i: int| 0 <= i < out.len() ==> (#[trigger] out[i]).message@ == text
    &&& forall|i: int, j: int|
        0 <= i < j < out.len() ==> (#[trigger] out[i]).to != (#[trigger] out[j]).to
    &&& forall|id: u128| #[trigger]
        to.contains(id) ==> exists|i: int| 0 <= i < out.len() && (#[trigger] out[i]).to == id
}

/// What is owed to a connection that was not let in: the connection, and the
/// notice to push to it before it is dropped.
#[derive(Debug)]
pub struct Refusal<H> {
    pub user: User<H>,
    pub notice: WsMessage,
}

/// The hub's answer to a connection that has joined: the frames for the
/// registered connections, and the refusal if it was not let in.
#[derive(Debug)]
pub struct Admission<H> {
    pub deliveries: Vec<Delivery>,
    pub refused: Option<Refusal<H>>,
}

/// The hub's answer to a departure: the frames for the connections that were
/// registered when it came, and the connection that left the registry, for
/// whom one of the frames is.
#[derive(Debug)]
pub struct Departure<H> {
    pub deliveries: Vec<Delivery>,
    pub removed: Option<User<H>>,
}

/// An outcome of decoding as a mathematical value.
pub open spec fn input_view(input: Result<PacketType, DecodeError>) -> Result<
    PacketView,
    DecodeError,
> {
    match input {
        Ok(packet) => Ok(packet@),
        Err(error) => Err(error),
    }
}

/// The hub.
#[derive(Debug)]
pub struct Server<H> {
    connections: HashMap<u128, User<H>>,
    board: Board,
}

impl<H> View for Server<H> {
    type V = HubView<H>;

    closed spec fn view(&self) -> HubView<H> {
        HubView { connections: self.connections@, board: self.board@ }
    }
}

impl<H> Server<H> {
    /// The hub to which nothing has happened yet.
    pub fn new() -> (server: Server<H>)
        ensures
            server@ == HubView::<H>::fresh(),
            server@.inv(),
    {
        let server = Server { connections: HashMap::new(), board: Board::default() };
        assert(server@.connections.dom() =~= Set::empty());
        server
    }

    /// The number of registered connections.
    pub fn len(&self) -> (count: usize)
        ensures
            count == self@.connections.len(),
    {
        self.connections.len()
    }

    /// Whether the connection `id` is registered.
    pub fn contains(&self, id: &u128) -> (known: bool)
        ensures
            known == self@.connections.contains_key(*id),
    {
        self.connections.contains_key(id)
    }

    /// The registered connection `id`, if there is one.
    pub fn get(&self, id: &u128) -> (found: Option<&User<H>>)
        ensures
            match found {
                Some(user) => self@.connections.contains_key(*id) && *user
                    == self@.connections[*id],
                None => !self@.connections.contains_key(*id),
            },
    {
        self.connections.get(id)
    }

    /// The board as it stands.
    pub fn board(&self) -> (board: Board)
        ensures
            board@ == self@.board,
    {
        self.board
    }

    /// The frames that carry `data` to the connection `id`: one if it is
    /// registered, none if it is not.
    pub fn emit(&self, data: &str, id: &u128) -> (out: Vec<Delivery>)
        ensures
            self@.connections.contains_key(*id) ==> is_emit(out@, *id, data@),
            !self@.connections.contains_key(*id) ==> out@.len() == 0,
    {
        let mut out: Vec<Delivery> = Vec::new();
        if self.connections.contains_key(id) {
            out.push(Delivery { to: *id, message: WsMessage(data.to_owned()) });
        }
        out
    }

    /// The frames that carry `data` to every registered connection.
    pub fn broadcast(&self, data: &str) -> (out: Vec<Delivery>)
        ensures
            is_broadcast(out@, self@.connections.dom(), data@),
    {
        let mut out: Vec<Delivery> = Vec::new();
        let ghost registered = self.connections@.dom();
        let ghost mut seen: Seq<u128> = Seq::empty();
        for id in iter: self.connections.keys()
            invariant
                registered == self.connections@.dom(),
                iter.seq().unref().to_set() == registered,
                iter.seq().no_duplicates(),
                iter.seq().len() == registered.len(),
                seen.len() == iter.index(),
                out@.len() == seen.len(),
                forall|j: int| 0 <= j < seen.len() ==> (#[trigger] seen[j]) == *iter.seq()[j],
                forall|j: int| 0 <= j < seen.len() ==> (#[trigger] out@[j]).to == seen[j],
                forall|j: int| 0 <= j < seen.len() ==> (#[trigger] out@[j]).message@ == data@,
                iter.index() == iter.seq().len() ==> seen =~= iter.seq().unref(),
                seen.no_duplicates(),
        {
            out.push(Delivery { to: *id, message: WsMessage(data.to_owned()) });
            proof {
                seen = seen.push(*id);
            }
        }
        proof {
            lemma_broadcast(out@, seen, registered, data@);
        }
        out
    }

    /// Takes a connection that has joined. After the game has started it is
    /// refused with a notice and the hub stays as it was. Before that it is
    /// registered; with the second connection the game starts, and everyone
    /// is told the turn and the board; last, the newcomer is told its role.
    pub fn handle_connect(&mut self, packet: Connect<H>) -> (outcome: Admission<H>)
        ensures
            final(self)@ == old(self)@.step(HubEvent::Connect(packet.id, packet.addr)),
            carries(
                outcome.deliveries@,
                old(self)@.response(HubEvent::Connect(packet.id, packet.addr)),
            ),
            old(self)@.board.active ==> ({
                &&& outcome.refused matches Some(refusal)
                &&& refusal.user == (User { id: packet.id, socket: packet.addr })
                &&& refusal.notice@ == wire_text(PacketView::Error(FAILURE_CODE, started_text()))
            }),
            !old(self)@.board.active ==> outcome.refused is None,
            old(self)@.inv() ==> final(self)@.inv(),
    {
        let ghost before = self@;
        let ghost event = HubEvent::Connect(packet.id, packet.addr);
        proof {
            if before.inv() {
                lemma_step_keeps_inv(before, event);
            }
        }
        let Connect { addr, id } = packet;
        if self.board.active {
            let notice = to_json(PacketType::Error(FAILURE_CODE, "Game has already started".to_owned()));
            return Admission {
                deliveries: Vec::new(),
                refused: Some(Refusal { user: User::new(id, addr), notice: WsMessage(notice) }),
            };
        }
        self.connections.insert(id, User::new(id, addr));
        let mut deliveries: Vec<Delivery> = Vec::new();
        let ghost mut sends: Seq<Send> = Seq::empty();
        if self.connections.len() >= 2 {
            self.board.start();
            let turn_text = to_json(PacketType::TurnUpdate(self.board.get_current_turn()));
            let mut turn = self.broadcast(turn_text.as_str());
            let board_text = to_json(PacketType::BoardUpdate(self.board));
            let mut board = self.broadcast(board_text.as_str());
            proof {
                let everyone = self@.connections.dom();
                let told_board = Send { to: everyone, packet: PacketView::BoardUpdate(self@.board) };
                let told_turn = Send {
                    to: everyone,
                    packet: PacketView::TurnUpdate(self@.board.turn()),
                };
                lemma_carries_more(board@, told_board, Seq::empty(), Seq::empty());
                lemma_carries_more(turn@, told_turn, board@ + Seq::empty(), seq![told_board] + Seq::empty());
                sends = seq![told_turn] + (seq![told_board] + Seq::empty());
                assert(turn@ + (board@ + Seq::empty()) =~= turn@ + board@);
            }
            deliveries.append(&mut turn);
            deliveries.append(&mut board);
        }
        assert(self@ == before.step(event));
        let role = if self.connections.len() == 1 {
            Turn::X
        } else {
            Turn::O
        };
        let role_text = to_json(PacketType::RoleUpdate(role));
        let mut last = self.emit(role_text.as_str(), &id);
        proof {
            let told_role = Send { to: set![id], packet: PacketView::RoleUpdate(role) };
            lemma_emit_is_broadcast(last@, id, role_text@);
            lemma_carries_more(last@, told_role, Seq::empty(), Seq::empty());
            lemma_carries_end(deliveries@, sends, last@, seq![told_role]);
            assert(last@ + Seq::empty() =~= last@);
            assert(sends + (seq![told_role] + Seq::empty()) =~= before.response(event));
        }
        deliveries.append(&mut last);
        Admission { deliveries, refused: None }
    }

    /// Takes the departure of a connection: everyone still registered, the
    /// one that goes among them, is told that a user has left; then the
    /// connection is taken off the registry and handed back.
    pub fn handle_disconnect(&mut self, packet: Disconnect) -> (outcome: Departure<H>)
        ensures
            final(self)@ == old(self)@.step(HubEvent::Disconnect(packet.id)),
            carries(outcome.deliveries@, old(self)@.response(HubEvent::Disconnect(packet.id))),
            outcome.removed == (if old(self)@.connections.contains_key(packet.id) {
                Some(old(self)@.connections[packet.id])
            } else {
                None
            }),
            old(self)@.inv() ==> final(self)@.inv(),
    {
        let ghost before = self@;
        let ghost event = HubEvent::<H>::Disconnect(packet.id);
        proof {
            if before.inv() {
                lemma_step_keeps_inv(before, event);
            }
        }
        let text = to_json(PacketType::Message("User has left the room".to_owned()));
        let deliveries = self.broadcast(text.as_str());
        proof {
            let told = Send {
                to: before.connections.dom(),
                packet: PacketView::Message(departure_text()),
            };
            lemma_carries_more(deliveries@, told, Seq::empty(), Seq::empty());
            assert(deliveries@ + Seq::empty() =~= deliveries@);
            assert(seq![told] + Seq::empty() =~= before.response(event));
        }
        let removed = self.connections.remove(&packet.id);
        Departure { deliveries, removed }
    }

    /// Takes what a connection has sent, once it has been read as a packet or
    /// refused. Nothing happens for a connection that is not registered. A
    /// text that is no packet earns its sender a notice. Chat text goes to
    /// everyone. A request for the board is answered to its sender. A move
    /// is written to the board, and everyone is told the board and the turn.
    /// Packets that only the hub sends are passed over.
    pub fn dispatch(&mut self, id: u128, input: Result<PacketType, DecodeError>) -> (out: Vec<
        Delivery,
    >)
        ensures
            final(self)@ == old(self)@.step(HubEvent::Payload(id, input_view(input))),
            carries(out@, old(self)@.response(HubEvent::Payload(id, input_view(input)))),
            old(self)@.inv() ==> final(self)@.inv(),
    {
        let ghost before = self@;
        let ghost event = HubEvent::<H>::Payload(id, input_view(input));
        proof {
            if before.inv() {
                lemma_step_keeps_inv(before, event);
            }
        }
        if !self.connections.contains_key(&id) {
            return Vec::new();
        }
        let ghost all = before.connections.dom();
        match input {
            Err(_) => {
                let text = to_json(PacketType::Error(FAILURE_CODE, "Invalid request".to_owned()));
                let out = self.emit(text.as_str(), &id);
                proof {
                    let told = Send {
                        to: set![id],
                        packet: PacketView::Error(FAILURE_CODE, invalid_text()),
                    };
                    lemma_emit_is_broadcast(out@, id, text@);
                    lemma_carries_more(out@, told, Seq::empty(), Seq::empty());
                    assert(out@ + Seq::empty() =~= out@);
                    assert(seq![told] + Seq::empty() =~= before.response(event));
                }
                out
            },
            Ok(PacketType::Message(content)) => {
                let ghost told = Send { to: all, packet: PacketView::Message(content@) };
                let text = to_json(PacketType::Message(content));
                let out = self.broadcast(text.as_str());
                proof {
                    lemma_carries_more(out@, told, Seq::empty(), Seq::empty());
                    assert(out@ + Seq::empty() =~= out@);
                    assert(seq![told] + Seq::empty() =~= before.response(event));
                }
                out
            },
            Ok(PacketType::GetBoard(_)) => {
                let text = to_json(PacketType::BoardUpdate(self.board));
                let out = self.emit(text.as_str(), &id);
                proof {
                    let told = Send { to: set![id], packet: PacketView::BoardUpdate(before.board) };
                    lemma_emit_is_broadcast(out@, id, text@);
                    lemma_carries_more(out@, told, Seq::empty(), Seq::empty());
                    assert(out@ + Seq::empty() =~= out@);
                    assert(seq![told] + Seq::empty() =~= before.response(event));
                }
                out
            },
            Ok(PacketType::SetSquare(row, column, square)) => {
                if row < 3 && column < 3 {
                    self.board.set_square(row, column, square);
                }
                let board_text = to_json(PacketType::BoardUpdate(self.board));
                let mut out = self.broadcast(board_text.as_str());
                let turn_text = to_json(PacketType::TurnUpdate(self.board.get_current_turn()));
                let mut turn = self.broadcast(turn_text.as_str());
                proof {
                    let told_board = Send { to: all, packet: PacketView::BoardUpdate(self@.board) };
                    let told_turn = Send {
                        to: all,
                        packet: PacketView::TurnUpdate(self@.board.turn()),
                    };
                    lemma_carries_more(turn@, told_turn, Seq::empty(), Seq::empty());
                    lemma_carries_more(out@, told_board, turn@ + Seq::empty(), seq![told_turn] + Seq::empty());
                    assert(out@ + (turn@ + Seq::empty()) =~= out@ + turn@);
                    assert(seq![told_board] + (seq![told_turn] + Seq::empty()) =~= before.response(
                        event,
                    ));
                }
                out.append(&mut turn);
                out
            },
            Ok(_) => Vec::new(),
        }
    }

    /// Takes a text that a connection has sent: the text of a registered
    /// connection is read as a packet, and the outcome dispatched.
    pub fn handle_packet(&mut self, packet: Packet) -> (out: Vec<Delivery>)
        ensures
            final(self)@ == old(self)@.step(HubEvent::Payload(packet.id, decoded(packet.data@))),
            carries(out@, old(self)@.response(HubEvent::Payload(packet.id, decoded(packet.data@)))),
            old(self)@.inv() ==> final(self)@.inv(),
    {
        if self.connections.contains_key(&packet.id) {
            let input = from_json(packet.data.as_str());
            self.dispatch(packet.id, input)
        } else {
            Vec::new()
        }
    }
}

impl<H> Default for Server<H> {
    fn default() -> (server: Server<H>)
        ensures
            server@ == HubView::<H>::fresh(),
            server@.inv(),
    {
        Server::new()
    }
}

} // verus!

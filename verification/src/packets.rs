//! The packets that the hub and its connections exchange.

use crate::board::{Board, BoardView, Square, Turn};
use vstd::prelude::*;

verus! {

/// One message of the protocol, in either direction.
#[derive(Clone, Debug, PartialEq, Eq)]
pub enum PacketType {
    /// Chat text, in both directions.
    Message(String),
    /// A request for the board; its text is not read.
    GetBoard(String),
    /// A move: row, column and the mark to write.
    SetSquare(usize, usize, Square),
    /// The whole board, sent by the hub.
    BoardUpdate(Board),
    /// Whose turn it is, sent by the hub.
    TurnUpdate(Turn),
    /// The role given to the connection that receives it.
    RoleUpdate(Turn),
    /// A failure notice: a code and a text.
    Error(u64, String),
}

/// The mathematical value of a packet.
pub enum PacketView {
    Message(Seq<char>),
    GetBoard(Seq<char>),
    SetSquare(usize, usize, Square),
    BoardUpdate(BoardView),
    TurnUpdate(Turn),
    RoleUpdate(Turn),
    Error(u64, Seq<char>),
}

impl PacketView {
    /// Whether this is the value of some packet: a board in it has nine
    /// squares.
    pub open spec fn well_formed(self) -> bool {
        self matches PacketView::BoardUpdate(board) ==> board.cells.len() == 9
    }

    /// The name of the variant, which is also its tag on the wire.
    pub open spec fn name(self) -> Seq<char> {
        match self {
            PacketView::Message(_) => "Message"@,
            PacketView::GetBoard(_) => "GetBoard"@,
            PacketView::SetSquare(_, _, _) => "SetSquare"@,
            PacketView::BoardUpdate(_) => "BoardUpdate"@,
            PacketView::TurnUpdate(_) => "TurnUpdate"@,
            PacketView::RoleUpdate(_) => "RoleUpdate"@,
            PacketView::Error(_, _) => "Error"@,
        }
    }
}

impl View for PacketType {
    type V = PacketView;

    open spec fn view(&self) -> PacketView {
        match self {
            PacketType::Message(text) => PacketView::Message(text@),
            PacketType::GetBoard(text) => PacketView::GetBoard(text@),
            PacketType::SetSquare(row, column, square) => PacketView::SetSquare(
                *row,
                *column,
                *square,
            ),
            PacketType::BoardUpdate(board) => PacketView::BoardUpdate(board@),
            PacketType::TurnUpdate(turn) => PacketView::TurnUpdate(*turn),
            PacketType::RoleUpdate(turn) => PacketView::RoleUpdate(*turn),
            PacketType::Error(code, text) => PacketView::Error(*code, text@),
        }
    }
}

impl PacketType {
    /// The name of the variant.
    pub fn to_string(&self) -> (name: String)
        ensures
            name@ == self@.name(),
    {
        match self {
            PacketType::Message(_) => "Message".to_owned(),
            PacketType::GetBoard(_) => "GetBoard".to_owned(),
            PacketType::SetSquare(_, _, _) => "SetSquare".to_owned(),
            PacketType::BoardUpdate(_) => "BoardUpdate".to_owned(),
            PacketType::TurnUpdate(_) => "TurnUpdate".to_owned(),
            PacketType::RoleUpdate(_) => "RoleUpdate".to_owned(),
            PacketType::Error(_, _) => "Error".to_owned(),
        }
    }
}

/// Why a text or a document is no packet.
#[derive(Copy, Clone, Debug, PartialEq, Eq, Structural)]
pub enum DecodeError {
    /// No JSON text, or no object with a text under `type` and a member
    /// `data`.
    Malformed,
    /// The text under `type` names no packet.
    UnknownTag,
    /// What stands under `data` does not fit the packet named.
    Mismatch,
}

} // verus!

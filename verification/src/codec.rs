//! The wire form of the packets: each is a JSON object with the packet's name
//! under `type` and its content under `data`.

use crate::board::{grid_cells, Board, BoardView, Square, Turn};
use crate::json::{lookup, parsed, rendered, Json, JsonDoc};
use crate::packets::{DecodeError, PacketType, PacketView};
use vstd::prelude::*;

verus! {

/// The name under which a square is written.
pub open spec fn square_name(square: Square) -> Seq<char> {
    match square {
        Square::Empty => "Empty"@,
        Square::X => "X"@,
        Square::O => "O"@,
    }
}

/// The square that a name stands for.
pub open spec fn square_named(name: Seq<char>) -> Option<Square> {
    if name == "Empty"@ {
        Some(Square::Empty)
    } else if name == "X"@ {
        Some(Square::X)
    } else if name == "O"@ {
        Some(Square::O)
    } else {
        None
    }
}

/// The name under which a turn or a role is written.
pub open spec fn turn_name(turn: Turn) -> Seq<char> {
    match turn {
        Turn::X => "X"@,
        Turn::O => "O"@,
    }
}

/// The turn that a name stands for.
pub open spec fn turn_named(name: Seq<char>) -> Option<Turn> {
    if name == "X"@ {
        Some(Turn::X)
    } else if name == "O"@ {
        Some(Turn::O)
    } else {
        None
    }
}

/// The document of one row of a grid given by its squares in row-major order.
pub open spec fn row_doc(cells: Seq<Square>, row: int) -> JsonDoc {
    JsonDoc::List(
        seq![
            JsonDoc::Text(square_name(cells[3 * row])),
            JsonDoc::Text(square_name(cells[3 * row + 1])),
            JsonDoc::Text(square_name(cells[3 * row + 2])),
        ],
    )
}

/// The document of a board: its rows, then its flag.
pub open spec fn board_doc(board: BoardView) -> JsonDoc {
    JsonDoc::Record(
        seq![
            (
                "rows"@,
                JsonDoc::List(
                    seq![row_doc(board.cells, 0), row_doc(board.cells, 1), row_doc(board.cells, 2)],
                ),
            ),
            ("active"@, JsonDoc::Bool(board.active)),
        ],
    )
}

/// The document of a packet's content.
pub open spec fn payload_doc(packet: PacketView) -> JsonDoc {
    match packet {
        PacketView::Message(text) => JsonDoc::Text(text),
        PacketView::GetBoard(text) => JsonDoc::Text(text),
        PacketView::SetSquare(row, column, square) => JsonDoc::List(
            seq![
                JsonDoc::Number(row as u64),
                JsonDoc::Number(column as u64),
                JsonDoc::Text(square_name(square)),
            ],
        ),
        PacketView::BoardUpdate(board) => board_doc(board),
        PacketView::TurnUpdate(turn) => JsonDoc::Text(turn_name(turn)),
        PacketView::RoleUpdate(turn) => JsonDoc::Text(turn_name(turn)),
        PacketView::Error(code, text) => JsonDoc::List(
            seq![JsonDoc::Number(code), JsonDoc::Text(text)],
        ),
    }
}

/// The document of a packet: its name under `type`, its content under `data`.
pub open spec fn packet_doc(packet: PacketView) -> JsonDoc {
    JsonDoc::Record(
        seq![("type"@, JsonDoc::Text(packet.name())), ("data"@, payload_doc(packet))],
    )
}

/// The text of a packet on the wire.
pub open spec fn wire_text(packet: PacketView) -> Seq<char> {
    rendered(packet_doc(packet))
}

/// The square that a document stands for.
pub open spec fn doc_square(doc: JsonDoc) -> Option<Square> {
    match doc {
        JsonDoc::Text(name) => square_named(name),
        _ => None,
    }
}

/// The turn that a document stands for.
pub open spec fn doc_turn(doc: JsonDoc) -> Option<Turn> {
    match doc {
        JsonDoc::Text(name) => turn_named(name),
        _ => None,
    }
}

/// The row or column number that a document stands for.
pub open spec fn doc_index(doc: JsonDoc) -> Option<usize> {
    match doc {
        JsonDoc::Number(n) => if n <= usize::MAX {
            Some(n as usize)
        } else {
            None
        },
        _ => None,
    }
}

/// The three squares that a document stands for.
pub open spec fn doc_row(doc: JsonDoc) -> Option<Seq<Square>> {
    match doc {
        JsonDoc::List(items) => if items.len() == 3 && doc_square(items[0]) is Some && doc_square(
            items[1],
        ) is Some && doc_square(items[2]) is Some {
            Some(
                seq![
                    doc_square(items[0])->0,
                    doc_square(items[1])->0,
                    doc_square(items[2])->0,
                ],
            )
        } else {
            None
        },
        _ => None,
    }
}

/// The grid that a document stands for, in row-major order.
pub open spec fn doc_grid(doc: JsonDoc) -> Option<Seq<Square>> {
    match doc {
        JsonDoc::List(rows) => if rows.len() == 3 && doc_row(rows[0]) is Some && doc_row(
            rows[1],
        ) is Some && doc_row(rows[2]) is Some {
            Some(doc_row(rows[0])->0 + doc_row(rows[1])->0 + doc_row(rows[2])->0)
        } else {
            None
        },
        _ => None,
    }
}

/// The board that a document stands for: an object with a grid under `rows`
/// and a truth value under `active`; other members are not read.
pub open spec fn doc_board(doc: JsonDoc) -> Option<BoardView> {
    match doc {
        JsonDoc::Record(members) => match (lookup(members, "rows"@), lookup(members, "active"@)) {
            (Some(rows), Some(JsonDoc::Bool(active))) => match doc_grid(rows) {
                Some(cells) => Some(BoardView { cells, active }),
                None => None,
            },
            _ => None,
        },
        _ => None,
    }
}

/// The packet with the given name and content.
pub open spec fn doc_payload(tag: Seq<char>, data: JsonDoc) -> Result<PacketView, DecodeError> {
    if tag == "Message"@ {
        match data {
            JsonDoc::Text(text) => Ok(PacketView::Message(text)),
            _ => Err(DecodeError::Mismatch),
        }
    } else if tag == "GetBoard"@ {
        match data {
            JsonDoc::Text(text) => Ok(PacketView::GetBoard(text)),
            _ => Err(DecodeError::Mismatch),
        }
    } else if tag == "SetSquare"@ {
        match data {
            JsonDoc::List(items) => if items.len() == 3 && doc_index(items[0]) is Some && doc_index(
                items[1],
            ) is Some && doc_square(items[2]) is Some {
                Ok(
                    PacketView::SetSquare(
                        doc_index(items[0])->0,
                        doc_index(items[1])->0,
                        doc_square(items[2])->0,
                    ),
                )
            } else {
                Err(DecodeError::Mismatch)
            },
            _ => Err(DecodeError::Mismatch),
        }
    } else if tag == "BoardUpdate"@ {
        match doc_board(data) {
            Some(board) => Ok(PacketView::BoardUpdate(board)),
            None => Err(DecodeError::Mismatch),
        }
    } else if tag == "TurnUpdate"@ {
        match doc_turn(data) {
            Some(turn) => Ok(PacketView::TurnUpdate(turn)),
            None => Err(DecodeError::Mismatch),
        }
    } else if tag == "RoleUpdate"@ {
        match doc_turn(data) {
            Some(turn) => Ok(PacketView::RoleUpdate(turn)),
            None => Err(DecodeError::Mismatch),
        }
    } else if tag == "Error"@ {
        match data {
            JsonDoc::List(items) => if items.len() == 2 {
                match (items[0], items[1]) {
                    (JsonDoc::Number(code), JsonDoc::Text(text)) => Ok(
                        PacketView::Error(code, text),
                    ),
                    _ => Err(DecodeError::Mismatch),
                }
            } else {
                Err(DecodeError::Mismatch)
            },
            _ => Err(DecodeError::Mismatch),
        }
    } else {
        Err(DecodeError::UnknownTag)
    }
}

/// The packet that a document stands for: an object with a text under `type`
/// and a member `data`; other members are not read.
pub open spec fn doc_packet(doc: JsonDoc) -> Result<PacketView, DecodeError> {
    match doc {
        JsonDoc::Record(members) => match (lookup(members, "type"@), lookup(members, "data"@)) {
            (Some(JsonDoc::Text(tag)), Some(data)) => doc_payload(tag, data),
            _ => Err(DecodeError::Malformed),
        },
        _ => Err(DecodeError::Malformed),
    }
}

/// The packet that a text stands for.
pub open spec fn decoded(text: Seq<char>) -> Result<PacketView, DecodeError> {
    match parsed(text) {
        Some(doc) => doc_packet(doc),
        None => Err(DecodeError::Malformed),
    }
}

/// Whether an outcome of decoding has the expected value: the same packet,
/// or the same error.
pub open spec fn decodes_to(
    outcome: Result<PacketType, DecodeError>,
    expected: Result<PacketView, DecodeError>,
) -> bool {
    match outcome {
        Ok(packet) => expected == Ok::<PacketView, DecodeError>(packet@),
        Err(error) => expected == Err::<PacketView, DecodeError>(error),
    }
}

/// The names that the wire form uses differ from one another.
pub proof fn lemma_names_differ()
    ensures
        "Empty"@ != "X"@,
        "Empty"@ != "O"@,
        "X"@ != "O"@,
        "type"@ != "data"@,
        "rows"@ != "active"@,
        "Message"@ != "GetBoard"@,
        "Message"@ != "SetSquare"@,
        "Message"@ != "BoardUpdate"@,
        "Message"@ != "TurnUpdate"@,
        "Message"@ != "RoleUpdate"@,
        "Message"@ != "Error"@,
        "GetBoard"@ != "SetSquare"@,
        "GetBoard"@ != "BoardUpdate"@,
        "GetBoard"@ != "TurnUpdate"@,
        "GetBoard"@ != "RoleUpdate"@,
        "GetBoard"@ != "Error"@,
        "SetSquare"@ != "BoardUpdate"@,
        "SetSquare"@ != "TurnUpdate"@,
        "SetSquare"@ != "RoleUpdate"@,
        "SetSquare"@ != "Error"@,
        "BoardUpdate"@ != "TurnUpdate"@,
        "BoardUpdate"@ != "RoleUpdate"@,
        "BoardUpdate"@ != "Error"@,
        "TurnUpdate"@ != "RoleUpdate"@,
        "TurnUpdate"@ != "Error"@,
        "RoleUpdate"@ != "Error"@,
{
    reveal_strlit("Empty");
    reveal_strlit("X");
    reveal_strlit("O");
    reveal_strlit("type");
    reveal_strlit("data");
    reveal_strlit("rows");
    reveal_strlit("active");
    reveal_strlit("Message");
    reveal_strlit("GetBoard");
    reveal_strlit("SetSquare");
    reveal_strlit("BoardUpdate");
    reveal_strlit("TurnUpdate");
    reveal_strlit("RoleUpdate");
    reveal_strlit("Error");
    assert("Empty"@.len() == 5 && "X"@.len() == 1 && "O"@.len() == 1);
    assert("rows"@.len() == 4 && "active"@.len() == 6);
    assert("Message"@.len() == 7 && "GetBoard"@.len() == 8 && "SetSquare"@.len() == 9);
    assert("BoardUpdate"@.len() == 11 && "TurnUpdate"@.len() == 10);
    assert("RoleUpdate"@.len() == 10 && "Error"@.len() == 5);
    assert("X"@[0] == 'X' && "O"@[0] == 'O');
    assert("type"@[0] == 't' && "data"@[0] == 'd');
    assert("TurnUpdate"@[0] == 'T' && "RoleUpdate"@[0] == 'R');
}

/// A list of plain documents is plain.
pub proof fn lemma_plain_list(items: Seq<JsonDoc>)
    requires
        forall|i: int| 0 <= i < items.len() ==> (#[trigger] items[i]).plain(),
    ensures
        JsonDoc::List(items).plain(),
{
}

/// An object of two plain members under two keys is plain.
pub proof fn lemma_plain_pair(first: (Seq<char>, JsonDoc), second: (Seq<char>, JsonDoc))
    requires
        first.0 != second.0,
        first.1.plain(),
        second.1.plain(),
    ensures
        JsonDoc::Record(seq![first, second]).plain(),
{
    let members = seq![first, second];
    assert forall|i: int| 0 <= i < members.len() implies (#[trigger] members[i]).1.plain() by {
        if i == 0 {
        } else {
        }
    }
}

/// The document of a packet is plain, so writing it keeps its value.
pub proof fn lemma_packet_doc_plain(packet: PacketView)
    ensures
        packet_doc(packet).plain(),
{
    lemma_names_differ();
    let payload = payload_doc(packet);
    assert(payload.plain()) by {
        match packet {
            PacketView::SetSquare(row, column, square) => {
                lemma_plain_list(payload->List_0);
            },
            PacketView::Error(code, text) => {
                lemma_plain_list(payload->List_0);
            },
            PacketView::BoardUpdate(board) => {
                let cells = board.cells;
                lemma_plain_list(row_doc(cells, 0)->List_0);
                lemma_plain_list(row_doc(cells, 1)->List_0);
                lemma_plain_list(row_doc(cells, 2)->List_0);
                let grid = seq![row_doc(cells, 0), row_doc(cells, 1), row_doc(cells, 2)];
                lemma_plain_list(grid);
                lemma_plain_pair(("rows"@, JsonDoc::List(grid)), ("active"@, JsonDoc::Bool(board.active)));
            },
            _ => {},
        }
    }
    lemma_plain_pair(("type"@, JsonDoc::Text(packet.name())), ("data"@, payload));
}

/// A square's name stands for that square, and a turn's name for that turn.
pub proof fn lemma_name_roundtrip(square: Square, turn: Turn)
    ensures
        square_named(square_name(square)) == Some(square),
        turn_named(turn_name(turn)) == Some(turn),
{
    lemma_names_differ();
}

/// The document of a board stands for that board.
pub proof fn lemma_board_roundtrip(board: BoardView)
    requires
        board.cells.len() == 9,
    ensures
        doc_board(board_doc(board)) == Some(board),
{
    lemma_names_differ();
    reveal_with_fuel(lookup, 3);
    let cells = board.cells;
    assert forall|row: int| 0 <= row < 3 implies doc_row(#[trigger] row_doc(cells, row)) == Some(
        seq![cells[3 * row], cells[3 * row + 1], cells[3 * row + 2]],
    ) by {
        lemma_name_roundtrip(cells[3 * row], Turn::X);
        lemma_name_roundtrip(cells[3 * row + 1], Turn::X);
        lemma_name_roundtrip(cells[3 * row + 2], Turn::X);
    }
    let grid = JsonDoc::List(seq![row_doc(cells, 0), row_doc(cells, 1), row_doc(cells, 2)]);
    let members = seq![("rows"@, grid), ("active"@, JsonDoc::Bool(board.active))];
    assert(members.drop_first()[0] == members[1]);
    assert(lookup(members, "rows"@) == Some(grid));
    assert(lookup(members, "active"@) == Some(JsonDoc::Bool(board.active)));
    assert(doc_grid(grid) is Some);
    assert(doc_grid(grid)->0 =~= cells);
}

/// Reading the document of a packet gives the packet back.
pub proof fn lemma_document_roundtrip(packet: PacketView)
    requires
        packet.well_formed(),
    ensures
        doc_packet(packet_doc(packet)) == Ok::<PacketView, DecodeError>(packet),
{
    lemma_names_differ();
    reveal_with_fuel(lookup, 3);
    let payload = payload_doc(packet);
    let members = seq![("type"@, JsonDoc::Text(packet.name())), ("data"@, payload)];
    assert(members.drop_first()[0] == members[1]);
    assert(lookup(members, "type"@) == Some(JsonDoc::Text(packet.name())));
    assert(lookup(members, "data"@) == Some(payload));
    match packet {
        PacketView::SetSquare(row, column, square) => {
            lemma_name_roundtrip(square, Turn::X);
        },
        PacketView::BoardUpdate(board) => {
            lemma_board_roundtrip(board);
        },
        PacketView::TurnUpdate(turn) => {
            lemma_name_roundtrip(Square::X, turn);
        },
        PacketView::RoleUpdate(turn) => {
            lemma_name_roundtrip(Square::X, turn);
        },
        _ => {},
    }
    assert(doc_payload(packet.name(), payload) == Ok::<PacketView, DecodeError>(packet));
}

/// Where `serde_json` reads back the document that it wrote for a packet,
/// reading the wire text of the packet gives the packet back.
pub proof fn lemma_text_roundtrip(packet: PacketView)
    requires
        packet.well_formed(),
    ensures
        parsed(rendered(packet_doc(packet))) == Some(packet_doc(packet)) ==> decoded(
            wire_text(packet),
        ) == Ok::<PacketView, DecodeError>(packet),
{
    lemma_document_roundtrip(packet);
}

/// Whether a string holds exactly the given text.
fn is_text(value: &String, literal: &str) -> (same: bool)
    ensures
        same == (value@ == literal@),
{
    let owned = literal.to_owned();
    *value == owned
}

/// The list of two documents.
fn list_of2(first: Json, second: Json) -> (doc: Json)
    ensures
        doc@ == JsonDoc::List(seq![first@, second@]),
{
    let mut items: Vec<Json> = Vec::new();
    items.push(first);
    items.push(second);
    let doc = Json::List(items);
    assert(doc@->List_0 =~= seq![first@, second@]);
    doc
}

/// The list of three documents.
fn list_of3(first: Json, second: Json, third: Json) -> (doc: Json)
    ensures
        doc@ == JsonDoc::List(seq![first@, second@, third@]),
{
    let mut items: Vec<Json> = Vec::new();
    items.push(first);
    items.push(second);
    items.push(third);
    let doc = Json::List(items);
    assert(doc@->List_0 =~= seq![first@, second@, third@]);
    doc
}

/// The object of two members.
fn record_of2(first_key: &str, first: Json, second_key: &str, second: Json) -> (doc: Json)
    ensures
        doc@ == JsonDoc::Record(seq![(first_key@, first@), (second_key@, second@)]),
{
    let mut members: Vec<(String, Json)> = Vec::new();
    members.push((first_key.to_owned(), first));
    members.push((second_key.to_owned(), second));
    let doc = Json::Record(members);
    assert(doc@->Record_0 =~= seq![(first_key@, first@), (second_key@, second@)]);
    doc
}

/// The document of a square.
fn square_document(square: Square) -> (doc: Json)
    ensures
        doc@ == JsonDoc::Text(square_name(square)),
{
    match square {
        Square::Empty => Json::Text("Empty".to_owned()),
        Square::X => Json::Text("X".to_owned()),
        Square::O => Json::Text("O".to_owned()),
    }
}

/// The document of a turn.
fn turn_document(turn: Turn) -> (doc: Json)
    ensures
        doc@ == JsonDoc::Text(turn_name(turn)),
{
    match turn {
        Turn::X => Json::Text("X".to_owned()),
        Turn::O => Json::Text("O".to_owned()),
    }
}

/// The document of one row of three squares.
fn row_document(line: &[Square; 3]) -> (doc: Json)
    ensures
        doc@ == JsonDoc::List(
            seq![
                JsonDoc::Text(square_name(line[0])),
                JsonDoc::Text(square_name(line[1])),
                JsonDoc::Text(square_name(line[2])),
            ],
        ),
{
    list_of3(square_document(line[0]), square_document(line[1]), square_document(line[2]))
}

/// The document of a board.
fn board_document(board: &Board) -> (doc: Json)
    ensures
        doc@ == board_doc(board@),
{
    let first = row_document(&board.rows[0]);
    let second = row_document(&board.rows[1]);
    let third = row_document(&board.rows[2]);
    proof {
        let cells = board@.cells;
        assert(first@ == row_doc(cells, 0));
        assert(second@ == row_doc(cells, 1));
        assert(third@ == row_doc(cells, 2));
    }
    record_of2("rows", list_of3(first, second, third), "active", Json::Bool(board.active))
}

/// The square that a document stands for.
fn square_of(doc: &Json) -> (square: Option<Square>)
    ensures
        square == doc_square(doc@),
{
    match doc {
        Json::Text(name) => {
            if is_text(name, "Empty") {
                Some(Square::Empty)
            } else if is_text(name, "X") {
                Some(Square::X)
            } else if is_text(name, "O") {
                Some(Square::O)
            } else {
                None
            }
        },
        _ => None,
    }
}

/// The turn that a document stands for.
fn turn_of(doc: &Json) -> (turn: Option<Turn>)
    ensures
        turn == doc_turn(doc@),
{
    match doc {
        Json::Text(name) => {
            if is_text(name, "X") {
                Some(Turn::X)
            } else if is_text(name, "O") {
                Some(Turn::O)
            } else {
                None
            }
        },
        _ => None,
    }
}

/// The row or column number that a document stands for.
fn index_of(doc: &Json) -> (index: Option<usize>)
    ensures
        index == doc_index(doc@),
{
    match doc {
        Json::Number(n) => {
            if *n <= usize::MAX as u64 {
                Some(*n as usize)
            } else {
                None
            }
        },
        _ => None,
    }
}

/// The three squares that a document stands for.
fn row_of(doc: &Json) -> (row: Option<[Square; 3]>)
    ensures
        match row {
            Some(line) => doc_row(doc@) == Some(line@),
            None => doc_row(doc@) is None,
        },
{
    match doc {
        Json::List(items) => {
            if items.len() != 3 {
                return None;
            }
            match (square_of(&items[0]), square_of(&items[1]), square_of(&items[2])) {
                (Some(first), Some(second), Some(third)) => {
                    let line = [first, second, third];
                    assert(line@ =~= seq![first, second, third]);
                    Some(line)
                },
                _ => None,
            }
        },
        _ => None,
    }
}

/// The grid that a document stands for.
fn grid_of(doc: &Json) -> (grid: Option<[[Square; 3]; 3]>)
    ensures
        match grid {
            Some(rows) => doc_grid(doc@) == Some(grid_cells(rows)),
            None => doc_grid(doc@) is None,
        },
{
    match doc {
        Json::List(lines) => {
            if lines.len() != 3 {
                return None;
            }
            match (row_of(&lines[0]), row_of(&lines[1]), row_of(&lines[2])) {
                (Some(first), Some(second), Some(third)) => {
                    let rows = [first, second, third];
                    assert(grid_cells(rows) =~= first@ + second@ + third@);
                    Some(rows)
                },
                _ => None,
            }
        },
        _ => None,
    }
}

/// The board that a document stands for.
fn board_of(doc: &Json) -> (board: Option<Board>)
    ensures
        match board {
            Some(b) => doc_board(doc@) == Some(b@),
            None => doc_board(doc@) is None,
        },
{
    match (doc.member("rows"), doc.member("active")) {
        (Some(lines), Some(Json::Bool(active))) => {
            match grid_of(lines) {
                Some(rows) => Some(Board { rows, active: *active }),
                None => None,
            }
        },
        _ => None,
    }
}

/// The packet with the given name and content.
fn packet_of(tag: &String, data: &Json) -> (outcome: Result<PacketType, DecodeError>)
    ensures
        decodes_to(outcome, doc_payload(tag@, data@)),
{
    if is_text(tag, "Message") {
        match data {
            Json::Text(text) => Ok(PacketType::Message(text.clone())),
            _ => Err(DecodeError::Mismatch),
        }
    } else if is_text(tag, "GetBoard") {
        match data {
            Json::Text(text) => Ok(PacketType::GetBoard(text.clone())),
            _ => Err(DecodeError::Mismatch),
        }
    } else if is_text(tag, "SetSquare") {
        match data {
            Json::List(items) => {
                if items.len() != 3 {
                    return Err(DecodeError::Mismatch);
                }
                match (index_of(&items[0]), index_of(&items[1]), square_of(&items[2])) {
                    (Some(row), Some(column), Some(square)) => Ok(
                        PacketType::SetSquare(row, column, square),
                    ),
                    _ => Err(DecodeError::Mismatch),
                }
            },
            _ => Err(DecodeError::Mismatch),
        }
    } else if is_text(tag, "BoardUpdate") {
        match board_of(data) {
            Some(board) => Ok(PacketType::BoardUpdate(board)),
            None => Err(DecodeError::Mismatch),
        }
    } else if is_text(tag, "TurnUpdate") {
        match turn_of(data) {
            Some(turn) => Ok(PacketType::TurnUpdate(turn)),
            None => Err(DecodeError::Mismatch),
        }
    } else if is_text(tag, "RoleUpdate") {
        match turn_of(data) {
            Some(turn) => Ok(PacketType::RoleUpdate(turn)),
            None => Err(DecodeError::Mismatch),
        }
    } else if is_text(tag, "Error") {
        match data {
            Json::List(items) => {
                if items.len() != 2 {
                    return Err(DecodeError::Mismatch);
                }
                let first = &items[0];
                let second = &items[1];
                assert(data@->List_0[0] == first@ && data@->List_0[1] == second@);
                match first {
                    Json::Number(code) => match second {
                        Json::Text(text) => Ok(PacketType::Error(*code, text.clone())),
                        _ => Err(DecodeError::Mismatch),
                    },
                    _ => Err(DecodeError::Mismatch),
                }
            },
            _ => Err(DecodeError::Mismatch),
        }
    } else {
        Err(DecodeError::UnknownTag)
    }
}

impl PacketType {
    /// The JSON document of this packet.
    pub fn to_document(&self) -> (doc: Json)
        ensures
            doc@ == packet_doc(self@),
            doc@.plain(),
    {
        let payload = match self {
            PacketType::Message(text) => Json::Text(text.clone()),
            PacketType::GetBoard(text) => Json::Text(text.clone()),
            PacketType::SetSquare(row, column, square) => list_of3(
                Json::Number(*row as u64),
                Json::Number(*column as u64),
                square_document(*square),
            ),
            PacketType::BoardUpdate(board) => board_document(board),
            PacketType::TurnUpdate(turn) => turn_document(*turn),
            PacketType::RoleUpdate(turn) => turn_document(*turn),
            PacketType::Error(code, text) => list_of2(Json::Number(*code), Json::Text(text.clone())),
        };
        proof {
            lemma_packet_doc_plain(self@);
        }
        record_of2("type", Json::Text(self.to_string()), "data", payload)
    }

    /// The packet that a JSON document stands for. The document has to be an
    /// object with a text under `type` and a member `data`, else it is
    /// malformed; the text has to name a packet; and the content has to fit
    /// that packet.
    pub fn from_document(doc: &Json) -> (outcome: Result<PacketType, DecodeError>)
        ensures
            decodes_to(outcome, doc_packet(doc@)),
    {
        match (doc.member("type"), doc.member("data")) {
            (Some(Json::Text(tag)), Some(data)) => packet_of(tag, data),
            _ => Err(DecodeError::Malformed),
        }
    }
}

/// Writes a packet as the text that goes over the wire.
pub fn to_json(data: PacketType) -> (text: String)
    ensures
        text@ == wire_text(data@),
{
    let doc = data.to_document();
    doc.render()
}

/// Reads a text from the wire as a packet.
pub fn from_json(text: &str) -> (outcome: Result<PacketType, DecodeError>)
    ensures
        decodes_to(outcome, decoded(text@)),
{
    match Json::parse(text) {
        Some(doc) => PacketType::from_document(&doc),
        None => Err(DecodeError::Malformed),
    }
}

} // verus!

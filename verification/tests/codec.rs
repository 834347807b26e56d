use tictactoe_hub::board::{Board, Square, Turn};
use tictactoe_hub::codec::{from_json, to_json};
use tictactoe_hub::json::Json;
use tictactoe_hub::packets::{DecodeError, PacketType};

fn sample_board() -> Board {
    let mut board = Board::default();
    board.set_square(0, 0, Square::X);
    board.set_square(1, 2, Square::O);
    board.start();
    board
}

fn samples() -> Vec<PacketType> {
    vec![
        PacketType::Message(String::from("hello")),
        PacketType::Message(String::from("")),
        PacketType::Message(String::from("quote \" backslash \\ newline \n tab \t é 日本 \u{1F600}")),
        PacketType::GetBoard(String::from("")),
        PacketType::GetBoard(String::from("anything")),
        PacketType::SetSquare(0, 0, Square::X),
        PacketType::SetSquare(2, 1, Square::O),
        PacketType::SetSquare(7, 1000, Square::Empty),
        PacketType::SetSquare(usize::MAX, 0, Square::X),
        PacketType::BoardUpdate(Board::default()),
        PacketType::BoardUpdate(sample_board()),
        PacketType::TurnUpdate(Turn::X),
        PacketType::TurnUpdate(Turn::O),
        PacketType::RoleUpdate(Turn::X),
        PacketType::RoleUpdate(Turn::O),
        PacketType::Error(401, String::from("Invalid request")),
        PacketType::Error(0, String::from("")),
        PacketType::Error(u64::MAX, String::from("big")),
    ]
}

#[test]
fn message_text() {
    assert_eq!(
        to_json(PacketType::Message(String::from("hi"))),
        r#"{"type":"Message","data":"hi"}"#
    );
}

#[test]
fn message_text_is_escaped() {
    assert_eq!(
        to_json(PacketType::Message(String::from("a\"b\\c\nd"))),
        r#"{"type":"Message","data":"a\"b\\c\nd"}"#
    );
}

#[test]
fn get_board_text() {
    assert_eq!(
        to_json(PacketType::GetBoard(String::new())),
        r#"{"type":"GetBoard","data":""}"#
    );
}

#[test]
fn set_square_text() {
    assert_eq!(
        to_json(PacketType::SetSquare(0, 2, Square::X)),
        r#"{"type":"SetSquare","data":[0,2,"X"]}"#
    );
}

#[test]
fn board_update_text() {
    assert_eq!(
        to_json(PacketType::BoardUpdate(Board::default())),
        r#"{"type":"BoardUpdate","data":{"rows":[["Empty","Empty","Empty"],["Empty","Empty","Empty"],["Empty","Empty","Empty"]],"active":false}}"#
    );
    assert_eq!(
        to_json(PacketType::BoardUpdate(sample_board())),
        r#"{"type":"BoardUpdate","data":{"rows":[["X","Empty","Empty"],["Empty","Empty","O"],["Empty","Empty","Empty"]],"active":true}}"#
    );
}

#[test]
fn turn_and_role_text() {
    assert_eq!(to_json(PacketType::TurnUpdate(Turn::X)), r#"{"type":"TurnUpdate","data":"X"}"#);
    assert_eq!(to_json(PacketType::TurnUpdate(Turn::O)), r#"{"type":"TurnUpdate","data":"O"}"#);
    assert_eq!(to_json(PacketType::RoleUpdate(Turn::X)), r#"{"type":"RoleUpdate","data":"X"}"#);
    assert_eq!(to_json(PacketType::RoleUpdate(Turn::O)), r#"{"type":"RoleUpdate","data":"O"}"#);
}

#[test]
fn error_text() {
    assert_eq!(
        to_json(PacketType::Error(401, String::from("Game has already started"))),
        r#"{"type":"Error","data":[401,"Game has already started"]}"#
    );
}

#[test]
fn text_is_what_serde_json_reads_back() {
    let text = to_json(PacketType::SetSquare(1, 2, Square::O));
    let value: serde_json::Value = serde_json::from_str(&text).unwrap();
    assert_eq!(value.get("type").and_then(|v| v.as_str()), Some("SetSquare"));
    let data = value.get("data").and_then(|v| v.as_array()).unwrap();
    assert_eq!(data.len(), 3);
    assert_eq!(data[0].as_u64(), Some(1));
    assert_eq!(data[1].as_u64(), Some(2));
    assert_eq!(data[2].as_str(), Some("O"));
}

#[test]
fn decode_after_encode_gives_the_packet_back() {
    for packet in samples() {
        let text = to_json(packet.clone());
        assert_eq!(from_json(&text), Ok(packet));
    }
}

#[test]
fn document_roundtrip() {
    for packet in samples() {
        let doc = packet.to_document();
        assert_eq!(PacketType::from_document(&doc), Ok(packet));
    }
}

#[test]
fn variant_names() {
    let names: Vec<String> = vec![
        PacketType::Message(String::new()).to_string(),
        PacketType::GetBoard(String::new()).to_string(),
        PacketType::SetSquare(0, 0, Square::Empty).to_string(),
        PacketType::BoardUpdate(Board::default()).to_string(),
        PacketType::TurnUpdate(Turn::X).to_string(),
        PacketType::RoleUpdate(Turn::X).to_string(),
        PacketType::Error(1, String::new()).to_string(),
    ];
    assert_eq!(
        names,
        vec![
            "Message",
            "GetBoard",
            "SetSquare",
            "BoardUpdate",
            "TurnUpdate",
            "RoleUpdate",
            "Error"
        ]
    );
}

#[test]
fn decode_each_variant() {
    assert_eq!(
        from_json(r#"{"type":"Message","data":"hi"}"#),
        Ok(PacketType::Message(String::from("hi")))
    );
    assert_eq!(
        from_json(r#"{"type":"GetBoard","data":""}"#),
        Ok(PacketType::GetBoard(String::new()))
    );
    assert_eq!(
        from_json(r#"{"type":"SetSquare","data":[0,0,"X"]}"#),
        Ok(PacketType::SetSquare(0, 0, Square::X))
    );
    assert_eq!(
        from_json(r#"{"type":"TurnUpdate","data":"O"}"#),
        Ok(PacketType::TurnUpdate(Turn::O))
    );
    assert_eq!(
        from_json(r#"{"type":"RoleUpdate","data":"X"}"#),
        Ok(PacketType::RoleUpdate(Turn::X))
    );
    assert_eq!(
        from_json(r#"{"type":"Error","data":[401,"no"]}"#),
        Ok(PacketType::Error(401, String::from("no")))
    );
    assert_eq!(
        from_json(
            r#"{"type":"BoardUpdate","data":{"rows":[["X","Empty","Empty"],["Empty","Empty","O"],["Empty","Empty","Empty"]],"active":true}}"#
        ),
        Ok(PacketType::BoardUpdate(sample_board()))
    );
}

#[test]
fn decode_takes_members_in_any_order_and_passes_over_others() {
    assert_eq!(
        from_json(r#"{"data":"hi","type":"Message"}"#),
        Ok(PacketType::Message(String::from("hi")))
    );
    assert_eq!(
        from_json("  {\n \"type\" : \"Message\" ,\n \"extra\" : [1, {\"a\": null}],\n \"data\" : \"hi\" }\n"),
        Ok(PacketType::Message(String::from("hi")))
    );
    assert_eq!(
        from_json(
            r#"{"type":"BoardUpdate","data":{"active":false,"note":1,"rows":[["Empty","Empty","Empty"],["Empty","Empty","Empty"],["Empty","Empty","Empty"]]}}"#
        ),
        Ok(PacketType::BoardUpdate(Board::default()))
    );
}

#[test]
fn decode_reads_escapes() {
    assert_eq!(
        from_json(r#"{"type":"Message","data":"a\"b\\c\ndé"}"#),
        Ok(PacketType::Message(String::from("a\"b\\c\nd\u{e9}")))
    );
}

#[test]
fn malformed_text_is_refused() {
    for text in [
        "",
        "not json",
        "{",
        r#"{"type":"Message","data":"hi""#,
        r#"{"type":"Message","data":"hi"} trailing"#,
        "null",
        "42",
        r#""Message""#,
        r#"["Message","hi"]"#,
        "{}",
        r#"{"data":"hi"}"#,
        r#"{"type":"Message"}"#,
        r#"{"type":7,"data":"hi"}"#,
        r#"{"type":null,"data":"hi"}"#,
        r#"{"Type":"Message","data":"hi"}"#,
    ] {
        assert_eq!(from_json(text), Err(DecodeError::Malformed), "{}", text);
    }
}

#[test]
fn unknown_tag_is_refused() {
    for text in [
        r#"{"type":"Move","data":"hi"}"#,
        r#"{"type":"message","data":"hi"}"#,
        r#"{"type":"","data":null}"#,
    ] {
        assert_eq!(from_json(text), Err(DecodeError::UnknownTag), "{}", text);
    }
}

#[test]
fn mismatched_payload_is_refused() {
    for text in [
        r#"{"type":"Message","data":7}"#,
        r#"{"type":"Message","data":null}"#,
        r#"{"type":"GetBoard","data":[]}"#,
        r#"{"type":"SetSquare","data":[0,0]}"#,
        r#"{"type":"SetSquare","data":[0,0,"X",1]}"#,
        r#"{"type":"SetSquare","data":[-1,0,"X"]}"#,
        r#"{"type":"SetSquare","data":[0,1.5,"X"]}"#,
        r#"{"type":"SetSquare","data":["0",0,"X"]}"#,
        r#"{"type":"SetSquare","data":[0,0,"Z"]}"#,
        r#"{"type":"SetSquare","data":[0,0,"x"]}"#,
        r#"{"type":"SetSquare","data":{"row":0}}"#,
        r#"{"type":"SetSquare","data":[18446744073709551616,0,"X"]}"#,
        r#"{"type":"TurnUpdate","data":"Empty"}"#,
        r#"{"type":"RoleUpdate","data":1}"#,
        r#"{"type":"Error","data":[401]}"#,
        r#"{"type":"Error","data":["401","x"]}"#,
        r#"{"type":"Error","data":[401,402]}"#,
        r#"{"type":"BoardUpdate","data":{"rows":[],"active":true}}"#,
        r#"{"type":"BoardUpdate","data":{"rows":[["X","X","X"],["X","X","X"],["X","X"]],"active":true}}"#,
        r#"{"type":"BoardUpdate","data":{"rows":[["X","X","X"],["X","X","X"],["X","X","X"]]}}"#,
        r#"{"type":"BoardUpdate","data":{"rows":[["X","X","X"],["X","X","X"],["X","X","X"]],"active":"yes"}}"#,
        r#"{"type":"BoardUpdate","data":"board"}"#,
    ] {
        assert_eq!(from_json(text), Err(DecodeError::Mismatch), "{}", text);
    }
}

#[test]
fn parse_reads_json_documents() {
    assert_eq!(Json::parse("null"), Some(Json::Null));
    assert_eq!(Json::parse("true"), Some(Json::Bool(true)));
    assert_eq!(Json::parse("17"), Some(Json::Number(17)));
    assert_eq!(Json::parse("18446744073709551615"), Some(Json::Number(u64::MAX)));
    assert_eq!(Json::parse("-3"), Some(Json::Other));
    assert_eq!(Json::parse("2.5"), Some(Json::Other));
    assert_eq!(Json::parse(r#""a\tb""#), Some(Json::Text(String::from("a\tb"))));
    assert_eq!(
        Json::parse(r#"[1, "two", [false]]"#),
        Some(Json::List(vec![
            Json::Number(1),
            Json::Text(String::from("two")),
            Json::List(vec![Json::Bool(false)]),
        ]))
    );
    assert_eq!(
        Json::parse(r#"{"b": 1, "a": {"c": null}}"#),
        Some(Json::Record(vec![
            (String::from("b"), Json::Number(1)),
            (String::from("a"), Json::Record(vec![(String::from("c"), Json::Null)])),
        ]))
    );
    assert_eq!(Json::parse("[1,"), None);
    assert_eq!(Json::parse(""), None);
}

#[test]
fn render_writes_compact_json() {
    let doc = Json::Record(vec![
        (String::from("b"), Json::List(vec![Json::Number(1), Json::Null, Json::Bool(true)])),
        (String::from("a"), Json::Text(String::from("x\"y"))),
    ]);
    assert_eq!(doc.render(), r#"{"b":[1,null,true],"a":"x\"y"}"#);
    assert_eq!(Json::parse(&doc.render()), Some(doc));
}

#[test]
fn member_finds_the_value_under_a_key() {
    let doc = Json::Record(vec![
        (String::from("a"), Json::Number(1)),
        (String::from("b"), Json::Number(2)),
    ]);
    assert_eq!(doc.member("a"), Some(&Json::Number(1)));
    assert_eq!(doc.member("b"), Some(&Json::Number(2)));
    assert_eq!(doc.member("c"), None);
    assert_eq!(Json::List(vec![]).member("a"), None);
    assert_eq!(Json::Null.member("a"), None);
}

#[test]
fn from_document_reads_the_first_member_of_a_key() {
    let doc = Json::Record(vec![
        (String::from("type"), Json::Text(String::from("Message"))),
        (String::from("data"), Json::Text(String::from("first"))),
        (String::from("data"), Json::Text(String::from("second"))),
    ]);
    assert_eq!(PacketType::from_document(&doc), Ok(PacketType::Message(String::from("first"))));
}

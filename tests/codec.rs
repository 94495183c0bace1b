use chess_rollup::codec::{DecodeError, Transaction};

fn start(game_id: u32) -> Transaction {
    Transaction::StartGame { game_id }
}

fn mv(game_id: u32, text: &str) -> Transaction {
    Transaction::MakeMove { game_id, move_san: text.to_string() }
}

#[test]
fn encode_start_game_layout() {
    assert_eq!(start(0x01020304).encode(), vec![0, 1, 2, 3, 4]);
}

#[test]
fn encode_make_move_layout() {
    assert_eq!(mv(1, "e4").encode(), vec![1, 0, 0, 0, 1, 0, 0, 0, 2, b'e', b'4']);
}

#[test]
fn round_trip_start_game() {
    let decoded = Transaction::decode(&start(u32::MAX).encode()).unwrap();
    assert!(matches!(decoded, Transaction::StartGame { game_id: u32::MAX }));
}

#[test]
fn round_trip_make_move_with_multibyte_text() {
    let decoded = Transaction::decode(&mv(42, "Nf3é♞").encode()).unwrap();
    match decoded {
        Transaction::MakeMove { game_id, move_san } => {
            assert_eq!(game_id, 42);
            assert_eq!(move_san, "Nf3é♞");
        }
        other => panic!("unexpected {:?}", other),
    }
}

#[test]
fn round_trip_empty_move_text() {
    let decoded = Transaction::decode(&mv(7, "").encode()).unwrap();
    assert!(matches!(decoded, Transaction::MakeMove { game_id: 7, ref move_san } if move_san.is_empty()));
}

#[test]
fn decode_fewer_than_five_bytes() {
    assert_eq!(Transaction::decode(&[]).unwrap_err(), DecodeError::TooShort);
    assert_eq!(Transaction::decode(&[0, 0, 0, 1]).unwrap_err(), DecodeError::TooShort);
}

#[test]
fn decode_truncated_length_field() {
    assert_eq!(
        Transaction::decode(&[1, 0, 0, 0, 1, 0, 0]).unwrap_err(),
        DecodeError::MissingMoveLength
    );
}

#[test]
fn decode_truncated_move_text() {
    assert_eq!(
        Transaction::decode(&[1, 0, 0, 0, 1, 0, 0, 0, 5, b'e', b'4']).unwrap_err(),
        DecodeError::TruncatedMove
    );
}

#[test]
fn decode_non_utf8_move_text() {
    assert_eq!(
        Transaction::decode(&[1, 0, 0, 0, 1, 0, 0, 0, 2, 0xff, 0xfe]).unwrap_err(),
        DecodeError::InvalidUtf8
    );
}

#[test]
fn decode_unknown_tag() {
    assert_eq!(Transaction::decode(&[7, 0, 0, 0, 1]).unwrap_err(), DecodeError::UnknownTag);
}

#[test]
fn decode_ignores_trailing_bytes() {
    let decoded = Transaction::decode(&[0, 0, 0, 0, 9, 1, 2]).unwrap();
    assert!(matches!(decoded, Transaction::StartGame { game_id: 9 }));
}

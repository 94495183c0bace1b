//! Tagged binary wire format of rollup transactions.
use vstd::prelude::*;
use vstd::utf8::{decode_utf8, encode_utf8, valid_utf8};

verus! {

broadcast use vstd::utf8::encode_utf8_valid_utf8, vstd::utf8::encode_utf8_decode_utf8;

/// Tag byte of a `StartGame` transaction.
pub const TAG_START_GAME: u8 = 0;

/// Tag byte of a `MakeMove` transaction.
pub const TAG_MAKE_MOVE: u8 = 1;

/// A transaction of the rollup.
#[derive(Debug, Clone)]
pub enum Transaction {
    StartGame { game_id: u32 },
    MakeMove { game_id: u32, move_san: String },
}

/// Mathematical model of a transaction: the move text is a sequence of chars.
pub ghost enum TxModel {
    StartGame { game_id: u32 },
    MakeMove { game_id: u32, move_text: Seq<char> },
}

impl View for Transaction {
    type V = TxModel;

    open spec fn view(&self) -> TxModel {
        match self {
            Transaction::StartGame { game_id } => TxModel::StartGame { game_id: *game_id },
            Transaction::MakeMove { game_id, move_san } => TxModel::MakeMove {
                game_id: *game_id,
                move_text: move_san@,
            },
        }
    }
}

/// Why a byte string is not a transaction.
#[derive(Debug, Clone, Copy, PartialEq, Eq, Structural)]
pub enum DecodeError {
    /// Fewer than five bytes: no room for the tag and the game id.
    TooShort,
    /// The tag byte names no transaction kind.
    UnknownTag,
    /// A move transaction without its four-byte length field.
    MissingMoveLength,
    /// The declared move length exceeds the bytes that follow it.
    TruncatedMove,
    /// The move text is not valid UTF-8.
    InvalidUtf8,
}

/// Big-endian bytes of a 32-bit integer.
pub open spec fn be_bytes(x: u32) -> Seq<u8> {
    seq![(x >> 24u32) as u8, (x >> 16u32) as u8, (x >> 8u32) as u8, x as u8]
}

/// The 32-bit integer stored big-endian at `b[i..i + 4]`.
pub open spec fn be_u32_at(b: Seq<u8>, i: int) -> u32 {
    ((b[i] as u32) << 24u32) | ((b[i + 1] as u32) << 16u32) | ((b[i + 2] as u32) << 8u32) | (
    b[i + 3] as u32)
}

/// A transaction can be written when its move text's UTF-8 length fits the
/// four-byte length field.
pub open spec fn encodable(t: TxModel) -> bool {
    match t {
        TxModel::StartGame { .. } => true,
        TxModel::MakeMove { move_text, .. } => encode_utf8(move_text).len() <= u32::MAX,
    }
}

/// The wire bytes of a transaction.
pub open spec fn encoding(t: TxModel) -> Seq<u8> {
    match t {
        TxModel::StartGame { game_id } => seq![TAG_START_GAME] + be_bytes(game_id),
        TxModel::MakeMove { game_id, move_text } => {
            let text = encode_utf8(move_text);
            seq![TAG_MAKE_MOVE] + be_bytes(game_id) + be_bytes(text.len() as u32) + text
        },
    }
}

/// What decoding `b` yields: a transaction, or the first rule that `b` breaks.
/// Bytes after a complete transaction are ignored.
pub open spec fn parse(b: Seq<u8>) -> Result<TxModel, DecodeError> {
    if b.len() < 5 {
        Err(DecodeError::TooShort)
    } else if b[0] == TAG_START_GAME {
        Ok(TxModel::StartGame { game_id: be_u32_at(b, 1) })
    } else if b[0] == TAG_MAKE_MOVE {
        if b.len() < 9 {
            Err(DecodeError::MissingMoveLength)
        } else if b.len() - 9 < be_u32_at(b, 5) {
            Err(DecodeError::TruncatedMove)
        } else {
            let text = b.subrange(9, 9 + be_u32_at(b, 5));
            if valid_utf8(text) {
                Ok(TxModel::MakeMove { game_id: be_u32_at(b, 1), move_text: decode_utf8(text) })
            } else {
                Err(DecodeError::InvalidUtf8)
            }
        }
    } else {
        Err(DecodeError::UnknownTag)
    }
}

proof fn lemma_be_round_trip(x: u32)
    ensures
        be_u32_at(be_bytes(x), 0) == x,
{
    let b0 = (x >> 24u32) as u8;
    let b1 = (x >> 16u32) as u8;
    let b2 = (x >> 8u32) as u8;
    let b3 = x as u8;
    assert((((b0 as u32) << 24u32) | ((b1 as u32) << 16u32) | ((b2 as u32) << 8u32) | (b3 as u32))
        == x) by (bit_vector)
        requires
            b0 == (x >> 24u32) as u8,
            b1 == (x >> 16u32) as u8,
            b2 == (x >> 8u32) as u8,
            b3 == x as u8,
    ;
}

/// Decoding the encoding of any writable transaction gives that transaction back.
pub proof fn lemma_decode_encode(t: TxModel)
    requires
        encodable(t),
    ensures
        parse(encoding(t)) == Ok::<TxModel, DecodeError>(t),
{
    let b = encoding(t);
    match t {
        TxModel::StartGame { game_id } => {
            lemma_be_round_trip(game_id);
            assert(be_u32_at(b, 1) == be_u32_at(be_bytes(game_id), 0));
        },
        TxModel::MakeMove { game_id, move_text } => {
            let text = encode_utf8(move_text);
            let n = text.len() as u32;
            lemma_be_round_trip(game_id);
            lemma_be_round_trip(n);
            assert(be_u32_at(b, 1) == be_u32_at(be_bytes(game_id), 0));
            assert(be_u32_at(b, 5) == be_u32_at(be_bytes(n), 0));
            assert(b.subrange(9, 9 + n) =~= text);
        },
    }
}

/// Decoding fails on fewer than five bytes, on a move whose four-byte length
/// field is cut short, on a move whose text is shorter than its declared
/// length, and on a move whose text is not UTF-8.
pub proof fn lemma_decode_rejects(b: Seq<u8>)
    ensures
        b.len() < 5 ==> parse(b) is Err,
        5 <= b.len() < 9 && b[0] == TAG_MAKE_MOVE ==> parse(b) is Err,
        9 <= b.len() && b[0] == TAG_MAKE_MOVE && b.len() - 9 < be_u32_at(b, 5) ==> parse(b) is Err,
        9 <= b.len() && b[0] == TAG_MAKE_MOVE && be_u32_at(b, 5) <= b.len() - 9 && !valid_utf8(
            b.subrange(9, 9 + be_u32_at(b, 5)),
        ) ==> parse(b) is Err,
{
}

/// Pushes the big-endian bytes of `x`.
fn push_be_u32(out: &mut Vec<u8>, x: u32)
    ensures
        final(out)@ == old(out)@ + be_bytes(x),
{
    out.push((x >> 24u32) as u8);
    out.push((x >> 16u32) as u8);
    out.push((x >> 8u32) as u8);
    out.push(x as u8);
    assert(final(out)@ =~= old(out)@ + be_bytes(x));
}

/// Reads the big-endian integer at `b[i..i + 4]`.
fn read_be_u32(b: &[u8], i: usize) -> (r: u32)
    requires
        i + 4 <= b@.len(),
    ensures
        r == be_u32_at(b@, i as int),
{
    ((b[i] as u32) << 24u32) | ((b[i + 1] as u32) << 16u32) | ((b[i + 2] as u32) << 8u32) | (b[i
        + 3] as u32)
}

/// Relies on `String::from_utf8`: it succeeds exactly on valid UTF-8, and the
/// string then holds the chars those bytes encode.
#[verifier::external_body]
fn string_from_utf8(b: Vec<u8>) -> (r: Option<String>)
    ensures
        r is Some <==> valid_utf8(b@),
        r matches Some(s) ==> s@ == decode_utf8(b@),
{
    String::from_utf8(b).ok()
}

impl Transaction {
    /// Whether this transaction fits the wire format.
    pub open spec fn is_encodable(&self) -> bool {
        encodable(self@)
    }

    /// Encodes the transaction into its wire bytes.
    pub fn encode(&self) -> (r: Vec<u8>)
        requires
            self.is_encodable(),
        ensures
            r@ == encoding(self@),
    {
        let mut out: Vec<u8> = Vec::new();
        match self {
            Transaction::StartGame { game_id } => {
                out.push(TAG_START_GAME);
                push_be_u32(&mut out, *game_id);
            },
            Transaction::MakeMove { game_id, move_san } => {
                out.push(TAG_MAKE_MOVE);
                push_be_u32(&mut out, *game_id);
                let text = move_san.as_str().as_bytes();
                push_be_u32(&mut out, text.len() as u32);
                let ghost head = out@;
                let mut i: usize = 0;
                while i < text.len()
                    invariant
                        i <= text@.len(),
                        text@ == encode_utf8(move_san@),
                        out@ == head + text@.subrange(0, i as int),
                    decreases text@.len() - i,
                {
                    out.push(text[i]);
                    i = i + 1;
                    assert(out@ =~= head + text@.subrange(0, i as int));
                }
                assert(text@.subrange(0, i as int) =~= text@);
            },
        }
        assert(out@ =~= encoding(self@));
        out
    }

    /// Decodes wire bytes into a transaction.
    pub fn decode(data: &[u8]) -> (r: Result<Transaction, DecodeError>)
        ensures
            match r {
                Ok(t) => parse(data@) == Ok::<TxModel, DecodeError>(t@),
                Err(e) => parse(data@) == Err::<TxModel, DecodeError>(e),
            },
    {
        if data.len() < 5 {
            return Err(DecodeError::TooShort);
        }
        let tag = data[0];
        let game_id = read_be_u32(data, 1);
        if tag == TAG_START_GAME {
            Ok(Transaction::StartGame { game_id })
        } else if tag == TAG_MAKE_MOVE {
            if data.len() < 9 {
                return Err(DecodeError::MissingMoveLength);
            }
            let move_len = read_be_u32(data, 5);
            if ((data.len() - 9) as u64) < (move_len as u64) {
                return Err(DecodeError::TruncatedMove);
            }
            let end: usize = 9 + move_len as usize;
            let mut text: Vec<u8> = Vec::new();
            let mut i: usize = 9;
            while i < end
                invariant
                    9 <= i <= end <= data@.len(),
                    text@ == data@.subrange(9, i as int),
                decreases end - i,
            {
                text.push(data[i]);
                i = i + 1;
                assert(text@ =~= data@.subrange(9, i as int));
            }
            match string_from_utf8(text) {
                Some(move_san) => Ok(Transaction::MakeMove { game_id, move_san }),
                None => Err(DecodeError::InvalidUtf8),
            }
        } else {
            Err(DecodeError::UnknownTag)
        }
    }
}

} // verus!

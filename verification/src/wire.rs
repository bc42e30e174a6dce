//! The two messages that the peers exchange, as bytes on the wire.
//!
//! A Shot message is four bytes, `<row>,<col>\n`, with one decimal digit for
//! the row and one for the column. A Result message is two bytes, `h\n` for a
//! hit and `m\n` for a miss. Nothing frames the messages but their fixed
//! lengths, so every decoder here rejects whatever is not exactly a message.

use vstd::prelude::*;
use crate::SIZE;
use crate::board::FireResult;

verus! {

/// Why a sequence of bytes was not accepted as a message.
#[derive(Clone, Copy, PartialEq, Eq, Debug, Structural)]
pub enum ProtocolError {
    /// The bytes are not a Shot message.
    MalformedShot,
    /// The bytes are not a Result message.
    MalformedResult,
}

/// ASCII `0`, the least digit.
pub const ASCII_ZERO: u8 = 48;

/// ASCII `9`, the greatest digit.
pub const ASCII_NINE: u8 = 57;

/// ASCII `,`, which parts the row from the column in a Shot message.
pub const COMMA: u8 = 44;

/// ASCII line feed, which ends every message.
pub const NEWLINE: u8 = 10;

/// ASCII `h`, which reports a hit.
pub const HIT: u8 = 104;

/// ASCII `m`, which reports a miss.
pub const MISS: u8 = 109;

/// The ASCII digit that stands for `n`.
pub open spec fn digit(n: int) -> u8 {
    (ASCII_ZERO + n) as u8
}

/// The Shot message that names the cell at `row`, `col`.
pub open spec fn shot_message(row: int, col: int) -> Seq<u8> {
    seq![digit(row), COMMA, digit(col), NEWLINE]
}

/// The Result message: whether the shot just received hit a ship.
pub open spec fn result_message(hit: bool) -> Seq<u8> {
    seq![if hit { HIT } else { MISS }, NEWLINE]
}

/// The cell that `bytes` names, if they are a Shot message.
pub open spec fn parse_shot(bytes: Seq<u8>) -> Option<(usize, usize)> {
    if bytes.len() == 4 && ASCII_ZERO <= bytes[0] <= ASCII_NINE && bytes[1] == COMMA && ASCII_ZERO
        <= bytes[2] <= ASCII_NINE && bytes[3] == NEWLINE {
        Some(((bytes[0] - ASCII_ZERO) as usize, (bytes[2] - ASCII_ZERO) as usize))
    } else {
        None
    }
}

/// The outcome that `bytes` report, if they are a Result message.
pub open spec fn parse_result(bytes: Seq<u8>) -> Option<FireResult> {
    if bytes.len() == 2 && bytes[0] == HIT && bytes[1] == NEWLINE {
        Some(FireResult::Hit)
    } else if bytes.len() == 2 && bytes[0] == MISS && bytes[1] == NEWLINE {
        Some(FireResult::Miss)
    } else {
        None
    }
}

/// The Shot message for a cell of the board.
pub(crate) fn shot_bytes(row: usize, col: usize) -> (message: [u8; 4])
    requires
        row < SIZE,
        col < SIZE,
    ensures
        message@ == shot_message(row as int, col as int),
{
    [ASCII_ZERO + row as u8, COMMA, ASCII_ZERO + col as u8, NEWLINE]
}

/// Encodes a shot at the cell `row`, `col`. A coordinate that does not fit
/// one digit cannot be sent, and gives `None`.
pub fn encode_shot(row: usize, col: usize) -> (message: Option<[u8; 4]>)
    ensures
        row < SIZE && col < SIZE ==> message is Some && message.unwrap()@ == shot_message(
            row as int,
            col as int,
        ),
        !(row < SIZE && col < SIZE) ==> message is None,
{
    if row < SIZE && col < SIZE {
        Some(shot_bytes(row, col))
    } else {
        None
    }
}

/// Decodes a Shot message.
pub fn decode_shot(bytes: &[u8]) -> (shot: Result<(usize, usize), ProtocolError>)
    ensures
        shot == match parse_shot(bytes@) {
            Some(cell) => Ok::<(usize, usize), ProtocolError>(cell),
            None => Err(ProtocolError::MalformedShot),
        },
{
    if bytes.len() != 4 {
        return Err(ProtocolError::MalformedShot);
    }
    let row_digit: u8 = bytes[0];
    let col_digit: u8 = bytes[2];
    if ASCII_ZERO <= row_digit && row_digit <= ASCII_NINE && bytes[1] == COMMA && ASCII_ZERO
        <= col_digit && col_digit <= ASCII_NINE && bytes[3] == NEWLINE {
        Ok(((row_digit - ASCII_ZERO) as usize, (col_digit - ASCII_ZERO) as usize))
    } else {
        Err(ProtocolError::MalformedShot)
    }
}

/// Encodes the answer to a shot.
pub fn encode_result(hit: bool) -> (message: [u8; 2])
    ensures
        message@ == result_message(hit),
{
    [if hit { HIT } else { MISS }, NEWLINE]
}

/// Decodes a Result message.
pub fn decode_result(bytes: &[u8]) -> (result: Result<FireResult, ProtocolError>)
    ensures
        result == match parse_result(bytes@) {
            Some(outcome) => Ok::<FireResult, ProtocolError>(outcome),
            None => Err(ProtocolError::MalformedResult),
        },
{
    if bytes.len() != 2 || bytes[1] != NEWLINE {
        Err(ProtocolError::MalformedResult)
    } else if bytes[0] == HIT {
        Ok(FireResult::Hit)
    } else if bytes[0] == MISS {
        Ok(FireResult::Miss)
    } else {
        Err(ProtocolError::MalformedResult)
    }
}

/// Decoding undoes encoding: the Shot message for a cell of the board parses
/// back to that cell.
pub proof fn shot_round_trip(row: int, col: int)
    requires
        0 <= row < SIZE,
        0 <= col < SIZE,
    ensures
        parse_shot(shot_message(row, col)) == Some((row as usize, col as usize)),
{
}

/// Only Shot messages parse: whatever parses to a cell is the Shot message
/// for that cell, and the cell lies on the board.
pub proof fn parsed_shot_is_message(bytes: Seq<u8>)
    requires
        parse_shot(bytes) is Some,
    ensures
        parse_shot(bytes).unwrap().0 < SIZE,
        parse_shot(bytes).unwrap().1 < SIZE,
        bytes == shot_message(
            parse_shot(bytes).unwrap().0 as int,
            parse_shot(bytes).unwrap().1 as int,
        ),
{
}

/// A Result message parses back to the outcome that it reports, which is
/// never `Unknown`.
pub proof fn result_round_trip(hit: bool)
    ensures
        parse_result(result_message(hit)) == Some(
            if hit {
                FireResult::Hit
            } else {
                FireResult::Miss
            },
        ),
{
}

/// Only Result messages parse: whatever parses reports a hit or a miss, and
/// is the Result message for it.
pub proof fn parsed_result_is_message(bytes: Seq<u8>)
    requires
        parse_result(bytes) is Some,
    ensures
        parse_result(bytes) != Some(FireResult::Unknown),
        bytes == result_message(parse_result(bytes) == Some(FireResult::Hit)),
{
}

} // verus!

//! Binary payloads of the platform/application protocol: file contents
//! travel inside the JSON messages as standard base64 text (with padding).

use vstd::prelude::*;
use base64::DecodeError;
use base64::Engine;

verus! {

/// `base64::DecodeError`, the reason a text is not standard base64.
#[verifier::external_type_specification]
#[verifier::external_body]
pub struct ExDecodeError(DecodeError);

/// The standard base64 text (`+` and `/`, `=` padding) of some bytes, as
/// `base64::engine::general_purpose::STANDARD.encode` writes it.
pub uninterp spec fn base64_text(bytes: Seq<u8>) -> Seq<char>;

/// The bytes `STANDARD.decode` reads from a text, if it reads any.
pub uninterp spec fn base64_bytes(text: Seq<char>) -> Option<Seq<u8>>;

/// Length of the padded base64 text of `n` bytes: four characters for
/// every started group of three bytes.
pub open spec fn padded_len(n: nat) -> nat {
    4 * ((n + 2) / 3)
}

/// `STANDARD.encode(bytes)`. The text depends on the bytes alone and is
/// named; its length is `base64::encoded_len` with padding, and
/// `STANDARD.decode` reads the bytes back from it. The source panics where
/// that length does not fit in `usize`, which `requires` rules out.
#[verifier::external_body]
fn standard_encode(bytes: &[u8]) -> (r: String)
    requires
        padded_len(bytes@.len()) <= usize::MAX,
    ensures
        r@ == base64_text(bytes@),
        r@.len() == padded_len(bytes@.len()),
        base64_bytes(r@) == Some(bytes@),
{
    base64::engine::general_purpose::STANDARD.encode(bytes)
}

/// `STANDARD.decode(text)`. What it reads depends on the text alone and is
/// named.
#[verifier::external_body]
fn standard_decode(text: &str) -> (r: Result<Vec<u8>, DecodeError>)
    ensures
        (match r {
            Ok(v) => base64_bytes(text@) == Some(v@),
            Err(_) => base64_bytes(text@) is None,
        }),
{
    base64::engine::general_purpose::STANDARD.decode(text)
}

/// Why a payload text does not decode (the cases of `base64::DecodeError`).
#[derive(Debug, Clone, Copy, PartialEq, Eq, Structural)]
pub enum PayloadError {
    /// A character outside the alphabet, at a byte offset.
    InvalidByte { offset: usize, byte: u8 },
    /// The number of base64 symbols cannot be a valid encoding.
    InvalidLength { symbols: usize },
    /// The last symbol carries bits that would be dropped.
    InvalidLastSymbol { offset: usize, byte: u8 },
    /// Padding is missing or misplaced.
    InvalidPadding,
}

/// Tells the cases of a `base64::DecodeError` apart.
#[verifier::external_body]
fn payload_error(e: DecodeError) -> (r: PayloadError) {
    match e {
        DecodeError::InvalidByte(offset, byte) => PayloadError::InvalidByte { offset, byte },
        DecodeError::InvalidLength(symbols) => PayloadError::InvalidLength { symbols },
        DecodeError::InvalidLastSymbol(offset, byte) => PayloadError::InvalidLastSymbol { offset, byte },
        DecodeError::InvalidPadding => PayloadError::InvalidPadding,
    }
}

/// Writes a payload as the base64 text that travels in a message.
pub fn encode_payload(data: &[u8]) -> (r: String)
    requires
        padded_len(data@.len()) <= usize::MAX,
    ensures
        r@ == base64_text(data@),
        r@.len() == padded_len(data@.len()),
        base64_bytes(r@) == Some(data@),
{
    standard_encode(data)
}

/// Reads a payload back from the base64 text of a message (text written by
/// `encode_payload` gives back the bytes it was written from: see there).
pub fn decode_payload(text: &str) -> (r: Result<Vec<u8>, PayloadError>)
    ensures
        (match r {
            Ok(v) => base64_bytes(text@) == Some(v@),
            Err(_) => base64_bytes(text@) is None,
        }),
{
    match standard_decode(text) {
        Ok(v) => Ok(v),
        Err(e) => Err(payload_error(e)),
    }
}

/// One message on the IPC socket: its JSON text, then a newline.
pub fn ipc_line(json: &str) -> (r: String)
    ensures
        r@ == json@ + seq!['\n'],
{
    let mut r = String::from_str(json);
    proof { reveal_strlit("\n"); }
    r.append("\n");
    r
}

/// What reading a line from an application's IPC connection gave.
#[derive(Debug, Clone, Copy, PartialEq, Eq, Structural)]
pub enum LineRead {
    /// The connection was closed (nothing was read).
    Closed,
    /// A line of this many bytes was read.
    Line { bytes: usize },
    /// Reading failed.
    Failed,
}

/// What the server does after reading from an application's connection:
/// whether it parses the line and reads on (`true`) or ends the
/// connection (`false`).
pub fn ipc_read_on(read: LineRead) -> (r: bool)
    ensures
        r == (read is Line),
{
    match read {
        LineRead::Line { .. } => true,
        _ => false,
    }
}

} // verus!

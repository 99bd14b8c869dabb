//! The envelopes that travel between a client and a server.
//!
//! A request envelope is one selector byte, which names the operation,
//! followed by the arguments of that operation at fixed offsets. Integers
//! wider than a byte are little-endian. What the selectors and arguments of
//! a service are is said where the service is defined.
//!
//! A response envelope is one status byte followed by a payload. Status 0 is
//! success, and the payload is the result of the operation, of the length
//! that the operation fixes. Any other status is the code of a
//! [`ClientError`]: the server turned the request down without acting on it,
//! and no payload follows.

use vstd::prelude::*;

verus! {

/// Why a server turned a request down.
#[derive(Copy, Clone, Debug, PartialEq, Eq, Structural)]
pub enum ClientError {
    /// The selector names no operation of the service.
    UnknownOperation,
    /// The envelope is shorter or longer than the operation's arguments.
    BadMessageSize,
    /// An argument holds a value outside its type.
    BadMessageContents,
}

/// How a call ended other than by a result.
#[derive(Copy, Clone, Debug, PartialEq, Eq, Structural)]
pub enum CallError {
    /// The server was restarted, and the operation is not one to repeat.
    PeerRestarted,
    /// The server turned the request down.
    Rejected(ClientError),
    /// The response is no response envelope of the operation. Client and
    /// server are built from one description of the service, so this cannot
    /// happen in a system that is put together correctly.
    Malformed,
}

impl ClientError {
    /// The status byte that stands for this error.
    pub open spec fn code(self) -> int {
        match self {
            ClientError::UnknownOperation => 1,
            ClientError::BadMessageSize => 2,
            ClientError::BadMessageContents => 3,
        }
    }

    /// The error that the status byte `code` stands for, if any.
    pub open spec fn of_code(code: int) -> Option<ClientError> {
        if code == 1 {
            Some(ClientError::UnknownOperation)
        } else if code == 2 {
            Some(ClientError::BadMessageSize)
        } else if code == 3 {
            Some(ClientError::BadMessageContents)
        } else {
            None
        }
    }

    /// The status byte that stands for this error.
    pub fn to_u8(self) -> (raw: u8)
        ensures
            raw == self.code(),
    {
        match self {
            ClientError::UnknownOperation => 1,
            ClientError::BadMessageSize => 2,
            ClientError::BadMessageContents => 3,
        }
    }

    /// The error that the status byte `raw` stands for, if any.
    pub fn from_u8(raw: u8) -> (error: Option<ClientError>)
        ensures
            error == ClientError::of_code(raw as int),
    {
        match raw {
            1 => Some(ClientError::UnknownOperation),
            2 => Some(ClientError::BadMessageSize),
            3 => Some(ClientError::BadMessageContents),
            _ => None,
        }
    }
}

/// The two bytes of a 16-bit integer, low byte first.
pub open spec fn le16(value: u16) -> Seq<u8> {
    seq![(value % 256) as u8, (value / 256) as u8]
}

/// The four bytes of a 32-bit integer, low byte first.
pub open spec fn le32(value: u32) -> Seq<u8> {
    seq![
        (value % 256) as u8,
        (value / 256 % 256) as u8,
        (value / 65536 % 256) as u8,
        (value / 16777216) as u8,
    ]
}

/// The integer whose bytes, low byte first, are `bytes`.
pub open spec fn le_value(bytes: Seq<u8>) -> int
    decreases bytes.len(),
{
    if bytes.len() == 0 {
        0
    } else {
        bytes[0] + 256 * le_value(bytes.drop_first())
    }
}

/// The response envelope of a success with result `payload`.
pub open spec fn success_envelope(payload: Seq<u8>) -> Seq<u8> {
    seq![0u8] + payload
}

/// The response envelope of a request turned down for `error`.
pub open spec fn rejection_envelope(error: ClientError) -> Seq<u8> {
    seq![error.code() as u8]
}

/// What the response envelope `bytes` says to the caller of an operation
/// whose result is `payload_len` bytes long: the result, the error that the
/// server gave, or that `bytes` is no such envelope.
pub open spec fn response_of(bytes: Seq<u8>, payload_len: int) -> Result<Seq<u8>, CallError> {
    if bytes.len() == 0 {
        Err(CallError::Malformed)
    } else if bytes[0] == 0 {
        if bytes.len() == 1 + payload_len {
            Ok(bytes.drop_first())
        } else {
            Err(CallError::Malformed)
        }
    } else {
        match ClientError::of_code(bytes[0] as int) {
            Some(error) if bytes.len() == 1 => Err(CallError::Rejected(error)),
            _ => Err(CallError::Malformed),
        }
    }
}

/// Appends `bytes` to `buffer`.
pub fn append(buffer: &mut Vec<u8>, bytes: &[u8])
    ensures
        final(buffer)@ == old(buffer)@ + bytes@,
{
    let mut i: usize = 0;
    while i < bytes.len()
        invariant
            i <= bytes.len(),
            buffer@ == old(buffer)@ + bytes@.subrange(0, i as int),
        decreases bytes.len() - i,
    {
        buffer.push(bytes[i]);
        i = i + 1;
    }
    assert(bytes@.subrange(0, i as int) == bytes@);
}

/// Appends a 16-bit integer to `buffer`, low byte first.
pub fn append_u16(buffer: &mut Vec<u8>, value: u16)
    ensures
        final(buffer)@ == old(buffer)@ + le16(value),
{
    buffer.push((value % 256) as u8);
    buffer.push((value / 256) as u8);
}

/// Appends a 32-bit integer to `buffer`, low byte first.
pub fn append_u32(buffer: &mut Vec<u8>, value: u32)
    ensures
        final(buffer)@ == old(buffer)@ + le32(value),
{
    buffer.push((value % 256) as u8);
    buffer.push((value / 256 % 256) as u8);
    buffer.push((value / 65536 % 256) as u8);
    buffer.push((value / 16777216) as u8);
}

/// Reads the 16-bit integer whose two bytes, low byte first, start at
/// `bytes[at]`.
pub fn read_u16(bytes: &[u8], at: usize) -> (value: u16)
    requires
        at + 2 <= bytes@.len(),
    ensures
        value == le_value(bytes@.subrange(at as int, at + 2)),
        le16(value) == bytes@.subrange(at as int, at + 2),
{
    proof {
        lemma_le_value_two(bytes@.subrange(at as int, at + 2));
    }
    let low: u16 = bytes[at] as u16;
    let high: u16 = bytes[at + 1] as u16;
    let value = low + 256 * high;
    assert(le16(value) =~= bytes@.subrange(at as int, at + 2));
    value
}

/// Reads the 32-bit integer whose four bytes, low byte first, start at
/// `bytes[at]`.
pub fn read_u32(bytes: &[u8], at: usize) -> (value: u32)
    requires
        at + 4 <= bytes@.len(),
    ensures
        value == le_value(bytes@.subrange(at as int, at + 4)),
        le32(value) == bytes@.subrange(at as int, at + 4),
{
    let b0: u32 = bytes[at] as u32;
    let b1: u32 = bytes[at + 1] as u32;
    let b2: u32 = bytes[at + 2] as u32;
    let b3: u32 = bytes[at + 3] as u32;
    proof {
        lemma_le_value_four(bytes@.subrange(at as int, at + 4));
        lemma_bytes_of_sum(b0, b1, b2, b3);
    }
    let value = b0 + 256 * b1 + 65536 * b2 + 16777216 * b3;
    assert(le32(value) =~= bytes@.subrange(at as int, at + 4));
    value
}

proof fn lemma_bytes_of_sum(b0: u32, b1: u32, b2: u32, b3: u32)
    by (bit_vector)
    requires
        b0 < 256,
        b1 < 256,
        b2 < 256,
        b3 < 256,
    ensures
        b0 + 256 * b1 + 65536 * b2 + 16777216 * b3 < 0x1_0000_0000,
        (b0 + 256 * b1 + 65536 * b2 + 16777216 * b3) % 256 == b0,
        (b0 + 256 * b1 + 65536 * b2 + 16777216 * b3) / 256 % 256 == b1,
        (b0 + 256 * b1 + 65536 * b2 + 16777216 * b3) / 65536 % 256 == b2,
        (b0 + 256 * b1 + 65536 * b2 + 16777216 * b3) / 16777216 == b3,
{
}

/// The value of two bytes.
pub proof fn lemma_le_value_two(bytes: Seq<u8>)
    requires
        bytes.len() == 2,
    ensures
        le_value(bytes) == bytes[0] + 256 * bytes[1],
{
    reveal_with_fuel(le_value, 3);
}

/// The value of four bytes.
pub proof fn lemma_le_value_four(bytes: Seq<u8>)
    requires
        bytes.len() == 4,
    ensures
        le_value(bytes) == bytes[0] + 256 * bytes[1] + 65536 * bytes[2] + 16777216 * bytes[3],
{
    reveal_with_fuel(le_value, 5);
}

/// The bytes of an integer have that integer as their value.
pub proof fn lemma_le_round_trip(narrow: u16, wide: u32)
    ensures
        le_value(le16(narrow)) == narrow,
        le_value(le32(wide)) == wide,
{
    lemma_le_value_two(le16(narrow));
    lemma_le_value_four(le32(wide));
}

/// The response envelope of a success with result `payload`.
pub fn encode_success(payload: &[u8]) -> (envelope: Vec<u8>)
    ensures
        envelope@ == success_envelope(payload@),
{
    let mut envelope: Vec<u8> = Vec::new();
    envelope.push(0);
    append(&mut envelope, payload);
    envelope
}

/// The response envelope of a request turned down for `error`.
pub fn encode_rejection(error: ClientError) -> (envelope: Vec<u8>)
    ensures
        envelope@ == rejection_envelope(error),
{
    let mut envelope: Vec<u8> = Vec::new();
    envelope.push(error.to_u8());
    envelope
}

/// Reads the response envelope of an operation whose result is
/// `payload_len` bytes long.
pub fn decode_response(bytes: &[u8], payload_len: usize) -> (outcome: Result<Vec<u8>, CallError>)
    ensures
        match response_of(bytes@, payload_len as int) {
            Ok(payload) => outcome matches Ok(found) && found@ == payload,
            Err(error) => outcome matches Err(found) && found == error,
        },
{
    if bytes.len() == 0 {
        return Err(CallError::Malformed);
    }
    let status = bytes[0];
    if status == 0 {
        if bytes.len() - 1 == payload_len {
            let mut payload: Vec<u8> = Vec::new();
            append(&mut payload, &bytes[1..bytes.len()]);
            assert(payload@ == bytes@.drop_first());
            Ok(payload)
        } else {
            Err(CallError::Malformed)
        }
    } else {
        match ClientError::from_u8(status) {
            Some(error) => {
                if bytes.len() == 1 {
                    Err(CallError::Rejected(error))
                } else {
                    Err(CallError::Malformed)
                }
            },
            None => Err(CallError::Malformed),
        }
    }
}

/// A response envelope that a server wrote is read by the client as the
/// server meant it: a success as its payload, if that has the length the
/// operation fixes, and a rejection as its error.
pub proof fn lemma_response_round_trip(payload: Seq<u8>, error: ClientError)
    ensures
        response_of(success_envelope(payload), payload.len() as int) == Ok::<
            Seq<u8>,
            CallError,
        >(payload),
        response_of(rejection_envelope(error), payload.len() as int) == Err::<
            Seq<u8>,
            CallError,
        >(CallError::Rejected(error)),
{
    assert(success_envelope(payload).drop_first() =~= payload);
}

/// Only the envelope that a server writes is read as its response: a
/// sequence of bytes is read as a success only if it is the envelope of
/// that success, with a result of the length the operation fixes, and as
/// a rejection only if it is the envelope of that rejection. Every other
/// sequence, a shorter or a longer one too, is malformed.
pub proof fn lemma_response_exact(bytes: Seq<u8>, payload_len: int)
    ensures
        response_of(bytes, payload_len) matches Ok(payload) ==> bytes == success_envelope(payload)
            && payload.len() == payload_len,
        response_of(bytes, payload_len) matches Err(CallError::Rejected(error)) ==> bytes
            == rejection_envelope(error),
        response_of(bytes, payload_len) != Err::<Seq<u8>, CallError>(CallError::PeerRestarted),
{
    if bytes.len() > 0 {
        assert(seq![bytes[0]] + bytes.drop_first() =~= bytes);
        if bytes.len() == 1 {
            assert(seq![bytes[0]] =~= bytes);
        }
    }
}

} // verus!

//! The client side of the pin controller: the requests of the service, their
//! envelopes, and the calls that a client makes.
//!
//! | selector | operation | arguments                                   | result      |
//! |----------|-----------|---------------------------------------------|-------------|
//! | 1        | configure | pin byte, packed attribute word (two bytes) | none        |
//! | 2        | set       | pin byte, level byte                        | none        |
//! | 3        | read      | pin byte                                    | level byte  |
//! | 4        | toggle    | pin byte                                    | none        |
//!
//! Configure, set and read leave the same state behind however often they
//! are carried out, so a client repeats them when the server was restarted.
//! Toggle is not repeated.

use vstd::prelude::*;
use crate::attributes::{packed, unpacked, Alternate, Mode, OutputType, Pull, Speed, Value};
use crate::call::{Call, CallModel};
use crate::pin::{lemma_encode_unpack, Pin};
use crate::task::TaskHandle;
use crate::wire::{append_u16, le16, le_value, lemma_le_value_two, read_u16, CallError, ClientError};

verus! {

/// The length of the longest request envelope of the service.
pub const INCOMING_SIZE: usize = 4;

/// The length of the longest response envelope of the service.
pub const REPLY_SIZE: usize = 2;

/// One request to the pin controller.
#[derive(Copy, Clone, Debug, PartialEq, Eq, Structural)]
pub enum GpioRequest {
    /// Give a pin the configuration that a packed word stands for.
    Configure { pin: Pin, packed_attributes: u16 },
    /// Drive a pin to a level.
    SetVal { pin: Pin, value: Value },
    /// Read the level of a pin.
    ReadVal { pin: Pin },
    /// Invert the level of a pin.
    Toggle { pin: Pin },
}

impl GpioRequest {
    /// The selector of the operation.
    pub open spec fn selector(self) -> u8 {
        match self {
            GpioRequest::Configure { .. } => 1,
            GpioRequest::SetVal { .. } => 2,
            GpioRequest::ReadVal { .. } => 3,
            GpioRequest::Toggle { .. } => 4,
        }
    }

    /// The arguments of the request as they stand in its envelope.
    pub open spec fn arguments(self) -> Seq<u8> {
        match self {
            GpioRequest::Configure { pin, packed_attributes } => seq![pin.code() as u8] + le16(
                packed_attributes,
            ),
            GpioRequest::SetVal { pin, value } => seq![pin.code() as u8, value.code() as u8],
            GpioRequest::ReadVal { pin } => seq![pin.code() as u8],
            GpioRequest::Toggle { pin } => seq![pin.code() as u8],
        }
    }

    /// The length of the result of the operation.
    pub open spec fn payload_len(self) -> int {
        match self {
            GpioRequest::ReadVal { .. } => 1,
            _ => 0,
        }
    }

    /// Whether carrying the request out twice leaves the same state as
    /// carrying it out once.
    pub open spec fn idempotent(self) -> bool {
        !(self is Toggle)
    }

    /// Whether the request can be carried out: its packed word, if it has
    /// one, stands for a configuration.
    pub open spec fn well_formed(self) -> bool {
        match self {
            GpioRequest::Configure { packed_attributes, .. } => unpacked(
                packed_attributes as int,
            ) is Some,
            _ => true,
        }
    }

    /// The request envelope: the selector, then the arguments.
    pub open spec fn encoded(self) -> Seq<u8> {
        seq![self.selector()] + self.arguments()
    }

    /// The request that the envelope `bytes` holds, or the reason why the
    /// server turns it down.
    ///
    /// An envelope without a selector, or of another length than the
    /// arguments of its operation, has a bad size. A selector other than 1
    /// to 4 names no operation, whatever follows it. A pin byte that names
    /// no pin, a level byte other than 0 and 1, and a packed word that stands
    /// for no configuration are bad contents.
    pub open spec fn decoded(bytes: Seq<u8>) -> Result<GpioRequest, ClientError> {
        if bytes.len() == 0 {
            Err(ClientError::BadMessageSize)
        } else if bytes[0] == 1 {
            if bytes.len() != 4 {
                Err(ClientError::BadMessageSize)
            } else {
                match Pin::of_code(bytes[1] as int) {
                    Some(pin) if unpacked(le_value(bytes.subrange(2, 4))) is Some => Ok(
                        GpioRequest::Configure {
                            pin,
                            packed_attributes: le_value(bytes.subrange(2, 4)) as u16,
                        },
                    ),
                    _ => Err(ClientError::BadMessageContents),
                }
            }
        } else if bytes[0] == 2 {
            if bytes.len() != 3 {
                Err(ClientError::BadMessageSize)
            } else {
                match (Pin::of_code(bytes[1] as int), Value::of_code(bytes[2] as int)) {
                    (Some(pin), Some(value)) => Ok(GpioRequest::SetVal { pin, value }),
                    _ => Err(ClientError::BadMessageContents),
                }
            }
        } else if bytes[0] == 3 || bytes[0] == 4 {
            if bytes.len() != 2 {
                Err(ClientError::BadMessageSize)
            } else {
                match Pin::of_code(bytes[1] as int) {
                    Some(pin) => Ok(
                        if bytes[0] == 3 {
                            GpioRequest::ReadVal { pin }
                        } else {
                            GpioRequest::Toggle { pin }
                        },
                    ),
                    None => Err(ClientError::BadMessageContents),
                }
            }
        } else {
            Err(ClientError::UnknownOperation)
        }
    }

    /// Writes the request envelope.
    pub fn encode(&self) -> (envelope: Vec<u8>)
        ensures
            envelope@ == self.encoded(),
            envelope@.len() <= INCOMING_SIZE,
    {
        let mut envelope: Vec<u8> = Vec::new();
        match *self {
            GpioRequest::Configure { pin, packed_attributes } => {
                envelope.push(1);
                envelope.push(pin.to_u8());
                append_u16(&mut envelope, packed_attributes);
            },
            GpioRequest::SetVal { pin, value } => {
                envelope.push(2);
                envelope.push(pin.to_u8());
                envelope.push(value.to_u8());
            },
            GpioRequest::ReadVal { pin } => {
                envelope.push(3);
                envelope.push(pin.to_u8());
            },
            GpioRequest::Toggle { pin } => {
                envelope.push(4);
                envelope.push(pin.to_u8());
            },
        }
        assert(envelope@ =~= self.encoded());
        envelope
    }

    /// Reads a request envelope.
    pub fn decode(bytes: &[u8]) -> (outcome: Result<GpioRequest, ClientError>)
        ensures
            outcome == GpioRequest::decoded(bytes@),
            outcome matches Ok(request) ==> request.well_formed(),
    {
        if bytes.len() == 0 {
            return Err(ClientError::BadMessageSize);
        }
        match bytes[0] {
            1 => {
                if bytes.len() != 4 {
                    return Err(ClientError::BadMessageSize);
                }
                let packed_attributes = read_u16(bytes, 2);
                match (Pin::from_u8(bytes[1]), Gpios::try_unpack_attribute(packed_attributes)) {
                    (Some(pin), Some(_)) => Ok(GpioRequest::Configure { pin, packed_attributes }),
                    _ => Err(ClientError::BadMessageContents),
                }
            },
            2 => {
                if bytes.len() != 3 {
                    return Err(ClientError::BadMessageSize);
                }
                match (Pin::from_u8(bytes[1]), Value::from_u8(bytes[2])) {
                    (Some(pin), Some(value)) => Ok(GpioRequest::SetVal { pin, value }),
                    _ => Err(ClientError::BadMessageContents),
                }
            },
            3 => {
                if bytes.len() != 2 {
                    return Err(ClientError::BadMessageSize);
                }
                match Pin::from_u8(bytes[1]) {
                    Some(pin) => Ok(GpioRequest::ReadVal { pin }),
                    None => Err(ClientError::BadMessageContents),
                }
            },
            4 => {
                if bytes.len() != 2 {
                    return Err(ClientError::BadMessageSize);
                }
                match Pin::from_u8(bytes[1]) {
                    Some(pin) => Ok(GpioRequest::Toggle { pin }),
                    None => Err(ClientError::BadMessageContents),
                }
            },
            _ => Err(ClientError::UnknownOperation),
        }
    }

    /// Whether a client sends the request again when the server was
    /// restarted.
    pub fn is_idempotent(&self) -> (repeat: bool)
        ensures
            repeat == self.idempotent(),
    {
        !matches!(self, GpioRequest::Toggle { .. })
    }

    /// The length of the result of the operation.
    pub fn result_len(&self) -> (len: usize)
        ensures
            len == self.payload_len(),
    {
        match self {
            GpioRequest::ReadVal { .. } => 1,
            _ => 0,
        }
    }
}

/// The envelope of a request that can be carried out is read back as that
/// request.
pub proof fn lemma_decode_encode(request: GpioRequest)
    requires
        request.well_formed(),
    ensures
        GpioRequest::decoded(request.encoded()) == Ok::<GpioRequest, ClientError>(request),
{
    match request {
        GpioRequest::Configure { pin, packed_attributes } => {
            lemma_encode_unpack(pin);
            let bytes = request.encoded();
            assert(bytes.subrange(2, 4) =~= le16(packed_attributes));
            lemma_le_value_two(le16(packed_attributes));
        },
        GpioRequest::SetVal { pin, value } => {
            lemma_encode_unpack(pin);
        },
        GpioRequest::ReadVal { pin } => {
            lemma_encode_unpack(pin);
        },
        GpioRequest::Toggle { pin } => {
            lemma_encode_unpack(pin);
        },
    }
}

/// Only the envelope that encoding writes is read as a request: every other
/// sequence of bytes, a shorter or a longer one too, is turned down or read
/// as another request.
pub proof fn lemma_encode_decode(bytes: Seq<u8>)
    requires
        GpioRequest::decoded(bytes) is Ok,
    ensures
        GpioRequest::decoded(bytes)->Ok_0.encoded() == bytes,
        GpioRequest::decoded(bytes)->Ok_0.well_formed(),
{
    let request = GpioRequest::decoded(bytes)->Ok_0;
    if bytes[0] == 1 {
        lemma_le_value_two(bytes.subrange(2, 4));
        assert(le16(le_value(bytes.subrange(2, 4)) as u16) =~= bytes.subrange(2, 4));
    }
    assert(request.encoded() =~= bytes);
}

/// The call by which the client behind `handle` makes `request`.
pub open spec fn request_call(handle: TaskHandle, request: GpioRequest) -> CallModel {
    CallModel {
        target: handle,
        envelope: request.encoded(),
        payload_len: request.payload_len(),
        retry: request.idempotent(),
    }
}

/// The level that the result `payload` of a read holds.
pub open spec fn level_of(payload: Seq<u8>) -> Result<Value, CallError> {
    if payload.len() == 1 && Value::of_code(payload[0] as int) is Some {
        Ok(Value::of_code(payload[0] as int)->0)
    } else {
        Err(CallError::Malformed)
    }
}

/// A client of the pin controller task.
#[derive(Copy, Clone, Debug, PartialEq, Eq, Structural)]
pub struct Gpios {
    pub handle: TaskHandle,
}

impl Gpios {
    /// A client that reaches the pin controller through `handle`.
    pub fn new(handle: TaskHandle) -> (client: Gpios)
        ensures
            client.handle == handle,
    {
        Gpios { handle }
    }

    /// Packs a configuration into one word.
    pub fn pack_attribute(
        mode: Mode,
        output_type: OutputType,
        speed: Speed,
        pull: Pull,
        af: Alternate,
    ) -> (word: u16)
        ensures
            word == packed(mode, output_type, speed, pull, af),
    {
        let m: u16 = mode.to_u16();
        let o: u16 = output_type.to_u16();
        let s: u16 = speed.to_u16();
        let p: u16 = pull.to_u16();
        let a: u16 = af.to_u16();
        assert(m | o << 2 | s << 3 | p << 5 | a << 7 == m + 4 * o + 8 * s + 32 * p + 128 * a)
            by (bit_vector)
            requires
                m < 4,
                o < 2,
                s < 4,
                p < 4,
                a < 16,
        ;
        m | o << 2 | s << 3 | p << 5 | a << 7
    }

    /// Unpacks a word that stands for a configuration.
    pub fn unpack_attribute(packed_attributes: u16) -> (config: (
        Mode,
        OutputType,
        Speed,
        Pull,
        Alternate,
    ))
        requires
            unpacked(packed_attributes as int) is Some,
        ensures
            Some(config) == unpacked(packed_attributes as int),
    {
        let w = packed_attributes;
        assert(w & 0x3 == w % 4 && (w >> 2) & 0x1 == (w / 4) % 2 && (w >> 3) & 0x3 == (w / 8) % 4
            && (w >> 5) & 0x3 == (w / 32) % 4 && (w >> 7) & 0xf == (w / 128) % 16)
            by (bit_vector);
        let mode = Mode::from_u16(packed_attributes & 0x3).unwrap();
        let output_type = OutputType::from_u16((packed_attributes >> 2) & 0x1).unwrap();
        let speed = Speed::from_u16((packed_attributes >> 3) & 0x3).unwrap();
        let pull = Pull::from_u16((packed_attributes >> 5) & 0x3).unwrap();
        let af = Alternate::from_u16((packed_attributes >> 7) & 0xf).unwrap();

        (mode, output_type, speed, pull, af)
    }

    /// Unpacks any word: `None` for a word that stands for no configuration.
    pub fn try_unpack_attribute(packed_attributes: u16) -> (config: Option<
        (Mode, OutputType, Speed, Pull, Alternate),
    >)
        ensures
            config == unpacked(packed_attributes as int),
    {
        let w = packed_attributes;
        assert((w >> 5) & 0x3 == (w / 32) % 4) by (bit_vector);
        if (packed_attributes >> 5) & 0x3 == 3 {
            None
        } else {
            Some(Gpios::unpack_attribute(packed_attributes))
        }
    }

    /// The call that makes `request`.
    pub fn call(&self, request: GpioRequest) -> (call: Call)
        ensures
            call@ == request_call(self.handle, request),
    {
        Call {
            target: self.handle,
            envelope: request.encode(),
            payload_len: request.result_len(),
            retry: request.is_idempotent(),
        }
    }

    /// The call that gives `pin` the configuration that `packed_attributes`
    /// stands for.
    pub fn gpio_configure_raw(&self, pin: Pin, packed_attributes: u16) -> (call: Call)
        ensures
            call@ == request_call(self.handle, GpioRequest::Configure { pin, packed_attributes }),
    {
        self.call(GpioRequest::Configure { pin, packed_attributes })
    }

    /// The call that drives `pin` to `value`.
    pub fn set_val(&self, pin: Pin, value: Value) -> (call: Call)
        ensures
            call@ == request_call(self.handle, GpioRequest::SetVal { pin, value }),
    {
        self.call(GpioRequest::SetVal { pin, value })
    }

    /// The call that reads the level of `pin`.
    pub fn read_val(&self, pin: Pin) -> (call: Call)
        ensures
            call@ == request_call(self.handle, GpioRequest::ReadVal { pin }),
    {
        self.call(GpioRequest::ReadVal { pin })
    }

    /// The call that inverts the level of `pin`.
    pub fn toggle(&self, pin: Pin) -> (call: Call)
        ensures
            call@ == request_call(self.handle, GpioRequest::Toggle { pin }),
    {
        self.call(GpioRequest::Toggle { pin })
    }

    /// The level that a read returned.
    pub fn read_val_result(payload: &[u8]) -> (level: Result<Value, CallError>)
        ensures
            level == level_of(payload@),
    {
        if payload.len() != 1 {
            return Err(CallError::Malformed);
        }
        match Value::from_u8(payload[0]) {
            Some(value) => Ok(value),
            None => Err(CallError::Malformed),
        }
    }

    /// Configures a pin.
    ///
    /// This is the raw operation, which can be useful for something
    /// unusual. See `gpio_configure_output`, `gpio_configure_input` and
    /// `gpio_configure_alternate` for the common cases.
    pub fn gpio_configure(
        &self,
        pin: Pin,
        mode: Mode,
        output_type: OutputType,
        speed: Speed,
        pull: Pull,
        af: Alternate,
    ) -> (call: Call)
        ensures
            call@ == request_call(
                self.handle,
                GpioRequest::Configure {
                    pin,
                    packed_attributes: packed(mode, output_type, speed, pull, af) as u16,
                },
            ),
    {
        let packed_attributes = Self::pack_attribute(mode, output_type, speed, pull, af);

        self.gpio_configure_raw(pin, packed_attributes)
    }

    /// Configures a pin as an input. Output type, speed and alternate
    /// function do not matter to an input: they are sent as push-pull, high
    /// and `AF0`.
    pub fn gpio_configure_input(&self, pin: Pin, pull: Pull) -> (call: Call)
        ensures
            call@ == request_call(
                self.handle,
                GpioRequest::Configure {
                    pin,
                    packed_attributes: packed(
                        Mode::Input,
                        OutputType::PushPull,
                        Speed::High,
                        pull,
                        Alternate::AF0,
                    ) as u16,
                },
            ),
    {
        self.gpio_configure(
            pin,
            Mode::Input,
            OutputType::PushPull,
            Speed::High,
            pull,
            Alternate::AF0,
        )
    }

    /// Configures a pin as an output. The alternate function does not matter
    /// to an output: it is sent as `AF0`.
    pub fn gpio_configure_output(
        &self,
        pin: Pin,
        output_type: OutputType,
        speed: Speed,
        pull: Pull,
    ) -> (call: Call)
        ensures
            call@ == request_call(
                self.handle,
                GpioRequest::Configure {
                    pin,
                    packed_attributes: packed(
                        Mode::Output,
                        output_type,
                        speed,
                        pull,
                        Alternate::AF0,
                    ) as u16,
                },
            ),
    {
        self.gpio_configure(pin, Mode::Output, output_type, speed, pull, Alternate::AF0)
    }

    /// Configures a pin for an alternate function.
    pub fn gpio_configure_alternate(
        &self,
        pin: Pin,
        output_type: OutputType,
        speed: Speed,
        pull: Pull,
        af: Alternate,
    ) -> (call: Call)
        ensures
            call@ == request_call(
                self.handle,
                GpioRequest::Configure {
                    pin,
                    packed_attributes: packed(Mode::Alternate, output_type, speed, pull, af) as u16,
                },
            ),
    {
        self.gpio_configure(pin, Mode::Alternate, output_type, speed, pull, af)
    }

    /// Configures a pin for an alternate function that is an input.
    ///
    /// Output type and speed are sent as open drain and high. This is right
    /// for inputs, but not for outputs or signals that go both ways.
    pub fn gpio_configure_alternate_input(&self, pin: Pin, pull: Pull, af: Alternate) -> (call:
        Call)
        ensures
            call@ == request_call(
                self.handle,
                GpioRequest::Configure {
                    pin,
                    packed_attributes: packed(
                        Mode::Alternate,
                        OutputType::OpenDrain,
                        Speed::High,
                        pull,
                        af,
                    ) as u16,
                },
            ),
    {
        self.gpio_configure_alternate(pin, OutputType::OpenDrain, Speed::High, pull, af)
    }
}

} // verus!

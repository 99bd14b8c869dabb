//! The configuration of one pin, and the 16-bit word it is packed into.
//!
//! Bit layout of the packed word:
//!
//! | bits   | field              |
//! |--------|--------------------|
//! | 1:0    | mode               |
//! | 2      | output type        |
//! | 4:3    | speed              |
//! | 6:5    | pull               |
//! | 10:7   | alternate function |
//!
//! Bits 15:11 are reserved. They are written as zero and ignored when a word
//! is read. The pull field has three meanings only; a word whose pull field
//! holds `0b11` stands for no configuration at all.

use vstd::prelude::*;

verus! {

/// Possible modes for a GPIO pin.
#[derive(Copy, Clone, Debug, PartialEq, Eq, Structural)]
pub enum Mode {
    Input,
    Output,
    Alternate,
    Analog,
}

/// How an output pin drives its line.
#[derive(Copy, Clone, Debug, PartialEq, Eq, Structural)]
pub enum OutputType {
    PushPull,
    OpenDrain,
}

/// Drive strength of an output pin.
#[derive(Copy, Clone, Debug, PartialEq, Eq, Structural)]
pub enum Speed {
    Low,
    Medium,
    High,
    VeryHigh,
}

/// Pull resistor of a pin.
#[derive(Copy, Clone, Debug, PartialEq, Eq, Structural)]
pub enum Pull {
    NoPull,
    Up,
    Down,
}

/// Alternate function selector of a pin.
#[derive(Copy, Clone, Debug, PartialEq, Eq, Structural)]
pub enum Alternate {
    AF0,
    AF1,
    AF2,
    AF3,
    AF4,
    AF5,
    AF6,
    AF7,
    AF8,
    AF9,
    AF10,
    AF11,
    AF12,
    AF13,
    AF14,
    AF15,
}

/// Logical level of a pin.
#[derive(Copy, Clone, Debug, PartialEq, Eq, Structural)]
pub enum Value {
    Zero,
    One,
}

impl Mode {
    /// The number that stands for this mode in a packed word.
    pub open spec fn code(self) -> int {
        match self {
            Mode::Input => 0,
            Mode::Output => 1,
            Mode::Alternate => 2,
            Mode::Analog => 3,
        }
    }

    /// The mode that `code` stands for, if any.
    pub open spec fn of_code(code: int) -> Option<Mode> {
        if code == 0 {
            Some(Mode::Input)
        } else if code == 1 {
            Some(Mode::Output)
        } else if code == 2 {
            Some(Mode::Alternate)
        } else if code == 3 {
            Some(Mode::Analog)
        } else {
            None
        }
    }

    /// The number that stands for this mode.
    pub fn to_u16(self) -> (raw: u16)
        ensures
            raw == self.code(),
    {
        match self {
            Mode::Input => 0,
            Mode::Output => 1,
            Mode::Alternate => 2,
            Mode::Analog => 3,
        }
    }

    /// The mode that the number `raw` stands for, if any.
    pub fn from_u16(raw: u16) -> (mode: Option<Mode>)
        ensures
            mode == Mode::of_code(raw as int),
    {
        match raw {
            0 => Some(Mode::Input),
            1 => Some(Mode::Output),
            2 => Some(Mode::Alternate),
            3 => Some(Mode::Analog),
            _ => None,
        }
    }
}

impl OutputType {
    /// The number that stands for this output type in a packed word.
    pub open spec fn code(self) -> int {
        match self {
            OutputType::PushPull => 0,
            OutputType::OpenDrain => 1,
        }
    }

    /// The output type that `code` stands for, if any.
    pub open spec fn of_code(code: int) -> Option<OutputType> {
        if code == 0 {
            Some(OutputType::PushPull)
        } else if code == 1 {
            Some(OutputType::OpenDrain)
        } else {
            None
        }
    }

    /// The number that stands for this output type.
    pub fn to_u16(self) -> (raw: u16)
        ensures
            raw == self.code(),
    {
        match self {
            OutputType::PushPull => 0,
            OutputType::OpenDrain => 1,
        }
    }

    /// The output type that the number `raw` stands for, if any.
    pub fn from_u16(raw: u16) -> (output_type: Option<OutputType>)
        ensures
            output_type == OutputType::of_code(raw as int),
    {
        match raw {
            0 => Some(OutputType::PushPull),
            1 => Some(OutputType::OpenDrain),
            _ => None,
        }
    }
}

impl Speed {
    /// The number that stands for this speed in a packed word.
    pub open spec fn code(self) -> int {
        match self {
            Speed::Low => 0,
            Speed::Medium => 1,
            Speed::High => 2,
            Speed::VeryHigh => 3,
        }
    }

    /// The speed that `code` stands for, if any.
    pub open spec fn of_code(code: int) -> Option<Speed> {
        if code == 0 {
            Some(Speed::Low)
        } else if code == 1 {
            Some(Speed::Medium)
        } else if code == 2 {
            Some(Speed::High)
        } else if code == 3 {
            Some(Speed::VeryHigh)
        } else {
            None
        }
    }

    /// The number that stands for this speed.
    pub fn to_u16(self) -> (raw: u16)
        ensures
            raw == self.code(),
    {
        match self {
            Speed::Low => 0,
            Speed::Medium => 1,
            Speed::High => 2,
            Speed::VeryHigh => 3,
        }
    }

    /// The speed that the number `raw` stands for, if any.
    pub fn from_u16(raw: u16) -> (speed: Option<Speed>)
        ensures
            speed == Speed::of_code(raw as int),
    {
        match raw {
            0 => Some(Speed::Low),
            1 => Some(Speed::Medium),
            2 => Some(Speed::High),
            3 => Some(Speed::VeryHigh),
            _ => None,
        }
    }
}

impl Pull {
    /// The number that stands for this pull in a packed word.
    pub open spec fn code(self) -> int {
        match self {
            Pull::NoPull => 0,
            Pull::Up => 1,
            Pull::Down => 2,
        }
    }

    /// The pull that `code` stands for, if any.
    pub open spec fn of_code(code: int) -> Option<Pull> {
        if code == 0 {
            Some(Pull::NoPull)
        } else if code == 1 {
            Some(Pull::Up)
        } else if code == 2 {
            Some(Pull::Down)
        } else {
            None
        }
    }

    /// The number that stands for this pull.
    pub fn to_u16(self) -> (raw: u16)
        ensures
            raw == self.code(),
    {
        match self {
            Pull::NoPull => 0,
            Pull::Up => 1,
            Pull::Down => 2,
        }
    }

    /// The pull that the number `raw` stands for, if any.
    pub fn from_u16(raw: u16) -> (pull: Option<Pull>)
        ensures
            pull == Pull::of_code(raw as int),
    {
        match raw {
            0 => Some(Pull::NoPull),
            1 => Some(Pull::Up),
            2 => Some(Pull::Down),
            _ => None,
        }
    }
}

impl Alternate {
    /// The number of this alternate function: `AF0` is 0, `AF15` is 15.
    pub open spec fn code(self) -> int {
        match self {
            Alternate::AF0 => 0,
            Alternate::AF1 => 1,
            Alternate::AF2 => 2,
            Alternate::AF3 => 3,
            Alternate::AF4 => 4,
            Alternate::AF5 => 5,
            Alternate::AF6 => 6,
            Alternate::AF7 => 7,
            Alternate::AF8 => 8,
            Alternate::AF9 => 9,
            Alternate::AF10 => 10,
            Alternate::AF11 => 11,
            Alternate::AF12 => 12,
            Alternate::AF13 => 13,
            Alternate::AF14 => 14,
            Alternate::AF15 => 15,
        }
    }

    /// The alternate function with number `code`, if any.
    pub open spec fn of_code(code: int) -> Option<Alternate> {
        if code == 0 {
            Some(Alternate::AF0)
        } else if code == 1 {
            Some(Alternate::AF1)
        } else if code == 2 {
            Some(Alternate::AF2)
        } else if code == 3 {
            Some(Alternate::AF3)
        } else if code == 4 {
            Some(Alternate::AF4)
        } else if code == 5 {
            Some(Alternate::AF5)
        } else if code == 6 {
            Some(Alternate::AF6)
        } else if code == 7 {
            Some(Alternate::AF7)
        } else if code == 8 {
            Some(Alternate::AF8)
        } else if code == 9 {
            Some(Alternate::AF9)
        } else if code == 10 {
            Some(Alternate::AF10)
        } else if code == 11 {
            Some(Alternate::AF11)
        } else if code == 12 {
            Some(Alternate::AF12)
        } else if code == 13 {
            Some(Alternate::AF13)
        } else if code == 14 {
            Some(Alternate::AF14)
        } else if code == 15 {
            Some(Alternate::AF15)
        } else {
            None
        }
    }

    /// The number that stands for this alternate function.
    pub fn to_u16(self) -> (raw: u16)
        ensures
            raw == self.code(),
    {
        match self {
            Alternate::AF0 => 0,
            Alternate::AF1 => 1,
            Alternate::AF2 => 2,
            Alternate::AF3 => 3,
            Alternate::AF4 => 4,
            Alternate::AF5 => 5,
            Alternate::AF6 => 6,
            Alternate::AF7 => 7,
            Alternate::AF8 => 8,
            Alternate::AF9 => 9,
            Alternate::AF10 => 10,
            Alternate::AF11 => 11,
            Alternate::AF12 => 12,
            Alternate::AF13 => 13,
            Alternate::AF14 => 14,
            Alternate::AF15 => 15,
        }
    }

    /// The alternate function that the number `raw` stands for, if any.
    pub fn from_u16(raw: u16) -> (af: Option<Alternate>)
        ensures
            af == Alternate::of_code(raw as int),
    {
        match raw {
            0 => Some(Alternate::AF0),
            1 => Some(Alternate::AF1),
            2 => Some(Alternate::AF2),
            3 => Some(Alternate::AF3),
            4 => Some(Alternate::AF4),
            5 => Some(Alternate::AF5),
            6 => Some(Alternate::AF6),
            7 => Some(Alternate::AF7),
            8 => Some(Alternate::AF8),
            9 => Some(Alternate::AF9),
            10 => Some(Alternate::AF10),
            11 => Some(Alternate::AF11),
            12 => Some(Alternate::AF12),
            13 => Some(Alternate::AF13),
            14 => Some(Alternate::AF14),
            15 => Some(Alternate::AF15),
            _ => None,
        }
    }
}

impl Value {
    /// The byte that stands for this level on the wire.
    pub open spec fn code(self) -> int {
        match self {
            Value::Zero => 0,
            Value::One => 1,
        }
    }

    /// The level that `code` stands for, if any.
    pub open spec fn of_code(code: int) -> Option<Value> {
        if code == 0 {
            Some(Value::Zero)
        } else if code == 1 {
            Some(Value::One)
        } else {
            None
        }
    }

    /// The number that stands for this level.
    pub fn to_u8(self) -> (raw: u8)
        ensures
            raw == self.code(),
    {
        match self {
            Value::Zero => 0,
            Value::One => 1,
        }
    }

    /// The level that the number `raw` stands for, if any.
    pub fn from_u8(raw: u8) -> (value: Option<Value>)
        ensures
            value == Value::of_code(raw as int),
    {
        match raw {
            0 => Some(Value::Zero),
            1 => Some(Value::One),
            _ => None,
        }
    }
}

/// The field of `word` that starts at the bit of weight `low` and has `span`
/// possible values.
pub open spec fn field(word: int, low: int, span: int) -> int {
    (word / low) % span
}

/// The packed word of a configuration: each field at its place, reserved bits
/// zero.
pub open spec fn packed(
    mode: Mode,
    output_type: OutputType,
    speed: Speed,
    pull: Pull,
    af: Alternate,
) -> int {
    mode.code() + 4 * output_type.code() + 8 * speed.code() + 32 * pull.code() + 128 * af.code()
}

/// The configuration that `word` stands for. `None` for a word whose pull
/// field names no pull. The reserved bits have no part in it.
pub open spec fn unpacked(word: int) -> Option<(Mode, OutputType, Speed, Pull, Alternate)> {
    match (
        Mode::of_code(field(word, 1, 4)),
        OutputType::of_code(field(word, 4, 2)),
        Speed::of_code(field(word, 8, 4)),
        Pull::of_code(field(word, 32, 4)),
        Alternate::of_code(field(word, 128, 16)),
    ) {
        (Some(mode), Some(output_type), Some(speed), Some(pull), Some(af)) => Some(
            (mode, output_type, speed, pull, af),
        ),
        _ => None,
    }
}

/// A word stands for a configuration exactly if its pull field is not `0b11`.
pub proof fn lemma_unpacked_some(word: int)
    requires
        0 <= word,
    ensures
        unpacked(word) is Some <==> field(word, 32, 4) != 3,
{
}

proof fn lemma_fields_of_sum(m: u16, o: u16, s: u16, p: u16, a: u16)
    by (bit_vector)
    requires
        m < 4,
        o < 2,
        s < 4,
        p < 4,
        a < 16,
    ensures
        (m + 4 * o + 8 * s + 32 * p + 128 * a) < 2048,
        (m + 4 * o + 8 * s + 32 * p + 128 * a) % 4 == m,
        ((m + 4 * o + 8 * s + 32 * p + 128 * a) / 4) % 2 == o,
        ((m + 4 * o + 8 * s + 32 * p + 128 * a) / 8) % 4 == s,
        ((m + 4 * o + 8 * s + 32 * p + 128 * a) / 32) % 4 == p,
        ((m + 4 * o + 8 * s + 32 * p + 128 * a) / 128) % 16 == a,
{
}

/// Unpacking a packed configuration gives the configuration back.
pub proof fn lemma_unpack_pack(
    mode: Mode,
    output_type: OutputType,
    speed: Speed,
    pull: Pull,
    af: Alternate,
)
    ensures
        0 <= packed(mode, output_type, speed, pull, af) < 2048,
        unpacked(packed(mode, output_type, speed, pull, af)) == Some(
            (mode, output_type, speed, pull, af),
        ),
{
    lemma_fields_of_sum(
        mode.code() as u16,
        output_type.code() as u16,
        speed.code() as u16,
        pull.code() as u16,
        af.code() as u16,
    );
}

/// Two configurations with the same packed word are the same configuration.
pub proof fn lemma_packed_injective(
    a: (Mode, OutputType, Speed, Pull, Alternate),
    b: (Mode, OutputType, Speed, Pull, Alternate),
)
    requires
        packed(a.0, a.1, a.2, a.3, a.4) == packed(b.0, b.1, b.2, b.3, b.4),
    ensures
        a == b,
{
    lemma_unpack_pack(a.0, a.1, a.2, a.3, a.4);
    lemma_unpack_pack(b.0, b.1, b.2, b.3, b.4);
}

proof fn lemma_fields_below_reserved(w: u16)
    by (bit_vector)
    ensures
        (w % 2048) % 4 == w % 4,
        ((w % 2048) / 4) % 2 == (w / 4) % 2,
        ((w % 2048) / 8) % 4 == (w / 8) % 4,
        ((w % 2048) / 32) % 4 == (w / 32) % 4,
        ((w % 2048) / 128) % 16 == (w / 128) % 16,
{
}

/// The reserved bits of a word do not change what it stands for.
pub proof fn lemma_reserved_bits_ignored(word: u16)
    ensures
        unpacked(word as int) == unpacked(word as int % 2048),
{
    lemma_fields_below_reserved(word);
}

} // verus!

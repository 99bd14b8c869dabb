//! The pins of the six GPIO ports, and the byte that names a pin on the wire.
//!
//! The byte holds the port in its high four bits (port A is 0, port F is 5)
//! and the number of the pin within the port in its low three bits. Bit 3 is
//! zero.

use vstd::prelude::*;

verus! {

/// One pin of one port.
#[derive(Copy, Clone, Debug, PartialEq, Eq, Structural)]
#[allow(non_camel_case_types)]
pub enum Pin {
    GPIOA_0,
    GPIOA_1,
    GPIOA_2,
    GPIOA_3,
    GPIOA_4,
    GPIOA_5,
    GPIOA_6,
    GPIOA_7,

    GPIOB_0,
    GPIOB_1,
    GPIOB_2,
    GPIOB_3,
    GPIOB_4,
    GPIOB_5,
    GPIOB_6,
    GPIOB_7,

    GPIOC_0,
    GPIOC_1,
    GPIOC_2,
    GPIOC_3,
    GPIOC_4,
    GPIOC_5,
    GPIOC_6,
    GPIOC_7,

    GPIOD_0,
    GPIOD_1,
    GPIOD_2,
    GPIOD_3,
    GPIOD_4,
    GPIOD_5,
    GPIOD_6,
    GPIOD_7,

    GPIOE_0,
    GPIOE_1,
    GPIOE_2,
    GPIOE_3,
    GPIOE_4,
    GPIOE_5,
    GPIOE_6,
    GPIOE_7,

    GPIOF_0,
    GPIOF_1,
    GPIOF_2,
    GPIOF_3,
    GPIOF_4,
    GPIOF_5,
    GPIOF_6,
    GPIOF_7,
}

impl Pin {
    /// The port of the pin: 0 for port A, up to 5 for port F.
    pub open spec fn port(self) -> int {
        match self {
            Pin::GPIOA_0 | Pin::GPIOA_1 | Pin::GPIOA_2 | Pin::GPIOA_3
            | Pin::GPIOA_4 | Pin::GPIOA_5 | Pin::GPIOA_6 | Pin::GPIOA_7 => 0,
            Pin::GPIOB_0 | Pin::GPIOB_1 | Pin::GPIOB_2 | Pin::GPIOB_3
            | Pin::GPIOB_4 | Pin::GPIOB_5 | Pin::GPIOB_6 | Pin::GPIOB_7 => 1,
            Pin::GPIOC_0 | Pin::GPIOC_1 | Pin::GPIOC_2 | Pin::GPIOC_3
            | Pin::GPIOC_4 | Pin::GPIOC_5 | Pin::GPIOC_6 | Pin::GPIOC_7 => 2,
            Pin::GPIOD_0 | Pin::GPIOD_1 | Pin::GPIOD_2 | Pin::GPIOD_3
            | Pin::GPIOD_4 | Pin::GPIOD_5 | Pin::GPIOD_6 | Pin::GPIOD_7 => 3,
            Pin::GPIOE_0 | Pin::GPIOE_1 | Pin::GPIOE_2 | Pin::GPIOE_3
            | Pin::GPIOE_4 | Pin::GPIOE_5 | Pin::GPIOE_6 | Pin::GPIOE_7 => 4,
            Pin::GPIOF_0 | Pin::GPIOF_1 | Pin::GPIOF_2 | Pin::GPIOF_3
            | Pin::GPIOF_4 | Pin::GPIOF_5 | Pin::GPIOF_6 | Pin::GPIOF_7 => 5,
        }
    }

    /// The number of the pin within its port, from 0 to 7.
    pub open spec fn number(self) -> int {
        match self {
            Pin::GPIOA_0 | Pin::GPIOB_0 | Pin::GPIOC_0
            | Pin::GPIOD_0 | Pin::GPIOE_0 | Pin::GPIOF_0 => 0,
            Pin::GPIOA_1 | Pin::GPIOB_1 | Pin::GPIOC_1
            | Pin::GPIOD_1 | Pin::GPIOE_1 | Pin::GPIOF_1 => 1,
            Pin::GPIOA_2 | Pin::GPIOB_2 | Pin::GPIOC_2
            | Pin::GPIOD_2 | Pin::GPIOE_2 | Pin::GPIOF_2 => 2,
            Pin::GPIOA_3 | Pin::GPIOB_3 | Pin::GPIOC_3
            | Pin::GPIOD_3 | Pin::GPIOE_3 | Pin::GPIOF_3 => 3,
            Pin::GPIOA_4 | Pin::GPIOB_4 | Pin::GPIOC_4
            | Pin::GPIOD_4 | Pin::GPIOE_4 | Pin::GPIOF_4 => 4,
            Pin::GPIOA_5 | Pin::GPIOB_5 | Pin::GPIOC_5
            | Pin::GPIOD_5 | Pin::GPIOE_5 | Pin::GPIOF_5 => 5,
            Pin::GPIOA_6 | Pin::GPIOB_6 | Pin::GPIOC_6
            | Pin::GPIOD_6 | Pin::GPIOE_6 | Pin::GPIOF_6 => 6,
            Pin::GPIOA_7 | Pin::GPIOB_7 | Pin::GPIOC_7
            | Pin::GPIOD_7 | Pin::GPIOE_7 | Pin::GPIOF_7 => 7,
        }
    }

    /// The byte that names the pin.
    pub open spec fn code(self) -> int {
        16 * self.port() + self.number()
    }

    /// The pin with number `pin` of port `port`, if there is one.
    pub open spec fn of_parts(port: int, pin: int) -> Option<Pin> {
        if port == 0 && pin == 0 {
            Some(Pin::GPIOA_0)
        } else if port == 0 && pin == 1 {
            Some(Pin::GPIOA_1)
        } else if port == 0 && pin == 2 {
            Some(Pin::GPIOA_2)
        } else if port == 0 && pin == 3 {
            Some(Pin::GPIOA_3)
        } else if port == 0 && pin == 4 {
            Some(Pin::GPIOA_4)
        } else if port == 0 && pin == 5 {
            Some(Pin::GPIOA_5)
        } else if port == 0 && pin == 6 {
            Some(Pin::GPIOA_6)
        } else if port == 0 && pin == 7 {
            Some(Pin::GPIOA_7)
        } else if port == 1 && pin == 0 {
            Some(Pin::GPIOB_0)
        } else if port == 1 && pin == 1 {
            Some(Pin::GPIOB_1)
        } else if port == 1 && pin == 2 {
            Some(Pin::GPIOB_2)
        } else if port == 1 && pin == 3 {
            Some(Pin::GPIOB_3)
        } else if port == 1 && pin == 4 {
            Some(Pin::GPIOB_4)
        } else if port == 1 && pin == 5 {
            Some(Pin::GPIOB_5)
        } else if port == 1 && pin == 6 {
            Some(Pin::GPIOB_6)
        } else if port == 1 && pin == 7 {
            Some(Pin::GPIOB_7)
        } else if port == 2 && pin == 0 {
            Some(Pin::GPIOC_0)
        } else if port == 2 && pin == 1 {
            Some(Pin::GPIOC_1)
        } else if port == 2 && pin == 2 {
            Some(Pin::GPIOC_2)
        } else if port == 2 && pin == 3 {
            Some(Pin::GPIOC_3)
        } else if port == 2 && pin == 4 {
            Some(Pin::GPIOC_4)
        } else if port == 2 && pin == 5 {
            Some(Pin::GPIOC_5)
        } else if port == 2 && pin == 6 {
            Some(Pin::GPIOC_6)
        } else if port == 2 && pin == 7 {
            Some(Pin::GPIOC_7)
        } else if port == 3 && pin == 0 {
            Some(Pin::GPIOD_0)
        } else if port == 3 && pin == 1 {
            Some(Pin::GPIOD_1)
        } else if port == 3 && pin == 2 {
            Some(Pin::GPIOD_2)
        } else if port == 3 && pin == 3 {
            Some(Pin::GPIOD_3)
        } else if port == 3 && pin == 4 {
            Some(Pin::GPIOD_4)
        } else if port == 3 && pin == 5 {
            Some(Pin::GPIOD_5)
        } else if port == 3 && pin == 6 {
            Some(Pin::GPIOD_6)
        } else if port == 3 && pin == 7 {
            Some(Pin::GPIOD_7)
        } else if port == 4 && pin == 0 {
            Some(Pin::GPIOE_0)
        } else if port == 4 && pin == 1 {
            Some(Pin::GPIOE_1)
        } else if port == 4 && pin == 2 {
            Some(Pin::GPIOE_2)
        } else if port == 4 && pin == 3 {
            Some(Pin::GPIOE_3)
        } else if port == 4 && pin == 4 {
            Some(Pin::GPIOE_4)
        } else if port == 4 && pin == 5 {
            Some(Pin::GPIOE_5)
        } else if port == 4 && pin == 6 {
            Some(Pin::GPIOE_6)
        } else if port == 4 && pin == 7 {
            Some(Pin::GPIOE_7)
        } else if port == 5 && pin == 0 {
            Some(Pin::GPIOF_0)
        } else if port == 5 && pin == 1 {
            Some(Pin::GPIOF_1)
        } else if port == 5 && pin == 2 {
            Some(Pin::GPIOF_2)
        } else if port == 5 && pin == 3 {
            Some(Pin::GPIOF_3)
        } else if port == 5 && pin == 4 {
            Some(Pin::GPIOF_4)
        } else if port == 5 && pin == 5 {
            Some(Pin::GPIOF_5)
        } else if port == 5 && pin == 6 {
            Some(Pin::GPIOF_6)
        } else if port == 5 && pin == 7 {
            Some(Pin::GPIOF_7)
        } else {
            None
        }
    }

    /// The pin that the byte `code` names, if it names one.
    pub open spec fn of_code(code: int) -> Option<Pin> {
        if 0 <= code < 96 && code % 16 < 8 {
            Pin::of_parts(code / 16, code % 16)
        } else {
            None
        }
    }

    /// The pin with number `pin` of port `port`: `None` unless `port` is at
    /// most 5 and `pin` at most 7.
    pub fn encode(port: u8, pin: u8) -> (found: Option<Pin>)
        ensures
            found == Pin::of_parts(port as int, pin as int),
            found is Some <==> port < 6 && pin < 8,
    {
        match (port, pin) {
            (0, 0) => Some(Pin::GPIOA_0),
            (0, 1) => Some(Pin::GPIOA_1),
            (0, 2) => Some(Pin::GPIOA_2),
            (0, 3) => Some(Pin::GPIOA_3),
            (0, 4) => Some(Pin::GPIOA_4),
            (0, 5) => Some(Pin::GPIOA_5),
            (0, 6) => Some(Pin::GPIOA_6),
            (0, 7) => Some(Pin::GPIOA_7),
            (1, 0) => Some(Pin::GPIOB_0),
            (1, 1) => Some(Pin::GPIOB_1),
            (1, 2) => Some(Pin::GPIOB_2),
            (1, 3) => Some(Pin::GPIOB_3),
            (1, 4) => Some(Pin::GPIOB_4),
            (1, 5) => Some(Pin::GPIOB_5),
            (1, 6) => Some(Pin::GPIOB_6),
            (1, 7) => Some(Pin::GPIOB_7),
            (2, 0) => Some(Pin::GPIOC_0),
            (2, 1) => Some(Pin::GPIOC_1),
            (2, 2) => Some(Pin::GPIOC_2),
            (2, 3) => Some(Pin::GPIOC_3),
            (2, 4) => Some(Pin::GPIOC_4),
            (2, 5) => Some(Pin::GPIOC_5),
            (2, 6) => Some(Pin::GPIOC_6),
            (2, 7) => Some(Pin::GPIOC_7),
            (3, 0) => Some(Pin::GPIOD_0),
            (3, 1) => Some(Pin::GPIOD_1),
            (3, 2) => Some(Pin::GPIOD_2),
            (3, 3) => Some(Pin::GPIOD_3),
            (3, 4) => Some(Pin::GPIOD_4),
            (3, 5) => Some(Pin::GPIOD_5),
            (3, 6) => Some(Pin::GPIOD_6),
            (3, 7) => Some(Pin::GPIOD_7),
            (4, 0) => Some(Pin::GPIOE_0),
            (4, 1) => Some(Pin::GPIOE_1),
            (4, 2) => Some(Pin::GPIOE_2),
            (4, 3) => Some(Pin::GPIOE_3),
            (4, 4) => Some(Pin::GPIOE_4),
            (4, 5) => Some(Pin::GPIOE_5),
            (4, 6) => Some(Pin::GPIOE_6),
            (4, 7) => Some(Pin::GPIOE_7),
            (5, 0) => Some(Pin::GPIOF_0),
            (5, 1) => Some(Pin::GPIOF_1),
            (5, 2) => Some(Pin::GPIOF_2),
            (5, 3) => Some(Pin::GPIOF_3),
            (5, 4) => Some(Pin::GPIOF_4),
            (5, 5) => Some(Pin::GPIOF_5),
            (5, 6) => Some(Pin::GPIOF_6),
            (5, 7) => Some(Pin::GPIOF_7),
            _ => None,
        }
    }

    /// The byte that names the pin.
    pub fn to_u8(self) -> (raw: u8)
        ensures
            raw == self.code(),
    {
        match self {
            Pin::GPIOA_0 => 0,
            Pin::GPIOA_1 => 1,
            Pin::GPIOA_2 => 2,
            Pin::GPIOA_3 => 3,
            Pin::GPIOA_4 => 4,
            Pin::GPIOA_5 => 5,
            Pin::GPIOA_6 => 6,
            Pin::GPIOA_7 => 7,
            Pin::GPIOB_0 => 16,
            Pin::GPIOB_1 => 17,
            Pin::GPIOB_2 => 18,
            Pin::GPIOB_3 => 19,
            Pin::GPIOB_4 => 20,
            Pin::GPIOB_5 => 21,
            Pin::GPIOB_6 => 22,
            Pin::GPIOB_7 => 23,
            Pin::GPIOC_0 => 32,
            Pin::GPIOC_1 => 33,
            Pin::GPIOC_2 => 34,
            Pin::GPIOC_3 => 35,
            Pin::GPIOC_4 => 36,
            Pin::GPIOC_5 => 37,
            Pin::GPIOC_6 => 38,
            Pin::GPIOC_7 => 39,
            Pin::GPIOD_0 => 48,
            Pin::GPIOD_1 => 49,
            Pin::GPIOD_2 => 50,
            Pin::GPIOD_3 => 51,
            Pin::GPIOD_4 => 52,
            Pin::GPIOD_5 => 53,
            Pin::GPIOD_6 => 54,
            Pin::GPIOD_7 => 55,
            Pin::GPIOE_0 => 64,
            Pin::GPIOE_1 => 65,
            Pin::GPIOE_2 => 66,
            Pin::GPIOE_3 => 67,
            Pin::GPIOE_4 => 68,
            Pin::GPIOE_5 => 69,
            Pin::GPIOE_6 => 70,
            Pin::GPIOE_7 => 71,
            Pin::GPIOF_0 => 80,
            Pin::GPIOF_1 => 81,
            Pin::GPIOF_2 => 82,
            Pin::GPIOF_3 => 83,
            Pin::GPIOF_4 => 84,
            Pin::GPIOF_5 => 85,
            Pin::GPIOF_6 => 86,
            Pin::GPIOF_7 => 87,
        }
    }

    /// The pin that the byte `raw` names, if it names one.
    pub fn from_u8(raw: u8) -> (found: Option<Pin>)
        ensures
            found == Pin::of_code(raw as int),
    {
        match raw {
            0 => Some(Pin::GPIOA_0),
            1 => Some(Pin::GPIOA_1),
            2 => Some(Pin::GPIOA_2),
            3 => Some(Pin::GPIOA_3),
            4 => Some(Pin::GPIOA_4),
            5 => Some(Pin::GPIOA_5),
            6 => Some(Pin::GPIOA_6),
            7 => Some(Pin::GPIOA_7),
            16 => Some(Pin::GPIOB_0),
            17 => Some(Pin::GPIOB_1),
            18 => Some(Pin::GPIOB_2),
            19 => Some(Pin::GPIOB_3),
            20 => Some(Pin::GPIOB_4),
            21 => Some(Pin::GPIOB_5),
            22 => Some(Pin::GPIOB_6),
            23 => Some(Pin::GPIOB_7),
            32 => Some(Pin::GPIOC_0),
            33 => Some(Pin::GPIOC_1),
            34 => Some(Pin::GPIOC_2),
            35 => Some(Pin::GPIOC_3),
            36 => Some(Pin::GPIOC_4),
            37 => Some(Pin::GPIOC_5),
            38 => Some(Pin::GPIOC_6),
            39 => Some(Pin::GPIOC_7),
            48 => Some(Pin::GPIOD_0),
            49 => Some(Pin::GPIOD_1),
            50 => Some(Pin::GPIOD_2),
            51 => Some(Pin::GPIOD_3),
            52 => Some(Pin::GPIOD_4),
            53 => Some(Pin::GPIOD_5),
            54 => Some(Pin::GPIOD_6),
            55 => Some(Pin::GPIOD_7),
            64 => Some(Pin::GPIOE_0),
            65 => Some(Pin::GPIOE_1),
            66 => Some(Pin::GPIOE_2),
            67 => Some(Pin::GPIOE_3),
            68 => Some(Pin::GPIOE_4),
            69 => Some(Pin::GPIOE_5),
            70 => Some(Pin::GPIOE_6),
            71 => Some(Pin::GPIOE_7),
            80 => Some(Pin::GPIOF_0),
            81 => Some(Pin::GPIOF_1),
            82 => Some(Pin::GPIOF_2),
            83 => Some(Pin::GPIOF_3),
            84 => Some(Pin::GPIOF_4),
            85 => Some(Pin::GPIOF_5),
            86 => Some(Pin::GPIOF_6),
            87 => Some(Pin::GPIOF_7),
            _ => None,
        }
    }

    /// The port of the pin and its number within the port.
    pub fn unpack(self) -> (parts: (u8, u8))
        ensures
            parts.0 == self.port(),
            parts.1 == self.number(),
            parts.0 < 6,
            parts.1 < 8,
    {
        let raw: u8 = self.to_u8();
        assert(raw >> 4 == raw / 16 && raw & 0x7 == raw % 8) by (bit_vector);

        let port = raw >> 4;
        let pin = raw & 0x7;

        (port, pin)
    }
}

/// Unpacking the pin made of a port and a number gives the two back.
pub proof fn lemma_unpack_encode(port: int, pin: int)
    requires
        0 <= port < 6,
        0 <= pin < 8,
    ensures
        Pin::of_parts(port, pin) is Some,
        Pin::of_parts(port, pin)->0.port() == port,
        Pin::of_parts(port, pin)->0.number() == pin,
{
}

/// A pin is the pin made of its own port and number, and the pin that its
/// own byte names.
pub proof fn lemma_encode_unpack(pin: Pin)
    ensures
        Pin::of_parts(pin.port(), pin.number()) == Some(pin),
        Pin::of_code(pin.code()) == Some(pin),
        0 <= pin.code() < 256,
{
}

/// No two pins share a byte.
pub proof fn lemma_code_injective(a: Pin, b: Pin)
    requires
        a.code() == b.code(),
    ensures
        a == b,
{
    lemma_encode_unpack(a);
    lemma_encode_unpack(b);
}

} // verus!

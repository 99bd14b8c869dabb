//! The peripherals whose clock and reset the system controller drives.
//!
//! The registers of the system controller come in banks of one word for
//! each class of peripheral (watchdogs, timers, GPIO ports and so on), and
//! within a word each peripheral of the class has one bit. The number that
//! names a peripheral on the wire holds both: the offset of the word of its
//! class within a bank in the high sixteen bits, and the number of its bit
//! in the low sixteen.

use vstd::prelude::*;

verus! {

/// Offset of the software reset bank within the system controller.
pub const SYSCTL_SR_BASE_OFFSET: u32 = 0x500;

/// Offset of the run-mode clock gating bank within the system controller.
pub const SYSCTL_RCGC_BASE_OFFSET: u32 = 0x600;

/// Offset of the peripheral ready bank within the system controller.
pub const SYSCTL_PR_BASE_OFFSET: u32 = 0xA00;

/// One peripheral.
#[derive(Copy, Clone, Debug, PartialEq, Eq, Structural)]
pub enum Peripheral {
    Watchdog0,
    Watchdog1,

    Timer0,
    Timer1,
    Timer2,
    Timer3,
    Timer4,
    Timer5,

    GpioA,
    GpioB,
    GpioC,
    GpioD,
    GpioE,
    GpioF,

    Dma,
    Hib,
    Uart0,
    Uart1,
    Uart2,
    Uart3,
    Uart4,
    Uart5,
    Uart6,
    Uart7,

    Ssi0,
    Ssi1,
    Ssi2,
    Ssi3,

    I2C0,
    I2C1,
    I2C2,
    I2C3,

    Usb,
    Can0,
    Can1,

    Adc0,
    Adc1,

    Acmp0,
    Pwm0,
    Pwm1,

    Qei0,
    Qei1,

    Eeprom,
    WideTimer0,
    WideTimer1,
    WideTimer2,
    WideTimer3,
    WideTimer4,
    WideTimer5,
}

impl Peripheral {
    /// The offset, within a bank, of the word of the peripheral's class.
    pub open spec fn offset(self) -> u32 {
        match self {
            Peripheral::Watchdog0 | Peripheral::Watchdog1 => 0x0,
            Peripheral::Timer0 | Peripheral::Timer1 | Peripheral::Timer2
            | Peripheral::Timer3 | Peripheral::Timer4 | Peripheral::Timer5 => 0x4,
            Peripheral::GpioA | Peripheral::GpioB | Peripheral::GpioC | Peripheral::GpioD
            | Peripheral::GpioE | Peripheral::GpioF => 0x8,
            Peripheral::Dma => 0xc,
            Peripheral::Hib => 0x14,
            Peripheral::Uart0 | Peripheral::Uart1 | Peripheral::Uart2 | Peripheral::Uart3
            | Peripheral::Uart4 | Peripheral::Uart5 | Peripheral::Uart6 | Peripheral::Uart7 => 0x18,
            Peripheral::Ssi0 | Peripheral::Ssi1 | Peripheral::Ssi2 | Peripheral::Ssi3 => 0x1c,
            Peripheral::I2C0 | Peripheral::I2C1 | Peripheral::I2C2 | Peripheral::I2C3 => 0x20,
            Peripheral::Usb => 0x28,
            Peripheral::Can0 | Peripheral::Can1 => 0x34,
            Peripheral::Adc0 | Peripheral::Adc1 => 0x38,
            Peripheral::Acmp0 => 0x3c,
            Peripheral::Pwm0 | Peripheral::Pwm1 => 0x40,
            Peripheral::Qei0 | Peripheral::Qei1 => 0x44,
            Peripheral::Eeprom => 0x58,
            Peripheral::WideTimer0 | Peripheral::WideTimer1 | Peripheral::WideTimer2
            | Peripheral::WideTimer3 | Peripheral::WideTimer4 | Peripheral::WideTimer5 => 0x5c,
        }
    }

    /// The number of the peripheral's bit within the word of its class.
    pub open spec fn bit(self) -> u32 {
        match self {
            Peripheral::Watchdog0 | Peripheral::Timer0 | Peripheral::GpioA | Peripheral::Dma
            | Peripheral::Hib | Peripheral::Uart0 | Peripheral::Ssi0 | Peripheral::I2C0
            | Peripheral::Usb | Peripheral::Can0 | Peripheral::Adc0 | Peripheral::Acmp0
            | Peripheral::Pwm0 | Peripheral::Qei0 | Peripheral::Eeprom
            | Peripheral::WideTimer0 => 0,
            Peripheral::Watchdog1 | Peripheral::Timer1 | Peripheral::GpioB
            | Peripheral::Uart1 | Peripheral::Ssi1 | Peripheral::I2C1 | Peripheral::Can1
            | Peripheral::Adc1 | Peripheral::Pwm1 | Peripheral::Qei1 | Peripheral::WideTimer1 => 1,
            Peripheral::Timer2 | Peripheral::GpioC | Peripheral::Uart2 | Peripheral::Ssi2
            | Peripheral::I2C2 | Peripheral::WideTimer2 => 2,
            Peripheral::Timer3 | Peripheral::GpioD | Peripheral::Uart3 | Peripheral::Ssi3
            | Peripheral::I2C3 | Peripheral::WideTimer3 => 3,
            Peripheral::Timer4 | Peripheral::GpioE | Peripheral::Uart4
            | Peripheral::WideTimer4 => 4,
            Peripheral::Timer5 | Peripheral::GpioF | Peripheral::Uart5
            | Peripheral::WideTimer5 => 5,
            Peripheral::Uart6 => 6,
            Peripheral::Uart7 => 7,
        }
    }

    /// The number that names the peripheral.
    pub open spec fn code(self) -> u32 {
        (65536 * self.offset() + self.bit()) as u32
    }

    /// The peripheral with bit `bit` in the word at `offset`, if there is
    /// one.
    pub open spec fn of_parts(offset: u32, bit: u32) -> Option<Peripheral> {
        if offset == 0x0 && bit == 0 {
            Some(Peripheral::Watchdog0)
        } else if offset == 0x0 && bit == 1 {
            Some(Peripheral::Watchdog1)
        } else if offset == 0x4 && bit == 0 {
            Some(Peripheral::Timer0)
        } else if offset == 0x4 && bit == 1 {
            Some(Peripheral::Timer1)
        } else if offset == 0x4 && bit == 2 {
            Some(Peripheral::Timer2)
        } else if offset == 0x4 && bit == 3 {
            Some(Peripheral::Timer3)
        } else if offset == 0x4 && bit == 4 {
            Some(Peripheral::Timer4)
        } else if offset == 0x4 && bit == 5 {
            Some(Peripheral::Timer5)
        } else if offset == 0x8 && bit == 0 {
            Some(Peripheral::GpioA)
        } else if offset == 0x8 && bit == 1 {
            Some(Peripheral::GpioB)
        } else if offset == 0x8 && bit == 2 {
            Some(Peripheral::GpioC)
        } else if offset == 0x8 && bit == 3 {
            Some(Peripheral::GpioD)
        } else if offset == 0x8 && bit == 4 {
            Some(Peripheral::GpioE)
        } else if offset == 0x8 && bit == 5 {
            Some(Peripheral::GpioF)
        } else if offset == 0xc && bit == 0 {
            Some(Peripheral::Dma)
        } else if offset == 0x14 && bit == 0 {
            Some(Peripheral::Hib)
        } else if offset == 0x18 && bit == 0 {
            Some(Peripheral::Uart0)
        } else if offset == 0x18 && bit == 1 {
            Some(Peripheral::Uart1)
        } else if offset == 0x18 && bit == 2 {
            Some(Peripheral::Uart2)
        } else if offset == 0x18 && bit == 3 {
            Some(Peripheral::Uart3)
        } else if offset == 0x18 && bit == 4 {
            Some(Peripheral::Uart4)
        } else if offset == 0x18 && bit == 5 {
            Some(Peripheral::Uart5)
        } else if offset == 0x18 && bit == 6 {
            Some(Peripheral::Uart6)
        } else if offset == 0x18 && bit == 7 {
            Some(Peripheral::Uart7)
        } else if offset == 0x1c && bit == 0 {
            Some(Peripheral::Ssi0)
        } else if offset == 0x1c && bit == 1 {
            Some(Peripheral::Ssi1)
        } else if offset == 0x1c && bit == 2 {
            Some(Peripheral::Ssi2)
        } else if offset == 0x1c && bit == 3 {
            Some(Peripheral::Ssi3)
        } else if offset == 0x20 && bit == 0 {
            Some(Peripheral::I2C0)
        } else if offset == 0x20 && bit == 1 {
            Some(Peripheral::I2C1)
        } else if offset == 0x20 && bit == 2 {
            Some(Peripheral::I2C2)
        } else if offset == 0x20 && bit == 3 {
            Some(Peripheral::I2C3)
        } else if offset == 0x28 && bit == 0 {
            Some(Peripheral::Usb)
        } else if offset == 0x34 && bit == 0 {
            Some(Peripheral::Can0)
        } else if offset == 0x34 && bit == 1 {
            Some(Peripheral::Can1)
        } else if offset == 0x38 && bit == 0 {
            Some(Peripheral::Adc0)
        } else if offset == 0x38 && bit == 1 {
            Some(Peripheral::Adc1)
        } else if offset == 0x3c && bit == 0 {
            Some(Peripheral::Acmp0)
        } else if offset == 0x40 && bit == 0 {
            Some(Peripheral::Pwm0)
        } else if offset == 0x40 && bit == 1 {
            Some(Peripheral::Pwm1)
        } else if offset == 0x44 && bit == 0 {
            Some(Peripheral::Qei0)
        } else if offset == 0x44 && bit == 1 {
            Some(Peripheral::Qei1)
        } else if offset == 0x58 && bit == 0 {
            Some(Peripheral::Eeprom)
        } else if offset == 0x5c && bit == 0 {
            Some(Peripheral::WideTimer0)
        } else if offset == 0x5c && bit == 1 {
            Some(Peripheral::WideTimer1)
        } else if offset == 0x5c && bit == 2 {
            Some(Peripheral::WideTimer2)
        } else if offset == 0x5c && bit == 3 {
            Some(Peripheral::WideTimer3)
        } else if offset == 0x5c && bit == 4 {
            Some(Peripheral::WideTimer4)
        } else if offset == 0x5c && bit == 5 {
            Some(Peripheral::WideTimer5)
        } else {
            None
        }
    }

    /// The peripheral that the number `code` names, if it names one.
    pub open spec fn of_code(code: u32) -> Option<Peripheral> {
        Peripheral::of_parts(code / 65536, code % 65536)
    }

    /// The peripheral with bit `bit` in the word at `offset`, if there is
    /// one.
    pub fn encode(offset: u32, bit: u32) -> (found: Option<Peripheral>)
        ensures
            found == Peripheral::of_parts(offset, bit),
    {
        match (offset, bit) {
            (0x0, 0) => Some(Peripheral::Watchdog0),
            (0x0, 1) => Some(Peripheral::Watchdog1),
            (0x4, 0) => Some(Peripheral::Timer0),
            (0x4, 1) => Some(Peripheral::Timer1),
            (0x4, 2) => Some(Peripheral::Timer2),
            (0x4, 3) => Some(Peripheral::Timer3),
            (0x4, 4) => Some(Peripheral::Timer4),
            (0x4, 5) => Some(Peripheral::Timer5),
            (0x8, 0) => Some(Peripheral::GpioA),
            (0x8, 1) => Some(Peripheral::GpioB),
            (0x8, 2) => Some(Peripheral::GpioC),
            (0x8, 3) => Some(Peripheral::GpioD),
            (0x8, 4) => Some(Peripheral::GpioE),
            (0x8, 5) => Some(Peripheral::GpioF),
            (0xc, 0) => Some(Peripheral::Dma),
            (0x14, 0) => Some(Peripheral::Hib),
            (0x18, 0) => Some(Peripheral::Uart0),
            (0x18, 1) => Some(Peripheral::Uart1),
            (0x18, 2) => Some(Peripheral::Uart2),
            (0x18, 3) => Some(Peripheral::Uart3),
            (0x18, 4) => Some(Peripheral::Uart4),
            (0x18, 5) => Some(Peripheral::Uart5),
            (0x18, 6) => Some(Peripheral::Uart6),
            (0x18, 7) => Some(Peripheral::Uart7),
            (0x1c, 0) => Some(Peripheral::Ssi0),
            (0x1c, 1) => Some(Peripheral::Ssi1),
            (0x1c, 2) => Some(Peripheral::Ssi2),
            (0x1c, 3) => Some(Peripheral::Ssi3),
            (0x20, 0) => Some(Peripheral::I2C0),
            (0x20, 1) => Some(Peripheral::I2C1),
            (0x20, 2) => Some(Peripheral::I2C2),
            (0x20, 3) => Some(Peripheral::I2C3),
            (0x28, 0) => Some(Peripheral::Usb),
            (0x34, 0) => Some(Peripheral::Can0),
            (0x34, 1) => Some(Peripheral::Can1),
            (0x38, 0) => Some(Peripheral::Adc0),
            (0x38, 1) => Some(Peripheral::Adc1),
            (0x3c, 0) => Some(Peripheral::Acmp0),
            (0x40, 0) => Some(Peripheral::Pwm0),
            (0x40, 1) => Some(Peripheral::Pwm1),
            (0x44, 0) => Some(Peripheral::Qei0),
            (0x44, 1) => Some(Peripheral::Qei1),
            (0x58, 0) => Some(Peripheral::Eeprom),
            (0x5c, 0) => Some(Peripheral::WideTimer0),
            (0x5c, 1) => Some(Peripheral::WideTimer1),
            (0x5c, 2) => Some(Peripheral::WideTimer2),
            (0x5c, 3) => Some(Peripheral::WideTimer3),
            (0x5c, 4) => Some(Peripheral::WideTimer4),
            (0x5c, 5) => Some(Peripheral::WideTimer5),
            _ => None,
        }
    }

    /// The number that names the peripheral.
    pub fn to_u32(self) -> (raw: u32)
        ensures
            raw == self.code(),
    {
        match self {
            Peripheral::Watchdog0 => 0x0,
            Peripheral::Watchdog1 => 0x1,
            Peripheral::Timer0 => 0x40000,
            Peripheral::Timer1 => 0x40001,
            Peripheral::Timer2 => 0x40002,
            Peripheral::Timer3 => 0x40003,
            Peripheral::Timer4 => 0x40004,
            Peripheral::Timer5 => 0x40005,
            Peripheral::GpioA => 0x80000,
            Peripheral::GpioB => 0x80001,
            Peripheral::GpioC => 0x80002,
            Peripheral::GpioD => 0x80003,
            Peripheral::GpioE => 0x80004,
            Peripheral::GpioF => 0x80005,
            Peripheral::Dma => 0xc0000,
            Peripheral::Hib => 0x140000,
            Peripheral::Uart0 => 0x180000,
            Peripheral::Uart1 => 0x180001,
            Peripheral::Uart2 => 0x180002,
            Peripheral::Uart3 => 0x180003,
            Peripheral::Uart4 => 0x180004,
            Peripheral::Uart5 => 0x180005,
            Peripheral::Uart6 => 0x180006,
            Peripheral::Uart7 => 0x180007,
            Peripheral::Ssi0 => 0x1c0000,
            Peripheral::Ssi1 => 0x1c0001,
            Peripheral::Ssi2 => 0x1c0002,
            Peripheral::Ssi3 => 0x1c0003,
            Peripheral::I2C0 => 0x200000,
            Peripheral::I2C1 => 0x200001,
            Peripheral::I2C2 => 0x200002,
            Peripheral::I2C3 => 0x200003,
            Peripheral::Usb => 0x280000,
            Peripheral::Can0 => 0x340000,
            Peripheral::Can1 => 0x340001,
            Peripheral::Adc0 => 0x380000,
            Peripheral::Adc1 => 0x380001,
            Peripheral::Acmp0 => 0x3c0000,
            Peripheral::Pwm0 => 0x400000,
            Peripheral::Pwm1 => 0x400001,
            Peripheral::Qei0 => 0x440000,
            Peripheral::Qei1 => 0x440001,
            Peripheral::Eeprom => 0x580000,
            Peripheral::WideTimer0 => 0x5c0000,
            Peripheral::WideTimer1 => 0x5c0001,
            Peripheral::WideTimer2 => 0x5c0002,
            Peripheral::WideTimer3 => 0x5c0003,
            Peripheral::WideTimer4 => 0x5c0004,
            Peripheral::WideTimer5 => 0x5c0005,
        }
    }

    /// The peripheral that the number `raw` names, if it names one.
    pub fn from_u32(raw: u32) -> (found: Option<Peripheral>)
        ensures
            found == Peripheral::of_code(raw),
    {
        match raw {
            0x0 => Some(Peripheral::Watchdog0),
            0x1 => Some(Peripheral::Watchdog1),
            0x40000 => Some(Peripheral::Timer0),
            0x40001 => Some(Peripheral::Timer1),
            0x40002 => Some(Peripheral::Timer2),
            0x40003 => Some(Peripheral::Timer3),
            0x40004 => Some(Peripheral::Timer4),
            0x40005 => Some(Peripheral::Timer5),
            0x80000 => Some(Peripheral::GpioA),
            0x80001 => Some(Peripheral::GpioB),
            0x80002 => Some(Peripheral::GpioC),
            0x80003 => Some(Peripheral::GpioD),
            0x80004 => Some(Peripheral::GpioE),
            0x80005 => Some(Peripheral::GpioF),
            0xc0000 => Some(Peripheral::Dma),
            0x140000 => Some(Peripheral::Hib),
            0x180000 => Some(Peripheral::Uart0),
            0x180001 => Some(Peripheral::Uart1),
            0x180002 => Some(Peripheral::Uart2),
            0x180003 => Some(Peripheral::Uart3),
            0x180004 => Some(Peripheral::Uart4),
            0x180005 => Some(Peripheral::Uart5),
            0x180006 => Some(Peripheral::Uart6),
            0x180007 => Some(Peripheral::Uart7),
            0x1c0000 => Some(Peripheral::Ssi0),
            0x1c0001 => Some(Peripheral::Ssi1),
            0x1c0002 => Some(Peripheral::Ssi2),
            0x1c0003 => Some(Peripheral::Ssi3),
            0x200000 => Some(Peripheral::I2C0),
            0x200001 => Some(Peripheral::I2C1),
            0x200002 => Some(Peripheral::I2C2),
            0x200003 => Some(Peripheral::I2C3),
            0x280000 => Some(Peripheral::Usb),
            0x340000 => Some(Peripheral::Can0),
            0x340001 => Some(Peripheral::Can1),
            0x380000 => Some(Peripheral::Adc0),
            0x380001 => Some(Peripheral::Adc1),
            0x3c0000 => Some(Peripheral::Acmp0),
            0x400000 => Some(Peripheral::Pwm0),
            0x400001 => Some(Peripheral::Pwm1),
            0x440000 => Some(Peripheral::Qei0),
            0x440001 => Some(Peripheral::Qei1),
            0x580000 => Some(Peripheral::Eeprom),
            0x5c0000 => Some(Peripheral::WideTimer0),
            0x5c0001 => Some(Peripheral::WideTimer1),
            0x5c0002 => Some(Peripheral::WideTimer2),
            0x5c0003 => Some(Peripheral::WideTimer3),
            0x5c0004 => Some(Peripheral::WideTimer4),
            0x5c0005 => Some(Peripheral::WideTimer5),
            _ => None,
        }
    }

    /// The number of the peripheral's bit within the word of its class.
    pub fn as_bit(self) -> (bit: u32)
        ensures
            bit == self.bit(),
            bit < 8,
    {
        let raw: u32 = self.to_u32();
        assert(raw & 0xFFFF == raw % 65536) by (bit_vector);
        raw & 0xFFFF
    }

    /// The offset, within a bank, of the word of the peripheral's class.
    pub fn as_offset(self) -> (offset: u32)
        ensures
            offset == self.offset(),
            offset <= 0x5C,
            offset % 4 == 0,
    {
        let raw: u32 = self.to_u32();
        assert(raw >> 16 == raw / 65536) by (bit_vector);
        raw >> 16
    }

    /// The offset of the software reset word of the peripheral's class.
    pub fn as_sr_offset(self) -> (offset: u32)
        ensures
            offset == SYSCTL_SR_BASE_OFFSET + self.offset(),
    {
        self.as_offset() + SYSCTL_SR_BASE_OFFSET
    }

    /// The offset of the clock gating word of the peripheral's class.
    pub fn as_rcgc_offset(self) -> (offset: u32)
        ensures
            offset == SYSCTL_RCGC_BASE_OFFSET + self.offset(),
    {
        self.as_offset() + SYSCTL_RCGC_BASE_OFFSET
    }

    /// The offset of the peripheral ready word of the peripheral's class.
    pub fn as_pr_offset(self) -> (offset: u32)
        ensures
            offset == SYSCTL_PR_BASE_OFFSET + self.offset(),
    {
        self.as_offset() + SYSCTL_PR_BASE_OFFSET
    }
}

/// A peripheral is the one made of its own offset and bit, and the one that
/// its own number names.
pub proof fn lemma_peripheral_round_trip(peripheral: Peripheral)
    ensures
        Peripheral::of_parts(peripheral.offset(), peripheral.bit()) == Some(peripheral),
        Peripheral::of_code(peripheral.code()) == Some(peripheral),
        peripheral.code() == 65536 * peripheral.offset() + peripheral.bit(),
        peripheral.offset() <= 0x5C,
        peripheral.offset() % 4 == 0,
        peripheral.bit() < 8,
{
}

/// The peripheral made of an offset and a bit has that offset and that bit.
pub proof fn lemma_peripheral_parts(offset: u32, bit: u32)
    requires
        Peripheral::of_parts(offset, bit) is Some,
    ensures
        Peripheral::of_parts(offset, bit)->0.offset() == offset,
        Peripheral::of_parts(offset, bit)->0.bit() == bit,
{
}

/// No two peripherals share a number.
pub proof fn lemma_peripheral_code_injective(a: Peripheral, b: Peripheral)
    requires
        a.code() == b.code(),
    ensures
        a == b,
{
    lemma_peripheral_round_trip(a);
    lemma_peripheral_round_trip(b);
}

} // verus!

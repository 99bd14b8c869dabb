//! The registers of one GPIO port, and what the four operations of the pin
//! controller do to them.
//!
//! Every operation changes the registers by a short row of
//! read-modify-writes, each on one register. The functions here make those
//! writes on a [`RegisterBlock`] and hand the row back, so that whoever
//! holds the registers of the hardware can make the same writes there, one
//! after the other as they stand in the row.

use vstd::prelude::*;
use crate::attributes::{unpacked, Alternate, Mode, OutputType, Pull, Speed, Value};
use crate::bits::{
    bit_is_set,
    lemma_with_bit,
    lemma_with_bit_flipped,
    lemma_with_nibble,
    test_bit,
    with_bit,
    with_bit_flipped,
    with_nibble,
};
use crate::gpio_api::Gpios;

verus! {

/// The registers of one GPIO port that the driver reads or writes. Bit `n`
/// of each register belongs to pin `n` of the port, but for `pctl`, which
/// holds one four-bit field for each pin.
#[derive(Copy, Clone, Debug, PartialEq, Eq, Structural)]
pub struct RegisterBlock {
    /// Analog mode select.
    pub amsel: u32,
    /// Digital enable.
    pub den: u32,
    /// Alternate function select.
    pub afsel: u32,
    /// Direction: a set bit makes the pin an output.
    pub dir: u32,
    /// 2 mA drive select.
    pub dr2r: u32,
    /// 4 mA drive select.
    pub dr4r: u32,
    /// 8 mA drive select.
    pub dr8r: u32,
    /// Slew rate control select.
    pub slr: u32,
    /// Port control: the alternate function of each pin.
    pub pctl: u32,
    /// Open drain select.
    pub odr: u32,
    /// Pull-up select.
    pub pur: u32,
    /// Pull-down select.
    pub pdr: u32,
    /// Data: the level of each pin.
    pub data: u32,
}

/// The name of one register of a port.
#[derive(Copy, Clone, Debug, PartialEq, Eq, Structural)]
pub enum Register {
    Amsel,
    Den,
    Afsel,
    Dir,
    Dr2r,
    Dr4r,
    Dr8r,
    Slr,
    Pctl,
    Odr,
    Pur,
    Pdr,
    Data,
}

/// One read-modify-write of a register: of the word that is read, the bits
/// of `clear` are cleared, then the bits of `set` are set, then the bits of
/// `flip` are inverted, and the result is written back.
#[derive(Copy, Clone, Debug, PartialEq, Eq, Structural)]
pub struct RegisterWrite {
    pub register: Register,
    pub clear: u32,
    pub set: u32,
    pub flip: u32,
}

/// The word that the write `write` leaves in a register that held `word`.
pub open spec fn written(word: u32, write: RegisterWrite) -> u32 {
    ((word & !write.clear) | write.set) ^ write.flip
}

/// The write that gives the bit of pin `pin` the value `on`.
pub open spec fn bit_write(register: Register, pin: u8, on: bool) -> RegisterWrite {
    RegisterWrite {
        register,
        clear: 1u32 << pin,
        set: if on {
            1u32 << pin
        } else {
            0
        },
        flip: 0,
    }
}

/// The write that sets the bit of pin `pin`.
pub open spec fn set_write(register: Register, pin: u8) -> RegisterWrite {
    RegisterWrite { register, clear: 0, set: 1u32 << pin, flip: 0 }
}

/// The write that inverts the bit of pin `pin`.
pub open spec fn flip_write(register: Register, pin: u8) -> RegisterWrite {
    RegisterWrite { register, clear: 0, set: 0, flip: 1u32 << pin }
}

/// The write that gives the four-bit field of pin `pin` the value `value`.
pub open spec fn field_write(register: Register, pin: u8, value: u32) -> RegisterWrite {
    RegisterWrite {
        register,
        clear: 0xFu32 << ((pin * 4) as u8),
        set: value << ((pin * 4) as u8),
        flip: 0,
    }
}

impl RegisterBlock {
    /// A port as it comes out of reset: every register zero.
    pub open spec fn zeroed() -> RegisterBlock {
        RegisterBlock {
            amsel: 0,
            den: 0,
            afsel: 0,
            dir: 0,
            dr2r: 0,
            dr4r: 0,
            dr8r: 0,
            slr: 0,
            pctl: 0,
            odr: 0,
            pur: 0,
            pdr: 0,
            data: 0,
        }
    }

    /// The word of the register `register`.
    pub open spec fn word(self, register: Register) -> u32 {
        match register {
            Register::Amsel => self.amsel,
            Register::Den => self.den,
            Register::Afsel => self.afsel,
            Register::Dir => self.dir,
            Register::Dr2r => self.dr2r,
            Register::Dr4r => self.dr4r,
            Register::Dr8r => self.dr8r,
            Register::Slr => self.slr,
            Register::Pctl => self.pctl,
            Register::Odr => self.odr,
            Register::Pur => self.pur,
            Register::Pdr => self.pdr,
            Register::Data => self.data,
        }
    }

    /// The port with `word` in the register `register`.
    pub open spec fn with_word(self, register: Register, word: u32) -> RegisterBlock {
        match register {
            Register::Amsel => RegisterBlock { amsel: word, ..self },
            Register::Den => RegisterBlock { den: word, ..self },
            Register::Afsel => RegisterBlock { afsel: word, ..self },
            Register::Dir => RegisterBlock { dir: word, ..self },
            Register::Dr2r => RegisterBlock { dr2r: word, ..self },
            Register::Dr4r => RegisterBlock { dr4r: word, ..self },
            Register::Dr8r => RegisterBlock { dr8r: word, ..self },
            Register::Slr => RegisterBlock { slr: word, ..self },
            Register::Pctl => RegisterBlock { pctl: word, ..self },
            Register::Odr => RegisterBlock { odr: word, ..self },
            Register::Pur => RegisterBlock { pur: word, ..self },
            Register::Pdr => RegisterBlock { pdr: word, ..self },
            Register::Data => RegisterBlock { data: word, ..self },
        }
    }
}

/// The port after the write `write`.
pub open spec fn applied(regs: RegisterBlock, write: RegisterWrite) -> RegisterBlock {
    regs.with_word(write.register, written(regs.word(write.register), write))
}

/// The port after the writes of `writes`, first to last.
pub open spec fn applied_all(regs: RegisterBlock, writes: Seq<RegisterWrite>) -> RegisterBlock
    decreases writes.len(),
{
    if writes.len() == 0 {
        regs
    } else {
        applied_all(applied(regs, writes[0]), writes.drop_first())
    }
}

/// The writes that say what kind of pin it is: analog or digital,
/// alternate, and its direction. Analog select and digital enable exclude
/// each other, so of the two the one that is switched off is written first:
/// for an analog pin digital enable, for every other pin analog select.
pub open spec fn mode_writes(pin: u8, mode: Mode) -> Seq<RegisterWrite> {
    (if mode == Mode::Analog {
        seq![bit_write(Register::Den, pin, false), bit_write(Register::Amsel, pin, true)]
    } else {
        seq![bit_write(Register::Amsel, pin, false), bit_write(Register::Den, pin, true)]
    }) + seq![
        bit_write(Register::Afsel, pin, mode == Mode::Alternate),
        bit_write(Register::Dir, pin, mode == Mode::Output),
    ]
}

/// The writes that select the drive of an output pin. A pin that is no
/// output gets none.
pub open spec fn drive_writes(pin: u8, mode: Mode, speed: Speed) -> Seq<RegisterWrite> {
    if mode != Mode::Output {
        Seq::empty()
    } else {
        match speed {
            Speed::Low => seq![set_write(Register::Dr2r, pin)],
            Speed::Medium => seq![set_write(Register::Dr4r, pin)],
            Speed::High => seq![set_write(Register::Dr8r, pin)],
            Speed::VeryHigh => seq![
                set_write(Register::Dr8r, pin),
                set_write(Register::Slr, pin),
            ],
        }
    }
}

/// The write that selects the function of a pin in alternate mode. A pin in
/// another mode gets none.
pub open spec fn function_writes(pin: u8, mode: Mode, af: Alternate) -> Seq<RegisterWrite> {
    if mode == Mode::Alternate {
        seq![field_write(Register::Pctl, pin, af.code() as u32)]
    } else {
        Seq::empty()
    }
}

/// The writes that say how the pin drives its line: open drain or not, and
/// its pull resistors. Pull-up and pull-down exclude each other, so of the
/// two the one that is switched off is written first: for a pin that is
/// pulled up the pull-down, for every other pin the pull-up.
pub open spec fn line_writes(pin: u8, output_type: OutputType, pull: Pull) -> Seq<RegisterWrite> {
    seq![bit_write(Register::Odr, pin, output_type == OutputType::OpenDrain)] + (if pull
        == Pull::Up {
        seq![bit_write(Register::Pdr, pin, false), bit_write(Register::Pur, pin, true)]
    } else {
        seq![
            bit_write(Register::Pur, pin, false),
            bit_write(Register::Pdr, pin, pull == Pull::Down),
        ]
    })
}

/// The writes that give pin `pin` the configuration `(mode, output type,
/// speed, pull, alternate function)`, in the order in which they are made:
/// first the kind of the pin, then its drive or its function, then its
/// line.
pub open spec fn configure_writes(
    pin: u8,
    config: (Mode, OutputType, Speed, Pull, Alternate),
) -> Seq<RegisterWrite> {
    let (mode, output_type, speed, pull, af) = config;
    mode_writes(pin, mode) + drive_writes(pin, mode, speed) + function_writes(pin, mode, af)
        + line_writes(pin, output_type, pull)
}

/// Whether pin `pin` is analog and digital at once: a state that the
/// hardware must not be in, not even in passing.
pub open spec fn analog_and_digital(regs: RegisterBlock, pin: u8) -> bool {
    bit_is_set(regs.amsel, pin) && bit_is_set(regs.den, pin)
}

/// Whether pin `pin` is pulled up and down at once: a state that the
/// hardware must not be in, not even in passing.
pub open spec fn pulled_both_ways(regs: RegisterBlock, pin: u8) -> bool {
    bit_is_set(regs.pur, pin) && bit_is_set(regs.pdr, pin)
}

/// The write that drives pin `pin` to `value`.
pub open spec fn set_writes(pin: u8, value: Value) -> Seq<RegisterWrite> {
    seq![
        if value == Value::One {
            set_write(Register::Data, pin)
        } else {
            bit_write(Register::Data, pin, false)
        },
    ]
}

/// The write that inverts the level of pin `pin`.
pub open spec fn toggle_writes(pin: u8) -> Seq<RegisterWrite> {
    seq![flip_write(Register::Data, pin)]
}

/// The registers of a port after pin `pin` has been given the configuration
/// `(mode, output type, speed, pull, alternate function)`.
///
/// The mode decides the analog, digital, alternate and direction bits of the
/// pin. The speed selects a drive register for an output pin and leaves the
/// drive registers alone otherwise. The alternate function is written for a
/// pin in alternate mode only. Open drain and the two pull resistors are
/// as the configuration says, whatever the mode. The level of the pin does
/// not change.
pub open spec fn configured(
    regs: RegisterBlock,
    pin: u8,
    config: (Mode, OutputType, Speed, Pull, Alternate),
) -> RegisterBlock {
    let (mode, output_type, speed, pull, af) = config;
    let output = mode == Mode::Output;
    RegisterBlock {
        amsel: with_bit(regs.amsel, pin, mode == Mode::Analog),
        den: with_bit(regs.den, pin, mode != Mode::Analog),
        afsel: with_bit(regs.afsel, pin, mode == Mode::Alternate),
        dir: with_bit(regs.dir, pin, output),
        dr2r: if output && speed == Speed::Low {
            with_bit(regs.dr2r, pin, true)
        } else {
            regs.dr2r
        },
        dr4r: if output && speed == Speed::Medium {
            with_bit(regs.dr4r, pin, true)
        } else {
            regs.dr4r
        },
        dr8r: if output && (speed == Speed::High || speed == Speed::VeryHigh) {
            with_bit(regs.dr8r, pin, true)
        } else {
            regs.dr8r
        },
        slr: if output && speed == Speed::VeryHigh {
            with_bit(regs.slr, pin, true)
        } else {
            regs.slr
        },
        pctl: if mode == Mode::Alternate {
            with_nibble(regs.pctl, pin, af.code() as u32)
        } else {
            regs.pctl
        },
        odr: with_bit(regs.odr, pin, output_type == OutputType::OpenDrain),
        pur: with_bit(regs.pur, pin, pull == Pull::Up),
        pdr: with_bit(regs.pdr, pin, pull == Pull::Down),
        data: regs.data,
    }
}

/// The registers of a port after pin `pin` has been driven to `value`.
pub open spec fn driven(regs: RegisterBlock, pin: u8, value: Value) -> RegisterBlock {
    RegisterBlock { data: with_bit(regs.data, pin, value == Value::One), ..regs }
}

/// The registers of a port after the level of pin `pin` has been inverted.
pub open spec fn toggled(regs: RegisterBlock, pin: u8) -> RegisterBlock {
    RegisterBlock { data: with_bit_flipped(regs.data, pin), ..regs }
}

/// The level of pin `pin` of a port.
pub open spec fn level(regs: RegisterBlock, pin: u8) -> Value {
    if bit_is_set(regs.data, pin) {
        Value::One
    } else {
        Value::Zero
    }
}

/// The other level.
pub open spec fn inverted(value: Value) -> Value {
    match value {
        Value::Zero => Value::One,
        Value::One => Value::Zero,
    }
}

/// What the driver can do with the pins of one port. Each operation that
/// changes the port returns the writes it made, first to last.
pub trait AnyGpioPeriph {
    /// The registers of the port.
    spec fn registers(&self) -> RegisterBlock;

    /// Gives pin `pin` the configuration that the packed word `atts` stands
    /// for. A pin that was not analog and digital at once before is not so
    /// after any of the writes either, and the same holds of a pin that was
    /// not pulled up and down at once.
    fn configure(&mut self, pin: u8, atts: u16) -> (writes: Vec<RegisterWrite>)
        requires
            pin < 8,
            unpacked(atts as int) is Some,
        ensures
            writes@ == configure_writes(pin, unpacked(atts as int)->0),
            final(self).registers() == applied_all(old(self).registers(), writes@),
            final(self).registers() == configured(
                old(self).registers(),
                pin,
                unpacked(atts as int)->0,
            ),
            !analog_and_digital(old(self).registers(), pin) ==> forall|made: int|
                0 <= made <= writes@.len() ==> !analog_and_digital(
                    applied_all(old(self).registers(), #[trigger] writes@.take(made)),
                    pin,
                ),
            !pulled_both_ways(old(self).registers(), pin) ==> forall|made: int|
                0 <= made <= writes@.len() ==> !pulled_both_ways(
                    applied_all(old(self).registers(), #[trigger] writes@.take(made)),
                    pin,
                ),
    ;

    /// Drives pin `pin` to `value`.
    fn set(&mut self, pin: u8, value: Value) -> (writes: Vec<RegisterWrite>)
        requires
            pin < 8,
        ensures
            writes@ == set_writes(pin, value),
            final(self).registers() == applied_all(old(self).registers(), writes@),
            final(self).registers() == driven(old(self).registers(), pin, value),
    ;

    /// Reads the level of pin `pin`.
    fn read(&self, pin: u8) -> (value: Value)
        requires
            pin < 8,
        ensures
            value == level(self.registers(), pin),
    ;

    /// Inverts the level of pin `pin`.
    fn toggle(&mut self, pin: u8) -> (writes: Vec<RegisterWrite>)
        requires
            pin < 8,
        ensures
            writes@ == toggle_writes(pin),
            final(self).registers() == applied_all(old(self).registers(), writes@),
            final(self).registers() == toggled(old(self).registers(), pin),
    ;
}

impl RegisterWrite {
    /// The write that gives the bit of pin `pin` the value `on`.
    pub fn bit(register: Register, pin: u8, on: bool) -> (write: RegisterWrite)
        requires
            pin < 32,
        ensures
            write == bit_write(register, pin, on),
    {
        let set_mask: u32 = 1u32 << pin;
        RegisterWrite {
            register,
            clear: set_mask,
            set: if on {
                set_mask
            } else {
                0
            },
            flip: 0,
        }
    }

    /// The write that sets the bit of pin `pin`.
    pub fn set(register: Register, pin: u8) -> (write: RegisterWrite)
        requires
            pin < 32,
        ensures
            write == set_write(register, pin),
    {
        RegisterWrite { register, clear: 0, set: 1u32 << pin, flip: 0 }
    }

    /// The write that inverts the bit of pin `pin`.
    pub fn flip(register: Register, pin: u8) -> (write: RegisterWrite)
        requires
            pin < 32,
        ensures
            write == flip_write(register, pin),
    {
        RegisterWrite { register, clear: 0, set: 0, flip: 1u32 << pin }
    }

    /// The write that gives the four-bit field of pin `pin` the value
    /// `value`.
    pub fn field(register: Register, pin: u8, value: u32) -> (write: RegisterWrite)
        requires
            pin < 8,
        ensures
            write == field_write(register, pin, value),
    {
        let shift: u8 = pin * 4;
        RegisterWrite { register, clear: 0xFu32 << shift, set: value << shift, flip: 0 }
    }

    /// The word that this write leaves in a register that held `word`.
    pub fn write(&self, word: u32) -> (out: u32)
        ensures
            out == written(word, *self),
    {
        ((word & !self.clear) | self.set) ^ self.flip
    }
}

impl RegisterBlock {
    /// A port as it comes out of reset: every register zero.
    pub fn new() -> (regs: RegisterBlock)
        ensures
            regs == RegisterBlock::zeroed(),
    {
        RegisterBlock {
            amsel: 0,
            den: 0,
            afsel: 0,
            dir: 0,
            dr2r: 0,
            dr4r: 0,
            dr8r: 0,
            slr: 0,
            pctl: 0,
            odr: 0,
            pur: 0,
            pdr: 0,
            data: 0,
        }
    }

    /// Makes one write.
    pub fn apply(&mut self, write: RegisterWrite)
        ensures
            *final(self) == applied(*old(self), write),
    {
        match write.register {
            Register::Amsel => {
                self.amsel = write.write(self.amsel);
            },
            Register::Den => {
                self.den = write.write(self.den);
            },
            Register::Afsel => {
                self.afsel = write.write(self.afsel);
            },
            Register::Dir => {
                self.dir = write.write(self.dir);
            },
            Register::Dr2r => {
                self.dr2r = write.write(self.dr2r);
            },
            Register::Dr4r => {
                self.dr4r = write.write(self.dr4r);
            },
            Register::Dr8r => {
                self.dr8r = write.write(self.dr8r);
            },
            Register::Slr => {
                self.slr = write.write(self.slr);
            },
            Register::Pctl => {
                self.pctl = write.write(self.pctl);
            },
            Register::Odr => {
                self.odr = write.write(self.odr);
            },
            Register::Pur => {
                self.pur = write.write(self.pur);
            },
            Register::Pdr => {
                self.pdr = write.write(self.pdr);
            },
            Register::Data => {
                self.data = write.write(self.data);
            },
        }
    }

    /// Makes one write and notes it at the end of `log`.
    fn modify(&mut self, log: &mut Vec<RegisterWrite>, write: RegisterWrite, base: Ghost<
        RegisterBlock,
    >)
        requires
            *old(self) == applied_all(base@, old(log)@),
        ensures
            final(log)@ == old(log)@.push(write),
            *final(self) == applied(*old(self), write),
            *final(self) == applied_all(base@, final(log)@),
    {
        proof {
            lemma_applied_all_concat(base@, log@, seq![write]);
            assert(log@ + seq![write] =~= log@.push(write));
            reveal_with_fuel(applied_all, 2);
        }
        self.apply(write);
        log.push(write);
    }

    /// Says what kind of pin it is: analog or digital, alternate, and its
    /// direction.
    fn write_mode(&mut self, log: &mut Vec<RegisterWrite>, pin: u8, mode: Mode, base: Ghost<
        RegisterBlock,
    >)
        requires
            pin < 8,
            *old(self) == applied_all(base@, old(log)@),
        ensures
            final(log)@ == old(log)@ + mode_writes(pin, mode),
            *final(self) == applied_all(base@, final(log)@),
    {
        let alternate_en = matches!(mode, Mode::Alternate);
        let output_en = matches!(mode, Mode::Output);

        // Analog and digital exclude each other: switch the one off before
        // the other is switched on.
        if matches!(mode, Mode::Analog) {
            self.modify(log, RegisterWrite::bit(Register::Den, pin, false), base);
            self.modify(log, RegisterWrite::bit(Register::Amsel, pin, true), base);
        } else {
            self.modify(log, RegisterWrite::bit(Register::Amsel, pin, false), base);
            self.modify(log, RegisterWrite::bit(Register::Den, pin, true), base);
        }
        self.modify(log, RegisterWrite::bit(Register::Afsel, pin, alternate_en), base);
        self.modify(log, RegisterWrite::bit(Register::Dir, pin, output_en), base);
        assert(log@ =~= old(log)@ + mode_writes(pin, mode));
    }

    /// Selects the drive of an output pin.
    fn write_drive(
        &mut self,
        log: &mut Vec<RegisterWrite>,
        pin: u8,
        mode: Mode,
        speed: Speed,
        base: Ghost<RegisterBlock>,
    )
        requires
            pin < 8,
            *old(self) == applied_all(base@, old(log)@),
        ensures
            final(log)@ == old(log)@ + drive_writes(pin, mode, speed),
            *final(self) == applied_all(base@, final(log)@),
    {
        match mode {
            Mode::Output => match speed {
                Speed::Low => {
                    self.modify(log, RegisterWrite::set(Register::Dr2r, pin), base);
                },
                Speed::Medium => {
                    self.modify(log, RegisterWrite::set(Register::Dr4r, pin), base);
                },
                Speed::High => {
                    self.modify(log, RegisterWrite::set(Register::Dr8r, pin), base);
                },
                Speed::VeryHigh => {
                    self.modify(log, RegisterWrite::set(Register::Dr8r, pin), base);
                    self.modify(log, RegisterWrite::set(Register::Slr, pin), base);
                },
            },
            _ => {},
        }
        assert(log@ =~= old(log)@ + drive_writes(pin, mode, speed));
    }

    /// Selects the function of a pin in alternate mode.
    fn write_function(
        &mut self,
        log: &mut Vec<RegisterWrite>,
        pin: u8,
        mode: Mode,
        af: Alternate,
        base: Ghost<RegisterBlock>,
    )
        requires
            pin < 8,
            *old(self) == applied_all(base@, old(log)@),
        ensures
            final(log)@ == old(log)@ + function_writes(pin, mode, af),
            *final(self) == applied_all(base@, final(log)@),
    {
        if matches!(mode, Mode::Alternate) {
            self.modify(log, RegisterWrite::field(Register::Pctl, pin, af.to_u16() as u32), base);
        }
        assert(log@ =~= old(log)@ + function_writes(pin, mode, af));
    }

    /// Says how the pin drives its line: open drain or not, and its pull
    /// resistors.
    fn write_line(
        &mut self,
        log: &mut Vec<RegisterWrite>,
        pin: u8,
        output_type: OutputType,
        pull: Pull,
        base: Ghost<RegisterBlock>,
    )
        requires
            pin < 8,
            *old(self) == applied_all(base@, old(log)@),
        ensures
            final(log)@ == old(log)@ + line_writes(pin, output_type, pull),
            *final(self) == applied_all(base@, final(log)@),
    {
        let open_drain_en = matches!(output_type, OutputType::OpenDrain);
        self.modify(log, RegisterWrite::bit(Register::Odr, pin, open_drain_en), base);

        // The two pulls exclude each other: switch the one off before the
        // other is switched on.
        if matches!(pull, Pull::Up) {
            self.modify(log, RegisterWrite::bit(Register::Pdr, pin, false), base);
            self.modify(log, RegisterWrite::bit(Register::Pur, pin, true), base);
        } else {
            let pull_down_en = matches!(pull, Pull::Down);

            self.modify(log, RegisterWrite::bit(Register::Pur, pin, false), base);
            self.modify(log, RegisterWrite::bit(Register::Pdr, pin, pull_down_en), base);
        }
        assert(log@ =~= old(log)@ + line_writes(pin, output_type, pull));
    }
}

impl AnyGpioPeriph for RegisterBlock {
    open spec fn registers(&self) -> RegisterBlock {
        *self
    }

    fn configure(&mut self, pin: u8, atts: u16) -> (writes: Vec<RegisterWrite>) {
        let (mode, output_type, speed, pull, af) = Gpios::unpack_attribute(atts);
        let base = Ghost(*self);
        let mut writes: Vec<RegisterWrite> = Vec::new();

        self.write_mode(&mut writes, pin, mode, base);
        self.write_drive(&mut writes, pin, mode, speed, base);
        self.write_function(&mut writes, pin, mode, af, base);
        self.write_line(&mut writes, pin, output_type, pull, base);

        proof {
            lemma_configure_contract(base@, pin, (mode, output_type, speed, pull, af), writes@);
        }
        writes
    }

    fn set(&mut self, pin: u8, value: Value) -> (writes: Vec<RegisterWrite>) {
        let base = Ghost(*self);
        let mut writes: Vec<RegisterWrite> = Vec::new();
        let write = if matches!(value, Value::One) {
            RegisterWrite::set(Register::Data, pin)
        } else {
            RegisterWrite::bit(Register::Data, pin, false)
        };
        self.modify(&mut writes, write, base);
        proof {
            assert(writes@ =~= set_writes(pin, value));
            lemma_data_writes(base@, pin, value);
        }
        writes
    }

    fn read(&self, pin: u8) -> (value: Value) {
        if test_bit(self.data, pin) {
            Value::One
        } else {
            Value::Zero
        }
    }

    fn toggle(&mut self, pin: u8) -> (writes: Vec<RegisterWrite>) {
        let base = Ghost(*self);
        let mut writes: Vec<RegisterWrite> = Vec::new();
        self.modify(&mut writes, RegisterWrite::flip(Register::Data, pin), base);
        proof {
            assert(writes@ =~= toggle_writes(pin));
            lemma_data_writes(base@, pin, Value::One);
        }
        writes
    }
}

proof fn lemma_masks(word: u32, pin: u8, value: u32)
    by (bit_vector)
    requires
        pin < 8,
        value < 16,
    ensures
        ((word & !(1u32 << pin)) | (1u32 << pin)) ^ 0 == word | (1u32 << pin),
        ((word & !(1u32 << pin)) | 0) ^ 0 == word & !(1u32 << pin),
        ((word & !0u32) | (1u32 << pin)) ^ 0 == word | (1u32 << pin),
        ((word & !0u32) | 0) ^ (1u32 << pin) == word ^ (1u32 << pin),
        ((word & !(0xFu32 << ((pin * 4) as u8))) | (value << ((pin * 4) as u8))) ^ 0 == (word & !(
        0xFu32 << ((pin * 4) as u8))) | (value << ((pin * 4) as u8)),
{
}

/// What each kind of write leaves in a register: the bit of the pin with
/// its new value, or its field with its new value, and the rest of the word
/// as it was.
pub proof fn lemma_written(word: u32, register: Register, pin: u8, on: bool, value: u32)
    requires
        pin < 8,
        value < 16,
    ensures
        written(word, bit_write(register, pin, on)) == with_bit(word, pin, on),
        written(word, set_write(register, pin)) == with_bit(word, pin, true),
        written(word, flip_write(register, pin)) == with_bit_flipped(word, pin),
        written(word, field_write(register, pin, value)) == with_nibble(word, pin, value),
{
    lemma_masks(word, pin, value);
}

/// Making two rows of writes one after the other is making them as one
/// row.
pub proof fn lemma_applied_all_concat(
    regs: RegisterBlock,
    first: Seq<RegisterWrite>,
    second: Seq<RegisterWrite>,
)
    ensures
        applied_all(regs, first + second) == applied_all(applied_all(regs, first), second),
    decreases first.len(),
{
    if first.len() == 0 {
        assert(first + second =~= second);
    } else {
        assert((first + second).drop_first() =~= first.drop_first() + second);
        lemma_applied_all_concat(applied(regs, first[0]), first.drop_first(), second);
    }
}

/// The writes of a configuration leave the registers that the
/// configuration describes.
#[verifier::rlimit(40)]
pub proof fn lemma_configure_writes(
    regs: RegisterBlock,
    pin: u8,
    config: (Mode, OutputType, Speed, Pull, Alternate),
)
    requires
        pin < 8,
    ensures
        applied_all(regs, configure_writes(pin, config)) == configured(regs, pin, config),
{
    let (mode, output_type, speed, pull, af) = config;
    let kind = mode_writes(pin, mode);
    let drive = drive_writes(pin, mode, speed);
    let function = function_writes(pin, mode, af);
    let line = line_writes(pin, output_type, pull);
    lemma_applied_all_concat(regs, kind + drive + function, line);
    lemma_applied_all_concat(regs, kind + drive, function);
    lemma_applied_all_concat(regs, kind, drive);
    let after_kind = applied_all(regs, kind);
    let after_drive = applied_all(after_kind, drive);
    let after_function = applied_all(after_drive, function);
    assert(after_kind == (RegisterBlock {
        amsel: with_bit(regs.amsel, pin, mode == Mode::Analog),
        den: with_bit(regs.den, pin, mode != Mode::Analog),
        afsel: with_bit(regs.afsel, pin, mode == Mode::Alternate),
        dir: with_bit(regs.dir, pin, mode == Mode::Output),
        ..regs
    })) by {
        reveal_with_fuel(applied_all, 5);
        lemma_written(regs.amsel, Register::Amsel, pin, mode == Mode::Analog, 0);
        lemma_written(regs.den, Register::Den, pin, mode != Mode::Analog, 0);
        lemma_written(regs.afsel, Register::Afsel, pin, mode == Mode::Alternate, 0);
        lemma_written(regs.dir, Register::Dir, pin, mode == Mode::Output, 0);
    }
    assert(after_drive == (RegisterBlock {
        dr2r: configured(regs, pin, config).dr2r,
        dr4r: configured(regs, pin, config).dr4r,
        dr8r: configured(regs, pin, config).dr8r,
        slr: configured(regs, pin, config).slr,
        ..after_kind
    })) by {
        reveal_with_fuel(applied_all, 3);
        lemma_written(regs.dr2r, Register::Dr2r, pin, true, 0);
        lemma_written(regs.dr4r, Register::Dr4r, pin, true, 0);
        lemma_written(regs.dr8r, Register::Dr8r, pin, true, 0);
        lemma_written(regs.slr, Register::Slr, pin, true, 0);
    }
    assert(after_function == (RegisterBlock {
        pctl: configured(regs, pin, config).pctl,
        ..after_drive
    })) by {
        reveal_with_fuel(applied_all, 2);
        lemma_written(regs.pctl, Register::Pctl, pin, true, af.code() as u32);
    }
    assert(applied_all(after_function, line) == (RegisterBlock {
        odr: configured(regs, pin, config).odr,
        pur: configured(regs, pin, config).pur,
        pdr: configured(regs, pin, config).pdr,
        ..after_function
    })) by {
        reveal_with_fuel(applied_all, 4);
        lemma_written(regs.odr, Register::Odr, pin, output_type == OutputType::OpenDrain, 0);
        lemma_written(regs.pur, Register::Pur, pin, pull == Pull::Up, 0);
        lemma_written(regs.pdr, Register::Pdr, pin, pull == Pull::Down, 0);
    }
}

/// All that a configure call promises of its writes: they leave the
/// registers that the configuration describes, and on the way there the
/// pin is never analog and digital at once, nor pulled up and down at once,
/// unless it was so before.
#[verifier::rlimit(40)]
pub proof fn lemma_configure_contract(
    regs: RegisterBlock,
    pin: u8,
    config: (Mode, OutputType, Speed, Pull, Alternate),
    writes: Seq<RegisterWrite>,
)
    requires
        pin < 8,
        writes =~= Seq::<RegisterWrite>::empty() + mode_writes(pin, config.0) + drive_writes(
            pin,
            config.0,
            config.2,
        ) + function_writes(pin, config.0, config.4) + line_writes(pin, config.1, config.3),
    ensures
        writes == configure_writes(pin, config),
        applied_all(regs, writes) == configured(regs, pin, config),
        !analog_and_digital(regs, pin) ==> forall|made: int|
            0 <= made <= writes.len() ==> !analog_and_digital(
                applied_all(regs, #[trigger] writes.take(made)),
                pin,
            ),
        !pulled_both_ways(regs, pin) ==> forall|made: int|
            0 <= made <= writes.len() ==> !pulled_both_ways(
                applied_all(regs, #[trigger] writes.take(made)),
                pin,
            ),
{
    assert(writes =~= configure_writes(pin, config));
    lemma_configure_writes(regs, pin, config);
    if !analog_and_digital(regs, pin) {
        assert forall|made: int| 0 <= made <= writes.len() implies !analog_and_digital(
            applied_all(regs, #[trigger] writes.take(made)),
            pin,
        ) by {
            lemma_never_analog_and_digital(regs, pin, config, made);
        }
    }
    if !pulled_both_ways(regs, pin) {
        assert forall|made: int| 0 <= made <= writes.len() implies !pulled_both_ways(
            applied_all(regs, #[trigger] writes.take(made)),
            pin,
        ) by {
            lemma_never_pulled_both_ways(regs, pin, config, made);
        }
    }
}

/// The write of a set leaves the pin at the level asked for, and the write
/// of a toggle leaves it inverted. Neither touches another register.
pub proof fn lemma_data_writes(regs: RegisterBlock, pin: u8, value: Value)
    requires
        pin < 8,
    ensures
        applied_all(regs, set_writes(pin, value)) == driven(regs, pin, value),
        applied_all(regs, toggle_writes(pin)) == toggled(regs, pin),
{
    reveal_with_fuel(applied_all, 2);
    lemma_written(regs.data, Register::Data, pin, false, 0);
}

/// A pin reads back the level it was driven to, whatever its configuration
/// and whatever was done to other pins of the port before; after a toggle it
/// reads back the other level. Configuring a pin does not change the level
/// of any pin.
pub proof fn lemma_level_after(
    regs: RegisterBlock,
    pin: u8,
    value: Value,
    other: u8,
    config: (Mode, OutputType, Speed, Pull, Alternate),
)
    requires
        pin < 8,
        other < 8,
    ensures
        level(driven(regs, pin, value), pin) == value,
        level(toggled(regs, pin), pin) == inverted(level(regs, pin)),
        other != pin ==> level(driven(regs, pin, value), other) == level(regs, other),
        other != pin ==> level(toggled(regs, pin), other) == level(regs, other),
        level(configured(regs, pin, config), other) == level(regs, other),
{
    lemma_with_bit(regs.data, pin, value == Value::One, other);
    lemma_with_bit_flipped(regs.data, pin, other);
}

/// Configuring a pin twice in the same way, or driving it twice to the same
/// level, leaves the registers as doing so once.
pub proof fn lemma_repeat_is_idempotent(
    regs: RegisterBlock,
    pin: u8,
    value: Value,
    config: (Mode, OutputType, Speed, Pull, Alternate),
)
    requires
        pin < 8,
    ensures
        configured(configured(regs, pin, config), pin, config) == configured(regs, pin, config),
        driven(driven(regs, pin, value), pin, value) == driven(regs, pin, value),
{
    let (mode, output_type, speed, pull, af) = config;
    lemma_with_bit(regs.amsel, pin, mode == Mode::Analog, pin);
    lemma_with_bit(regs.den, pin, mode != Mode::Analog, pin);
    lemma_with_bit(regs.afsel, pin, mode == Mode::Alternate, pin);
    lemma_with_bit(regs.dir, pin, mode == Mode::Output, pin);
    lemma_with_bit(regs.dr2r, pin, true, pin);
    lemma_with_bit(regs.dr4r, pin, true, pin);
    lemma_with_bit(regs.dr8r, pin, true, pin);
    lemma_with_bit(regs.slr, pin, true, pin);
    lemma_with_nibble(regs.pctl, pin, af.code() as u32, pin);
    lemma_with_bit(regs.odr, pin, output_type == OutputType::OpenDrain, pin);
    lemma_with_bit(regs.pur, pin, pull == Pull::Up, pin);
    lemma_with_bit(regs.pdr, pin, pull == Pull::Down, pin);
    lemma_with_bit(regs.data, pin, value == Value::One, pin);
}

/// Writes that are not made to a register leave its word as it was.
pub proof fn lemma_untouched_register(
    regs: RegisterBlock,
    writes: Seq<RegisterWrite>,
    register: Register,
)
    requires
        forall|i: int| 0 <= i < writes.len() ==> (#[trigger] writes[i]).register != register,
    ensures
        applied_all(regs, writes).word(register) == regs.word(register),
    decreases writes.len(),
{
    if writes.len() > 0 {
        let rest = writes.drop_first();
        assert forall|i: int| 0 <= i < rest.len() implies (#[trigger] rest[i]).register
            != register by {
            assert(rest[i] == writes[i + 1]);
        }
        assert(writes[0].register != register);
        lemma_untouched_register(applied(regs, writes[0]), rest, register);
    }
}

/// While a pin is configured it is never analog and digital at once, if it
/// was not before: not after any of the writes, nor after all of them.
#[verifier::rlimit(40)]
pub proof fn lemma_never_analog_and_digital(
    regs: RegisterBlock,
    pin: u8,
    config: (Mode, OutputType, Speed, Pull, Alternate),
    made: int,
)
    requires
        pin < 8,
        !analog_and_digital(regs, pin),
        0 <= made <= configure_writes(pin, config).len(),
    ensures
        !analog_and_digital(applied_all(regs, configure_writes(pin, config).take(made)), pin),
{
    let (mode, output_type, speed, pull, af) = config;
    let analog = mode == Mode::Analog;
    let writes = configure_writes(pin, config);
    let kind = mode_writes(pin, mode);
    assert(kind.len() == 4);
    assert(writes[0] == kind[0] && writes[1] == kind[1]);
    lemma_written(regs.amsel, Register::Amsel, pin, analog, 0);
    lemma_written(regs.den, Register::Den, pin, !analog, 0);
    lemma_with_bit(regs.amsel, pin, analog, pin);
    lemma_with_bit(regs.den, pin, !analog, pin);
    if made == 0 {
        assert(writes.take(0) =~= Seq::<RegisterWrite>::empty());
    } else if made == 1 {
        assert(writes.take(1) =~= seq![writes[0]]);
        reveal_with_fuel(applied_all, 2);
    } else {
        let first = seq![writes[0], writes[1]];
        let later = writes.subrange(2, made);
        assert(writes.take(made) =~= first + later);
        lemma_applied_all_concat(regs, first, later);
        let after_first = applied_all(regs, first);
        assert(after_first.amsel == with_bit(regs.amsel, pin, analog) && after_first.den
            == with_bit(regs.den, pin, !analog)) by {
            reveal_with_fuel(applied_all, 3);
        }
        assert forall|i: int| 0 <= i < later.len() implies (#[trigger] later[i]).register
            != Register::Amsel && later[i].register != Register::Den by {
            assert(later[i] == writes[i + 2]);
        }
        lemma_untouched_register(after_first, later, Register::Amsel);
        lemma_untouched_register(after_first, later, Register::Den);
    }
}

/// While a pin is configured it is never pulled up and down at once, if it
/// was not before: not after any of the writes, nor after all of them.
#[verifier::rlimit(40)]
pub proof fn lemma_never_pulled_both_ways(
    regs: RegisterBlock,
    pin: u8,
    config: (Mode, OutputType, Speed, Pull, Alternate),
    made: int,
)
    requires
        pin < 8,
        !pulled_both_ways(regs, pin),
        0 <= made <= configure_writes(pin, config).len(),
    ensures
        !pulled_both_ways(applied_all(regs, configure_writes(pin, config).take(made)), pin),
{
    let (mode, output_type, speed, pull, af) = config;
    let writes = configure_writes(pin, config);
    let before = mode_writes(pin, mode) + drive_writes(pin, mode, speed) + function_writes(
        pin,
        mode,
        af,
    ) + seq![bit_write(Register::Odr, pin, output_type == OutputType::OpenDrain)];
    let clearing = if pull == Pull::Up {
        bit_write(Register::Pdr, pin, false)
    } else {
        bit_write(Register::Pur, pin, false)
    };
    let last = if pull == Pull::Up {
        bit_write(Register::Pur, pin, true)
    } else {
        bit_write(Register::Pdr, pin, pull == Pull::Down)
    };
    assert(writes =~= before + seq![clearing, last]);
    let count = before.len() as int;
    lemma_with_bit(regs.pur, pin, false, pin);
    lemma_with_bit(regs.pdr, pin, false, pin);
    lemma_with_bit(regs.pur, pin, pull == Pull::Up, pin);
    lemma_with_bit(regs.pdr, pin, pull == Pull::Down, pin);
    if made <= count {
        let made_writes = writes.take(made);
        assert forall|i: int| 0 <= i < made_writes.len() implies (#[trigger] made_writes[i]).register
            != Register::Pur && made_writes[i].register != Register::Pdr by {
            assert(made_writes[i] == before[i]);
        }
        lemma_untouched_register(regs, made_writes, Register::Pur);
        lemma_untouched_register(regs, made_writes, Register::Pdr);
    } else if made == count + 1 {
        assert(writes.take(made) =~= before + seq![clearing]);
        lemma_applied_all_concat(regs, before, seq![clearing]);
        assert forall|i: int| 0 <= i < before.len() implies (#[trigger] before[i]).register
            != Register::Pur && before[i].register != Register::Pdr by {}
        lemma_untouched_register(regs, before, Register::Pur);
        lemma_untouched_register(regs, before, Register::Pdr);
        let reached = applied_all(regs, before);
        assert(applied_all(reached, seq![clearing]) == applied(reached, clearing)) by {
            reveal_with_fuel(applied_all, 2);
        }
        lemma_written(regs.pur, Register::Pur, pin, false, 0);
        lemma_written(regs.pdr, Register::Pdr, pin, false, 0);
    } else {
        assert(writes.take(made) =~= writes);
        lemma_configure_writes(regs, pin, config);
    }
}

} // verus!

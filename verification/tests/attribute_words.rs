use tm4c123g_ipc::attributes::{Alternate, Mode, OutputType, Pull, Speed, Value};
use tm4c123g_ipc::gpio_api::Gpios;

const MODES: [Mode; 4] = [Mode::Input, Mode::Output, Mode::Alternate, Mode::Analog];
const OUTPUT_TYPES: [OutputType; 2] = [OutputType::PushPull, OutputType::OpenDrain];
const SPEEDS: [Speed; 4] = [Speed::Low, Speed::Medium, Speed::High, Speed::VeryHigh];
const PULLS: [Pull; 3] = [Pull::NoPull, Pull::Up, Pull::Down];
const ALTERNATES: [Alternate; 16] = [
    Alternate::AF0,
    Alternate::AF1,
    Alternate::AF2,
    Alternate::AF3,
    Alternate::AF4,
    Alternate::AF5,
    Alternate::AF6,
    Alternate::AF7,
    Alternate::AF8,
    Alternate::AF9,
    Alternate::AF10,
    Alternate::AF11,
    Alternate::AF12,
    Alternate::AF13,
    Alternate::AF14,
    Alternate::AF15,
];

#[test]
fn pack_attribute_places_each_field() {
    assert_eq!(
        Gpios::pack_attribute(
            Mode::Input,
            OutputType::PushPull,
            Speed::Low,
            Pull::NoPull,
            Alternate::AF0
        ),
        0
    );
    assert_eq!(
        Gpios::pack_attribute(
            Mode::Analog,
            OutputType::PushPull,
            Speed::Low,
            Pull::NoPull,
            Alternate::AF0
        ),
        0b11
    );
    assert_eq!(
        Gpios::pack_attribute(
            Mode::Input,
            OutputType::OpenDrain,
            Speed::Low,
            Pull::NoPull,
            Alternate::AF0
        ),
        0b100
    );
    assert_eq!(
        Gpios::pack_attribute(
            Mode::Input,
            OutputType::PushPull,
            Speed::VeryHigh,
            Pull::NoPull,
            Alternate::AF0
        ),
        0b11000
    );
    assert_eq!(
        Gpios::pack_attribute(
            Mode::Input,
            OutputType::PushPull,
            Speed::Low,
            Pull::Down,
            Alternate::AF0
        ),
        0b100_0000
    );
    assert_eq!(
        Gpios::pack_attribute(
            Mode::Input,
            OutputType::PushPull,
            Speed::Low,
            Pull::NoPull,
            Alternate::AF15
        ),
        0b111_1000_0000
    );
}

#[test]
fn pack_attribute_of_whole_configurations() {
    assert_eq!(
        Gpios::pack_attribute(
            Mode::Output,
            OutputType::PushPull,
            Speed::High,
            Pull::NoPull,
            Alternate::AF0
        ),
        0x011
    );
    assert_eq!(
        Gpios::pack_attribute(
            Mode::Alternate,
            OutputType::OpenDrain,
            Speed::VeryHigh,
            Pull::Down,
            Alternate::AF15
        ),
        0x7DE
    );
    assert_eq!(
        Gpios::pack_attribute(
            Mode::Output,
            OutputType::OpenDrain,
            Speed::High,
            Pull::Up,
            Alternate::AF1
        ),
        0x0B5
    );
}

#[test]
fn unpack_attribute_reverses_pack_attribute() {
    let mut count = 0;
    for mode in MODES {
        for output_type in OUTPUT_TYPES {
            for speed in SPEEDS {
                for pull in PULLS {
                    for af in ALTERNATES {
                        let word = Gpios::pack_attribute(mode, output_type, speed, pull, af);
                        assert!(word < 0x800);
                        assert_eq!(
                            Gpios::unpack_attribute(word),
                            (mode, output_type, speed, pull, af)
                        );
                        assert_eq!(
                            Gpios::try_unpack_attribute(word),
                            Some((mode, output_type, speed, pull, af))
                        );
                        count += 1;
                    }
                }
            }
        }
    }
    assert_eq!(count, 1536);
}

#[test]
fn unpack_attribute_of_a_given_word() {
    assert_eq!(
        Gpios::unpack_attribute(0x0B5),
        (Mode::Output, OutputType::OpenDrain, Speed::High, Pull::Up, Alternate::AF1)
    );
    assert_eq!(
        Gpios::unpack_attribute(0),
        (Mode::Input, OutputType::PushPull, Speed::Low, Pull::NoPull, Alternate::AF0)
    );
}

#[test]
fn pull_field_of_three_stands_for_nothing() {
    assert_eq!(Gpios::try_unpack_attribute(0x060), None);
    assert_eq!(Gpios::try_unpack_attribute(0x7FF), None);
    assert_eq!(Gpios::try_unpack_attribute(0xFFFF), None);
    let mut invalid = 0;
    for word in 0u16..=0xFFFF {
        let pull_field = (word >> 5) & 0x3;
        assert_eq!(Gpios::try_unpack_attribute(word).is_none(), pull_field == 3);
        if pull_field == 3 {
            invalid += 1;
        }
    }
    assert_eq!(invalid, 0x4000);
}

#[test]
fn reserved_bits_are_ignored_on_unpack() {
    assert_eq!(Gpios::try_unpack_attribute(0xF811), Gpios::try_unpack_attribute(0x0011));
    assert_eq!(
        Gpios::unpack_attribute(0x8000),
        (Mode::Input, OutputType::PushPull, Speed::Low, Pull::NoPull, Alternate::AF0)
    );
    for word in 0u16..0x800 {
        assert_eq!(
            Gpios::try_unpack_attribute(word | 0xA800),
            Gpios::try_unpack_attribute(word)
        );
    }
}

#[test]
fn field_codes_read_back() {
    for (code, mode) in MODES.iter().enumerate() {
        assert_eq!(usize::from(mode.to_u16()), code);
        assert_eq!(Mode::from_u16(mode.to_u16()), Some(*mode));
    }
    for (code, output_type) in OUTPUT_TYPES.iter().enumerate() {
        assert_eq!(usize::from(output_type.to_u16()), code);
        assert_eq!(OutputType::from_u16(output_type.to_u16()), Some(*output_type));
    }
    for (code, speed) in SPEEDS.iter().enumerate() {
        assert_eq!(usize::from(speed.to_u16()), code);
        assert_eq!(Speed::from_u16(speed.to_u16()), Some(*speed));
    }
    for (code, pull) in PULLS.iter().enumerate() {
        assert_eq!(usize::from(pull.to_u16()), code);
        assert_eq!(Pull::from_u16(pull.to_u16()), Some(*pull));
    }
    for (code, af) in ALTERNATES.iter().enumerate() {
        assert_eq!(usize::from(af.to_u16()), code);
        assert_eq!(Alternate::from_u16(af.to_u16()), Some(*af));
    }
    assert_eq!(Mode::from_u16(4), None);
    assert_eq!(OutputType::from_u16(2), None);
    assert_eq!(Speed::from_u16(4), None);
    assert_eq!(Pull::from_u16(3), None);
    assert_eq!(Alternate::from_u16(16), None);
    assert_eq!(Value::Zero.to_u8(), 0);
    assert_eq!(Value::One.to_u8(), 1);
    assert_eq!(Value::from_u8(0), Some(Value::Zero));
    assert_eq!(Value::from_u8(1), Some(Value::One));
    assert_eq!(Value::from_u8(2), None);
}

use tm4c123g_ipc::peripheral::Peripheral;
use tm4c123g_ipc::pin::Pin;

#[test]
fn pin_unpack_recovers_port_and_number() {
    for port in 0u8..6 {
        for number in 0u8..8 {
            let pin = Pin::encode(port, number).unwrap();
            assert_eq!(pin.unpack(), (port, number));
        }
    }
}

#[test]
fn pin_encode_names_the_expected_pins() {
    assert_eq!(Pin::encode(0, 0), Some(Pin::GPIOA_0));
    assert_eq!(Pin::encode(1, 3), Some(Pin::GPIOB_3));
    assert_eq!(Pin::encode(2, 7), Some(Pin::GPIOC_7));
    assert_eq!(Pin::encode(3, 1), Some(Pin::GPIOD_1));
    assert_eq!(Pin::encode(4, 4), Some(Pin::GPIOE_4));
    assert_eq!(Pin::encode(5, 7), Some(Pin::GPIOF_7));
}

#[test]
fn pin_encode_refuses_what_is_no_pin() {
    assert_eq!(Pin::encode(6, 0), None);
    assert_eq!(Pin::encode(0, 8), None);
    assert_eq!(Pin::encode(255, 255), None);
}

#[test]
fn pin_bytes_hold_port_high_and_number_low() {
    assert_eq!(Pin::GPIOA_0.to_u8(), 0x00);
    assert_eq!(Pin::GPIOA_7.to_u8(), 0x07);
    assert_eq!(Pin::GPIOB_0.to_u8(), 0x10);
    assert_eq!(Pin::GPIOB_3.to_u8(), 0x13);
    assert_eq!(Pin::GPIOC_5.to_u8(), 0x25);
    assert_eq!(Pin::GPIOD_2.to_u8(), 0x32);
    assert_eq!(Pin::GPIOE_6.to_u8(), 0x46);
    assert_eq!(Pin::GPIOF_7.to_u8(), 0x57);
}

#[test]
fn pin_bytes_are_distinct_and_read_back() {
    let mut seen = [false; 256];
    let mut count = 0;
    for raw in 0u8..=255 {
        match Pin::from_u8(raw) {
            Some(pin) => {
                assert_eq!(pin.to_u8(), raw);
                assert_eq!(pin.unpack(), (raw >> 4, raw & 0x7));
                assert!(!seen[usize::from(raw)]);
                seen[usize::from(raw)] = true;
                count += 1;
            }
            None => assert!(raw >= 96 || raw & 0x8 != 0),
        }
    }
    assert_eq!(count, 48);
}

#[test]
fn unpack_of_a_pin_of_every_port() {
    assert_eq!(Pin::GPIOA_5.unpack(), (0, 5));
    assert_eq!(Pin::GPIOB_0.unpack(), (1, 0));
    assert_eq!(Pin::GPIOC_7.unpack(), (2, 7));
    assert_eq!(Pin::GPIOD_3.unpack(), (3, 3));
    assert_eq!(Pin::GPIOE_1.unpack(), (4, 1));
    assert_eq!(Pin::GPIOF_4.unpack(), (5, 4));
}

#[test]
fn peripheral_numbers_hold_offset_high_and_bit_low() {
    assert_eq!(Peripheral::Watchdog0.to_u32(), 0x0000_0000);
    assert_eq!(Peripheral::Watchdog1.to_u32(), 0x0000_0001);
    assert_eq!(Peripheral::Timer5.to_u32(), 0x0004_0005);
    assert_eq!(Peripheral::GpioA.to_u32(), 0x0008_0000);
    assert_eq!(Peripheral::GpioF.to_u32(), 0x0008_0005);
    assert_eq!(Peripheral::Dma.to_u32(), 0x000C_0000);
    assert_eq!(Peripheral::Hib.to_u32(), 0x0014_0000);
    assert_eq!(Peripheral::Uart7.to_u32(), 0x0018_0007);
    assert_eq!(Peripheral::Ssi3.to_u32(), 0x001C_0003);
    assert_eq!(Peripheral::I2C2.to_u32(), 0x0020_0002);
    assert_eq!(Peripheral::Usb.to_u32(), 0x0028_0000);
    assert_eq!(Peripheral::Can1.to_u32(), 0x0034_0001);
    assert_eq!(Peripheral::Adc1.to_u32(), 0x0038_0001);
    assert_eq!(Peripheral::Pwm1.to_u32(), 0x0040_0001);
    assert_eq!(Peripheral::Qei0.to_u32(), 0x0044_0000);
    assert_eq!(Peripheral::Eeprom.to_u32(), 0x0058_0000);
    assert_eq!(Peripheral::WideTimer5.to_u32(), 0x005C_0005);
}

#[test]
fn peripheral_offsets_of_the_three_banks() {
    let uart = Peripheral::Uart3;
    assert_eq!(uart.as_bit(), 3);
    assert_eq!(uart.as_offset(), 0x18);
    assert_eq!(uart.as_sr_offset(), 0x518);
    assert_eq!(uart.as_rcgc_offset(), 0x618);
    assert_eq!(uart.as_pr_offset(), 0xA18);

    let timer = Peripheral::WideTimer4;
    assert_eq!(timer.as_bit(), 4);
    assert_eq!(timer.as_offset(), 0x5C);
    assert_eq!(timer.as_sr_offset(), 0x55C);
    assert_eq!(timer.as_rcgc_offset(), 0x65C);
    assert_eq!(timer.as_pr_offset(), 0xA5C);
}

#[test]
fn peripheral_unpack_recovers_offset_and_bit() {
    let mut count = 0;
    let mut offset = 0u32;
    while offset <= 0x60 {
        for bit in 0u32..9 {
            match Peripheral::encode(offset, bit) {
                Some(peripheral) => {
                    assert_eq!(peripheral.as_offset(), offset);
                    assert_eq!(peripheral.as_bit(), bit);
                    assert_eq!(peripheral.to_u32(), (offset << 16) | bit);
                    assert_eq!(Peripheral::from_u32((offset << 16) | bit), Some(peripheral));
                    count += 1;
                }
                None => assert_eq!(Peripheral::from_u32((offset << 16) | bit), None),
            }
        }
        offset += 1;
    }
    assert_eq!(count, 49);
}

#[test]
fn peripheral_encode_refuses_what_is_no_peripheral() {
    assert_eq!(Peripheral::encode(0x00, 2), None);
    assert_eq!(Peripheral::encode(0x08, 6), None);
    assert_eq!(Peripheral::encode(0x10, 0), None);
    assert_eq!(Peripheral::encode(0x09, 0), None);
    assert_eq!(Peripheral::from_u32(0x0008_0006), None);
    assert_eq!(Peripheral::from_u32(0xFFFF_FFFF), None);
}

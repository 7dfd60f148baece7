use lpm013m126::header::{CommandHeader, Mode};

fn encode(mode: Mode, gate_line: u16) -> [u8; 2] {
    CommandHeader { mode, gate_line }.encode()
}

#[test]
fn mode_codes() {
    assert_eq!(Mode::AllClear.bits(), 0b001000);
    assert_eq!(Mode::Input1Bit.bits(), 0b100010);
    assert_eq!(Mode::Input4Bit.bits(), 0b100100);
    assert_eq!(Mode::NoUpdate.bits(), 0b101000);
}

#[test]
fn header_is_high_byte_first() {
    assert_eq!(encode(Mode::AllClear, 0), [0x20, 0x00]);
    assert_eq!(encode(Mode::NoUpdate, 0), [0xa0, 0x00]);
    assert_eq!(encode(Mode::Input1Bit, 0), [0x88, 0x00]);
    assert_eq!(encode(Mode::Input4Bit, 1), [0x90, 0x01]);
    assert_eq!(encode(Mode::Input4Bit, 176), [0x90, 0xb0]);
    assert_eq!(encode(Mode::Input4Bit, 0x3ff), [0x93, 0xff]);
}

#[test]
fn address_is_cut_to_ten_bits() {
    assert_eq!(encode(Mode::Input4Bit, 1024 + 5), encode(Mode::Input4Bit, 5));
    assert_eq!(encode(Mode::AllClear, 0xffff), [0x23, 0xff]);
}

#[test]
fn header_gives_mode_and_address_back() {
    for mode in [Mode::AllClear, Mode::Input1Bit, Mode::Input4Bit, Mode::NoUpdate] {
        for line in 0u16..1024 {
            let bytes = encode(mode, line);
            assert_eq!((bytes[0] / 4) as u16, mode.bits());
            assert_eq!((bytes[0] % 4) as u16 * 256 + bytes[1] as u16, line);
        }
    }
}

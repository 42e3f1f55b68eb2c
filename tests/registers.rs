use emulator8086::error::EmuError;
use emulator8086::registers::Registers;

#[test]
fn word_selectors_follow_encoding() {
    let mut r = Registers::initialize();
    for sel in 0u8..8 {
        r.write_register_by_index(sel, 0x1000 + sel as u16).unwrap();
    }
    assert_eq!(r.ax, 0x1000);
    assert_eq!(r.cx, 0x1001);
    assert_eq!(r.dx, 0x1002);
    assert_eq!(r.bx, 0x1003);
    assert_eq!(r.sp, 0x1004);
    assert_eq!(r.bp, 0x1005);
    assert_eq!(r.si, 0x1006);
    assert_eq!(r.di, 0x1007);
    for sel in 0u8..8 {
        assert_eq!(r.get_register_by_index(sel), Ok(0x1000 + sel as u16));
    }
}

#[test]
fn byte_selectors_follow_encoding() {
    let mut r = Registers::initialize();
    r.ax = 0x1122;
    r.cx = 0x3344;
    r.dx = 0x5566;
    r.bx = 0x7788;
    let expected: [u8; 8] = [0x22, 0x44, 0x66, 0x88, 0x11, 0x33, 0x55, 0x77];
    for sel in 0u8..8 {
        assert_eq!(r.get_register_by_index_byte(sel), Ok(expected[sel as usize]));
    }
}

#[test]
fn byte_writes_keep_the_other_half() {
    let mut r = Registers::initialize();
    for v in [0x00u8, 0x5A, 0xFF] {
        r.ax = 0xA55A;
        r.write_register_by_index_byte(0, v).unwrap();
        assert_eq!(r.get_high_byte(r.ax), 0xA5);
        assert_eq!(r.get_low_byte(r.ax), v);
        r.write_register_by_index_byte(4, v).unwrap();
        assert_eq!(r.ax, (v as u16) << 8 | v as u16);
    }
    r.bx = 0x1234;
    r.write_register_by_index_byte(7, 0xEE).unwrap();
    assert_eq!(r.bx, 0xEE34);
    assert_eq!(r.ax, 0xFFFF);
}

#[test]
fn half_helpers() {
    let r = Registers::initialize();
    assert_eq!(r.get_high_byte(0xABCD), 0xAB);
    assert_eq!(r.get_low_byte(0xABCD), 0xCD);
    assert_eq!(r.write_high_byte(0xABCD, 0x12), 0x12CD);
    assert_eq!(r.write_low_byte(0xABCD, 0x12), 0xAB12);
}

#[test]
fn invalid_selectors_are_errors() {
    let mut r = Registers::initialize();
    let before = r;
    assert_eq!(r.get_register_by_index(8), Err(EmuError::InvalidSelector { selector: 8 }));
    assert_eq!(r.get_register_by_index_byte(9), Err(EmuError::InvalidSelector { selector: 9 }));
    assert_eq!(r.write_register_by_index(0xFF, 1), Err(EmuError::InvalidSelector { selector: 0xFF }));
    assert_eq!(r.write_register_by_index_byte(8, 1), Err(EmuError::InvalidSelector { selector: 8 }));
    assert_eq!(r.get_base_address_from_code(8), Err(EmuError::InvalidSelector { selector: 8 }));
    assert_eq!(r, before);
}

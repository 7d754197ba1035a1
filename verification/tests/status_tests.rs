use nes_core::status::CpuStatusFlags;
use nes_core::status::{get_status_flag, set_status_flag, StatusFlag};

#[test]
fn test_status_from() {
    let status = CpuStatusFlags::from_bits(0b1101_0110);
    assert!(
        status
            == CpuStatusFlags {
                carry: false,
                zero: true,
                interrupt_disable: true,
                decimal_mode: false,
                break_command: true,
                unused: false,
                overflow: true,
                negative: true
            }
    )
}

#[test]
fn test_status_info() {
    let status = CpuStatusFlags {
        carry: false,
        zero: true,
        interrupt_disable: true,
        decimal_mode: false,
        break_command: true,
        unused: false,
        overflow: true,
        negative: true,
    };
    let status_bits: u8 = status.to_bits();
    assert_eq!(status_bits, 0b1101_0110)
}

#[test]
fn test_status_round_trip() {
    for v in 0..=255u8 {
        assert_eq!(CpuStatusFlags::from_bits(v).to_bits(), v);
    }
}

#[test]
fn test_status_flag_helpers() {
    let s = set_status_flag(0, StatusFlag::Carry, true);
    assert_eq!(s, 0x01);
    let s = set_status_flag(s, StatusFlag::Negative, true);
    assert_eq!(s, 0x81);
    assert!(get_status_flag(s, StatusFlag::Carry));
    assert!(get_status_flag(s, StatusFlag::Negative));
    assert!(!get_status_flag(s, StatusFlag::Zero));
    let s = set_status_flag(s, StatusFlag::Carry, false);
    assert_eq!(s, 0x80);
}

use chip8::bit::Bit;

#[test]
fn test_u8_bit() {
    assert_eq!(0xA5u8.bit(0), true);
    assert_eq!(0xA5u8.bit(1), false);
    assert_eq!(0xA5u8.bit(2), true);
    assert_eq!(0xA5u8.bit(3), false);
    assert_eq!(0xA5u8.bit(4), false);
    assert_eq!(0xA5u8.bit(5), true);
    assert_eq!(0xA5u8.bit(6), false);
    assert_eq!(0xA5u8.bit(7), true);
}

#[test]
fn bit_of_zero_and_of_all_ones() {
    for idx in 0..8 {
        assert_eq!(0x00u8.bit(idx), false);
        assert_eq!(0xFFu8.bit(idx), true);
    }
}

#[test]
fn bit_picks_exactly_one_position() {
    for set in 0..8usize {
        let value: u8 = 1 << set;
        for idx in 0..8usize {
            assert_eq!(value.bit(idx), idx == set);
        }
    }
}

#[test]
fn bits_add_up_to_the_byte() {
    for value in 0..=255u8 {
        let mut sum: u32 = 0;
        for idx in 0..8usize {
            if value.bit(idx) {
                sum += 1 << idx;
            }
        }
        assert_eq!(sum, value as u32);
    }
}

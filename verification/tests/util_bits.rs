use rs_6502::util::{from_twos_complement_bits, get_bit, high_byte, low_byte, make_word, set_bit,
    toggle_bit};

#[test]
fn test_set_bit() {
    let value = 0b00010000;

    assert_eq!(set_bit(value, 4, true), value);

    assert_eq!(set_bit(value, 4, false), 0u8);

    assert_eq!(set_bit(value, 4, false), 0u8);

    assert_eq!(set_bit(value, 4, true), value);
}

#[test]
fn set_bit_changes_only_the_named_bit() {
    for value in 0u8..=255 {
        for index in 0u8..8 {
            for bit in [false, true] {
                let updated = set_bit(value, index, bit);
                for other in 0u8..8 {
                    let expected = if other == index { bit } else { get_bit(value, other) };
                    assert_eq!(get_bit(updated, other), expected);
                }
            }
        }
    }
}

#[test]
fn toggle_bit_inverts_the_named_bit() {
    assert_eq!(toggle_bit(0b0000_0000, 0), 0b0000_0001);
    assert_eq!(toggle_bit(0b1000_0001, 7), 0b0000_0001);
    assert_eq!(toggle_bit(toggle_bit(0x5A, 3), 3), 0x5A);
}

#[test]
fn get_bit_reads_each_position() {
    assert!(get_bit(0b0010_0000, 5));
    assert!(!get_bit(0b0010_0000, 4));
    assert!(get_bit(0xFF, 7));
    assert!(!get_bit(0x7F, 7));
}

#[test]
fn twos_complement_offsets() {
    assert_eq!(from_twos_complement_bits(0x00), 0);
    assert_eq!(from_twos_complement_bits(0x7F), 127);
    assert_eq!(from_twos_complement_bits(0x80), -128);
    assert_eq!(from_twos_complement_bits(0xFF), -1);
    assert_eq!(from_twos_complement_bits(0xFB), -5);
}

#[test]
fn words_are_little_endian() {
    assert_eq!(make_word(0xCD, 0xAB), 0xABCD);
    assert_eq!(low_byte(0xABCD), 0xCD);
    assert_eq!(high_byte(0xABCD), 0xAB);
    assert_eq!(make_word(low_byte(0x1234), high_byte(0x1234)), 0x1234);
}

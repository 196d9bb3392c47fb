use nes_cpu::bit::Bit;

#[test]
fn method_get() {
    let number = 0b1010_1001_u8;

    assert!(number.get_bit(0));
    assert!(!number.get_bit(1));
    assert!(!number.get_bit(2));
    assert!(number.get_bit(3));
    assert!(!number.get_bit(4));
    assert!(number.get_bit(5));
    assert!(!number.get_bit(6));
    assert!(number.get_bit(7));
}

#[test]
fn method_set() {
    let mut number = 0b000_1110_u8;

    number.set_bit(0, true);
    number.set_bit(1, false);
    number.set_bit(2, true);
    number.set_bit(3, false);
    number.set_bit(4, true);
    number.set_bit(5, false);
    number.set_bit(6, false);
    number.set_bit(7, true);

    assert_eq!(number, 0b1001_0101);
}

#[test]
fn set_bit_changes_only_the_named_bit() {
    for value in 0..=255u8 {
        for position in 0..8u8 {
            for bit in [false, true] {
                let mut changed = value;
                changed.set_bit(position, bit);
                for other in 0..8u8 {
                    let expected = if other == position { bit } else { value.get_bit(other) };
                    assert_eq!(changed.get_bit(other), expected);
                }
            }
        }
    }
}

#[test]
fn set_bit_is_idempotent() {
    let mut number = 0b0101_0101_u8;
    number.set_bit(1, true);
    assert_eq!(number, 0b0101_0111);
    number.set_bit(1, true);
    assert_eq!(number, 0b0101_0111);
    number.set_bit(0, false);
    assert_eq!(number, 0b0101_0110);
    number.set_bit(0, false);
    assert_eq!(number, 0b0101_0110);
}

#[test]
fn get_bit_reads_each_power_of_two() {
    for position in 0..8u8 {
        let number = 1u8 << position;
        for probe in 0..8u8 {
            assert_eq!(number.get_bit(probe), probe == position);
        }
    }
}

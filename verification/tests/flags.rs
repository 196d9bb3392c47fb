use nes_cpu::cpu::flags::{Flag, Flags, RESET_STATUS};

fn all_flags() -> [Flag; 7] {
    [
        Flag::Carry,
        Flag::Zero,
        Flag::InterruptDisable,
        Flag::Decimal,
        Flag::Break,
        Flag::Overflow,
        Flag::Negative,
    ]
}

#[test]
fn default_flags_have_break_and_bit_five_set() {
    let flags = Flags::default();
    assert_eq!(flags.raw(), 0b0011_0000);
    assert_eq!(RESET_STATUS, 0b0011_0000);
    assert!(flags.brk());
    assert!(!flags.negative());
    assert!(!flags.overflow());
    assert!(!flags.decimal());
    assert!(!flags.interrupt_disable());
    assert!(!flags.zero());
    assert!(!flags.carry());
}

#[test]
fn flag_positions_follow_the_status_byte_layout() {
    assert_eq!(Flag::Carry.position(), 0);
    assert_eq!(Flag::Zero.position(), 1);
    assert_eq!(Flag::InterruptDisable.position(), 2);
    assert_eq!(Flag::Decimal.position(), 3);
    assert_eq!(Flag::Break.position(), 4);
    assert_eq!(Flag::Overflow.position(), 6);
    assert_eq!(Flag::Negative.position(), 7);
}

#[test]
fn each_setter_sets_its_own_bit() {
    let mut flags = Flags::default();
    flags.set_brk(false);
    assert_eq!(flags.raw(), 0b0010_0000);

    flags.set_carry(true);
    assert_eq!(flags.raw(), 0b0010_0001);
    flags.set_zero(true);
    assert_eq!(flags.raw(), 0b0010_0011);
    flags.set_interrupt_disable(true);
    assert_eq!(flags.raw(), 0b0010_0111);
    flags.set_decimal(true);
    assert_eq!(flags.raw(), 0b0010_1111);
    flags.set_brk(true);
    assert_eq!(flags.raw(), 0b0011_1111);
    flags.set_overflow(true);
    assert_eq!(flags.raw(), 0b0111_1111);
    flags.set_negative(true);
    assert_eq!(flags.raw(), 0b1111_1111);

    flags.set_carry(false);
    assert_eq!(flags.raw(), 0b1111_1110);
    flags.set_zero(false);
    assert_eq!(flags.raw(), 0b1111_1100);
    flags.set_interrupt_disable(false);
    assert_eq!(flags.raw(), 0b1111_1000);
    flags.set_decimal(false);
    assert_eq!(flags.raw(), 0b1111_0000);
    flags.set_brk(false);
    assert_eq!(flags.raw(), 0b1110_0000);
    flags.set_overflow(false);
    assert_eq!(flags.raw(), 0b1010_0000);
    flags.set_negative(false);
    assert_eq!(flags.raw(), 0b0010_0000);
}

#[test]
fn each_getter_reads_its_own_bit() {
    let mut flags = Flags::default();
    flags.set_brk(false);

    flags.set_negative(true);
    assert!(flags.negative());
    flags.set_negative(false);

    flags.set_overflow(true);
    assert!(flags.overflow());
    assert!(!flags.negative());
    flags.set_overflow(false);

    flags.set_brk(true);
    assert!(flags.brk());
    assert!(!flags.overflow());
    flags.set_brk(false);

    flags.set_decimal(true);
    assert!(flags.decimal());
    assert!(!flags.brk());
    flags.set_decimal(false);

    flags.set_interrupt_disable(true);
    assert!(flags.interrupt_disable());
    assert!(!flags.decimal());
    flags.set_interrupt_disable(false);

    flags.set_zero(true);
    assert!(flags.zero());
    assert!(!flags.interrupt_disable());
    flags.set_zero(false);

    flags.set_carry(true);
    assert!(flags.carry());
    assert!(!flags.zero());
}

#[test]
fn get_and_set_by_name_agree_with_the_accessors() {
    let mut flags = Flags::default();
    flags.set(Flag::Negative, true);
    assert!(flags.negative());
    assert!(flags.get(Flag::Negative));
    flags.set(Flag::Zero, true);
    assert!(flags.zero());
    flags.set(Flag::Break, false);
    assert!(!flags.brk());
    assert!(!flags.get(Flag::Break));
    assert_eq!(flags.raw(), 0b1010_0010);
}

#[test]
fn flags_are_independent() {
    for changed in all_flags() {
        for value in [false, true] {
            for start in [0b0010_0000u8, 0b1111_1111u8, 0b0011_0000u8, 0b1010_0101u8] {
                let mut flags = Flags::default();
                for flag in all_flags() {
                    flags.set(flag, start & (1 << flag.position()) != 0);
                }
                let before: Vec<bool> = all_flags().iter().map(|flag| flags.get(*flag)).collect();
                flags.set(changed, value);
                for (index, flag) in all_flags().iter().enumerate() {
                    let expected = if *flag == changed { value } else { before[index] };
                    assert_eq!(flags.get(*flag), expected);
                }
                assert_eq!(flags.raw() & 0b0010_0000, 0b0010_0000);
            }
        }
    }
}

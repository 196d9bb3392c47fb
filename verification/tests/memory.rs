use nes_cpu::memory::{Memory, MEMORY_SIZE};

#[test]
fn memory_covers_the_whole_address_space() {
    assert_eq!(MEMORY_SIZE, 65536);
}

#[test]
fn default_memory_is_zeroed() {
    let memory = Memory::default();
    for addr in 0..MEMORY_SIZE {
        assert_eq!(memory.read(addr), 0);
    }
}

#[test]
fn write_then_read_returns_the_byte() {
    let mut memory = Memory::default();
    memory.write(0x1234, 0xAB);
    assert_eq!(memory.read(0x1234), 0xAB);
    assert_eq!(memory.read(0x1233), 0x00);
    assert_eq!(memory.read(0x1235), 0x00);
}

#[test]
fn first_and_last_address_are_usable() {
    let mut memory = Memory::default();
    memory.write(0x0000, 0x11);
    memory.write(0xFFFF, 0x22);
    assert_eq!(memory.read(0x0000), 0x11);
    assert_eq!(memory.read(0xFFFF), 0x22);
}

#[test]
fn reads_do_not_change_memory() {
    let mut memory = Memory::default();
    memory.write(0x00FF, 0x7E);
    assert_eq!(memory.read(0x00FF), 0x7E);
    assert_eq!(memory.read(0x00FF), 0x7E);
}

#[test]
fn later_write_wins() {
    let mut memory = Memory::default();
    memory.write(0x4000, 0x01);
    memory.write(0x4000, 0x02);
    assert_eq!(memory.read(0x4000), 0x02);
}

#[test]
fn write_array_copies_the_block_and_nothing_else() {
    let mut memory = Memory::default();
    memory.write(0x0FFF, 0xEE);
    memory.write(0x1003, 0xDD);
    memory.write_array(0x1000, 0x1003, &[1, 2, 3]);
    assert_eq!(memory.read(0x0FFF), 0xEE);
    assert_eq!(memory.read(0x1000), 1);
    assert_eq!(memory.read(0x1001), 2);
    assert_eq!(memory.read(0x1002), 3);
    assert_eq!(memory.read(0x1003), 0xDD);
}

#[test]
fn write_array_overwrites_what_was_there() {
    let mut memory = Memory::default();
    memory.write_array(0x2000, 0x2004, &[9, 9, 9, 9]);
    memory.write_array(0x2001, 0x2003, &[5, 6]);
    assert_eq!(memory.read(0x2000), 9);
    assert_eq!(memory.read(0x2001), 5);
    assert_eq!(memory.read(0x2002), 6);
    assert_eq!(memory.read(0x2003), 9);
}

#[test]
fn write_array_of_nothing_changes_nothing() {
    let mut memory = Memory::default();
    memory.write(0x3000, 0x42);
    memory.write_array(0x3000, 0x3000, &[]);
    assert_eq!(memory.read(0x3000), 0x42);
}

#[test]
fn write_array_reaches_the_end_of_memory() {
    let mut memory = Memory::default();
    memory.write_array(0xFFFE, 0x1_0000, &[0xAA, 0xBB]);
    assert_eq!(memory.read(0xFFFD), 0x00);
    assert_eq!(memory.read(0xFFFE), 0xAA);
    assert_eq!(memory.read(0xFFFF), 0xBB);
}

#[test]
fn write_array_can_fill_the_whole_memory() {
    let mut memory = Memory::default();
    let block: Vec<u8> = (0..MEMORY_SIZE).map(|i| (i % 251) as u8).collect();
    memory.write_array(0, MEMORY_SIZE, &block);
    for addr in 0..MEMORY_SIZE {
        assert_eq!(memory.read(addr), (addr % 251) as u8);
    }
}

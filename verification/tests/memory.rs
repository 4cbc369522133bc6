use nes_core::memory::{copy_bytes, BankableMemory, MemRead, MemWrite, Memory};

#[test]
fn memory_wraps_addresses_modulo_capacity() {
    let mut m = Memory::ram(0x800);
    m.write(0x0805, 0x42);
    assert_eq!(m.read(0x0005), 0x42);
    assert_eq!(m.read(0x1805), 0x42);
    assert_eq!(m.read(0x0006), 0x00);
    assert_eq!(m.len(), 0x800);
}

#[test]
fn memory_empty_reads_zero_and_drops_writes() {
    let mut m = Memory::new();
    assert!(m.is_empty());
    m.write(3, 9);
    assert_eq!(m.read(3), 0);
    assert_eq!(m.len(), 0);
}

#[test]
fn memory_rom_is_write_protected() {
    let mut m = Memory::rom_from_bytes(&[1, 2, 3, 4]);
    assert!(!m.writable());
    m.write(1, 0xFF);
    assert_eq!(m.read(1), 2);
    m.write_protect(false);
    assert!(m.writable());
    m.write(1, 0xFF);
    assert_eq!(m.read(1), 0xFF);
    m.write_protect(true);
    m.write(1, 0x00);
    assert_eq!(m.read(5), 0xFF);
}

#[test]
fn memory_ram_from_bytes_holds_the_bytes() {
    let mut m = Memory::ram_from_bytes(&[7, 8, 9]);
    assert!(m.writable());
    assert_eq!(m.read(0), 7);
    assert_eq!(m.read(2), 9);
    assert_eq!(m.read(3), 7);
    assert_eq!(m.peek(4), 8);
}

#[test]
fn memory_clone_is_independent() {
    let mut a = Memory::ram(4);
    a.write(0, 1);
    let mut b = a.clone();
    b.write(0, 2);
    assert_eq!(a.read(0), 1);
    assert_eq!(b.read(0), 2);
}

#[test]
fn copy_bytes_copies() {
    assert_eq!(copy_bytes(&[1, 2, 3]), vec![1, 2, 3]);
    assert_eq!(copy_bytes(&[]), Vec::<u8>::new());
}

fn banked_fixture() -> BankableMemory {
    // Four banks of 4 bytes; bank n holds the bytes n*16 .. n*16+3.
    let bytes: Vec<u8> = vec![0, 1, 2, 3, 16, 17, 18, 19, 32, 33, 34, 35, 48, 49, 50, 51];
    BankableMemory::ram_from_bytes(&bytes, 4)
}

#[test]
fn bankable_without_windows_reads_zero() {
    let mut m = banked_fixture();
    assert_eq!(m.read(0), 0);
    assert_eq!(m.read(100), 0);
    m.write(0, 9);
    assert_eq!(m.len(), 16);
    assert_eq!(m.last_bank(), 3);
}

#[test]
fn bankable_windows_show_banks_in_order() {
    let mut m = banked_fixture();
    m.add_bank_range(0x100, 0x108);
    assert_eq!(m.banks.len(), 2);
    assert_eq!(m.read(0x100), 0);
    assert_eq!(m.read(0x103), 3);
    assert_eq!(m.read(0x104), 16);
    assert_eq!(m.read(0x107), 19);
    assert_eq!(m.read(0x108), 0);
    assert_eq!(m.read(0x0FF), 0);
}

#[test]
fn bankable_set_bank_redirects_a_window() {
    let mut m = banked_fixture();
    m.add_bank_range(0x100, 0x108);
    m.set_bank(0x104, 3);
    assert_eq!(m.read(0x104), 48);
    assert_eq!(m.read(0x100), 0);
    // The bank number wraps modulo the number of banks.
    m.set_bank(0x100, 6);
    assert_eq!(m.read(0x101), 33);
    // No window starts at 0x102: nothing happens.
    m.set_bank(0x102, 1);
    assert_eq!(m.read(0x102), 34);
}

#[test]
fn bankable_writes_go_through_the_window() {
    let mut m = banked_fixture();
    m.add_bank_range(0x100, 0x104);
    m.set_bank(0x100, 2);
    m.write(0x101, 0xAA);
    assert_eq!(m.read(0x101), 0xAA);
    assert_eq!(m.data[9], 0xAA);
    m.set_bank(0x100, 0);
    assert_eq!(m.read(0x101), 1);
}

#[test]
fn bankable_rom_drops_writes() {
    let mut m = BankableMemory::rom_from_bytes(&[5, 6, 7, 8], 4);
    m.add_bank_range(0, 4);
    m.write(1, 0xEE);
    assert_eq!(m.read(1), 6);
    assert!(!m.writable());
    m.write_protect(false);
    m.write(1, 0xEE);
    assert_eq!(m.read(1), 0xEE);
}

#[test]
fn bankable_empty_fails_silently() {
    let mut m = BankableMemory::ram(0, 4);
    assert!(m.is_empty());
    assert_eq!(m.last_bank(), 0);
    m.add_bank_range(0, 16);
    assert_eq!(m.banks.len(), 0);
    m.set_bank(0, 1);
    assert_eq!(m.read(0), 0);
    m.write(0, 1);
    assert_eq!(m.read(0), 0);
}

#[test]
fn bankable_capacity_rounding() {
    // The request grows by its remainder modulo the window.
    let m = BankableMemory::ram(6, 4);
    assert_eq!(m.len(), 8);
    assert_eq!(m.bank_count, 2);
    let m = BankableMemory::rom(8, 4);
    assert_eq!(m.len(), 8);
    assert_eq!(m.bank_count, 2);
    assert!(!m.writable());
    let m = BankableMemory::with_capacity(5, 4);
    assert_eq!(m.len(), 6);
    assert_eq!(m.bank_count, 1);
    let m = BankableMemory::with_capacity(5, 0);
    assert_eq!(m.len(), 5);
    assert_eq!(m.bank_count, 0);
}

#[test]
fn bankable_read_outside_the_backing_array_is_zero() {
    // 6 bytes under windows of 4: the count of banks is (6 + 2) / 4 = 2, but
    // the second bank has only two bytes behind it.
    let mut m = BankableMemory::ram_from_bytes(&[1, 2, 3, 4, 5, 6], 4);
    m.add_bank_range(0, 8);
    assert_eq!(m.read(5), 6);
    assert_eq!(m.read(6), 0);
    m.write(7, 9);
    assert_eq!(m.read(7), 0);
}

use datapath::memory::Memory;
use datapath::DatapathError;

#[test]
fn mem_test() {
    let mut x = Memory::default();

    x.rst_n.drive(0).unwrap();
    x.write_enable.drive(0).unwrap();
    x.address.drive(0).unwrap();
    x.write_data.drive(0).unwrap();

    x.update().unwrap();
    x.commit();
    x.rst_n.drive(1).unwrap();
    x.update().unwrap();
    x.commit();

    for entry in &x.mem {
        assert_eq!(entry.val(), 0);
    }

    // test writing data onto addresses
    let test: [(u32, u32); 4] = [
        (0, 0xdeadbeef),
        (4, 0xcafebabe),
        (8, 0x1badb002),
        (8, 0x1baaaaad),
    ];

    for (addr, val) in test {
        x.address.drive(addr).unwrap();
        x.write_data.drive(val).unwrap();
        x.write_enable.drive(1).unwrap();
        x.update().unwrap();
        x.commit();

        x.write_enable.drive(0).unwrap();
        x.address.drive(addr).unwrap();
        x.update().unwrap();
        x.commit();
        assert_eq!(x.read_data.val(), val);
    }
}

#[test]
fn mem_misaligned_write_is_ignored() {
    let mut x = Memory::default();
    x.rst_n.drive(1).unwrap();

    // an aligned write lands
    x.address.drive(4).unwrap();
    x.write_data.drive(0xcafebabe).unwrap();
    x.write_enable.drive(1).unwrap();
    x.update().unwrap();
    x.commit();
    assert_eq!(x.mem[1].val(), 0xcafebabe);

    // a misaligned write to the same word is silently dropped
    x.address.drive(6).unwrap();
    x.write_data.drive(0x123).unwrap();
    x.update().unwrap();
    x.commit();
    assert_eq!(x.mem[1].val(), 0xcafebabe);

    // the read port ignores the low bits, so the misaligned address still
    // shows the word it maps to
    x.write_enable.drive(0).unwrap();
    x.update().unwrap();
    x.commit();
    assert_eq!(x.read_data.val(), 0xcafebabe);
}

#[test]
fn mem_out_of_range_address_fails() {
    let mut x = Memory::default();
    x.rst_n.drive(1).unwrap();

    // 64 words of 4 bytes: byte address 256 is the first one out of range
    x.address.drive(256).unwrap();
    let r = x.update();
    assert_eq!(r, Err(DatapathError::AddressOutOfRange));

    // the last in-range word is fine
    x.address.drive(252).unwrap();
    assert!(x.update().is_ok());
}

#[test]
fn mem_reset_clears_all_words() {
    let mut x = Memory::default();
    x.rst_n.drive(1).unwrap();

    x.address.drive(12).unwrap();
    x.write_data.drive(55).unwrap();
    x.write_enable.drive(1).unwrap();
    x.update().unwrap();
    x.commit();
    assert_eq!(x.mem[3].val(), 55);

    // one cycle of reset clears every word
    x.rst_n.drive(0).unwrap();
    x.update().unwrap();
    x.commit();
    for entry in &x.mem {
        assert_eq!(entry.val(), 0);
    }
}

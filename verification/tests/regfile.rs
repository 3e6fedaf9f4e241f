use datapath::regfile::Regfile;

#[test]
fn reg_test() {
    let mut x = Regfile::default();

    x.rst_n.drive(0).unwrap();
    x.write_enable.drive(0).unwrap();
    x.address1.drive(0).unwrap();
    x.address2.drive(0).unwrap();
    x.address3.drive(0).unwrap();
    x.write_data.drive(0).unwrap();

    x.update();
    x.commit();
    x.rst_n.drive(1).unwrap();
    x.update();
    x.commit();

    for entry in &x.registers {
        assert_eq!(entry.val(), 0);
    }

    // a deterministic pseudo-random walk over registers 1..31
    let mut state: u64 = 0x853c49e68282b29b;
    for _ in 0..500 {
        let mut draw = |range: u32| -> u32 {
            state = state
                .wrapping_mul(6364136223846793005)
                .wrapping_add(1442695040888963407);
            ((state >> 33) as u32) % range
        };
        let addr1: u32 = 1 + draw(30);
        let addr2: u32 = 1 + draw(30);
        let addr3: u32 = 1 + draw(30);
        let write_val: u32 = draw(0xFFFFFFFF);

        // read test from random reg
        x.address1.drive(addr1).unwrap();
        x.address2.drive(addr2).unwrap();
        x.update();
        x.commit();

        assert_eq!(x.read_data1.val(), x.registers[addr1 as usize].val());
        assert_eq!(x.read_data2.val(), x.registers[addr2 as usize].val());

        // write test to random reg
        x.address3.drive(addr3).unwrap();
        x.update();
        x.commit();
        x.write_enable.drive(1).unwrap();
        x.write_data.drive(write_val).unwrap();
        x.update();
        x.commit();
        x.write_enable.drive(0).unwrap();

        assert_eq!(write_val, x.registers[addr3 as usize].val());
    }

    // zero reg test
    x.address3.drive(0).unwrap();
    x.update();
    x.commit();
    x.write_enable.drive(1).unwrap();
    x.write_data.drive(0xffff).unwrap();
    x.update();
    x.commit();
    x.write_enable.drive(0).unwrap();

    assert_eq!(0, x.registers[0].val());
}

#[test]
fn reg_write_visible_next_cycle() {
    let mut x = Regfile::default();
    x.rst_n.drive(1).unwrap();

    // the write commits on this edge ...
    x.write_enable.drive(1).unwrap();
    x.address3.drive(7).unwrap();
    x.write_data.drive(0x1234).unwrap();
    x.address1.drive(7).unwrap();
    x.update();
    x.commit();
    // ... but the read port showed the pre-edge storage
    assert_eq!(x.read_data1.val(), 0);

    // the cycle after the write, the read port shows the new word
    x.write_enable.drive(0).unwrap();
    x.update();
    x.commit();
    assert_eq!(x.read_data1.val(), 0x1234);
}

#[test]
fn reg_zero_always_reads_zero() {
    let mut x = Regfile::default();
    x.rst_n.drive(1).unwrap();

    // try hard to write register 0
    x.write_enable.drive(1).unwrap();
    x.address3.drive(0).unwrap();
    x.write_data.drive(0xdead).unwrap();
    x.address1.drive(0).unwrap();
    x.update();
    x.commit();
    x.update();
    x.commit();

    assert_eq!(x.registers[0].val(), 0);
    assert_eq!(x.read_data1.val(), 0);
}

#[test]
fn reg_reset_clears_all_registers() {
    let mut x = Regfile::default();
    x.rst_n.drive(1).unwrap();

    x.write_enable.drive(1).unwrap();
    x.address3.drive(31).unwrap();
    x.write_data.drive(500).unwrap();
    x.update();
    x.commit();
    assert_eq!(x.registers[31].val(), 500);

    // one cycle of reset clears every register
    x.rst_n.drive(0).unwrap();
    x.update();
    x.commit();
    for entry in &x.registers {
        assert_eq!(entry.val(), 0);
    }
}

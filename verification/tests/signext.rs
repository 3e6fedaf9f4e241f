use datapath::signext::SignExt;

#[test]
fn signext_test() {
    let mut x = SignExt::default();

    // imm test
    let mut imm: u32 = 100;
    imm <<= 13;

    let rand_junk: u32 = 0b000000000000_1111111111111;

    x.update();
    x.commit();
    x.raw.drive(imm | rand_junk).unwrap();
    x.imm_src.drive(0).unwrap();
    x.update();
    x.commit();

    assert_eq!(x.immediate.val(), 100);

    // neg imm
    let mut imm: u32 = 0b111110011100; // -100
    imm <<= 13;

    let rand_junk: u32 = 0b000000000000_1111111111111;

    x.update();
    x.commit();
    x.raw.drive(imm | rand_junk).unwrap();
    x.imm_src.drive(0).unwrap();
    x.update();
    x.commit();

    assert_eq!(x.immediate.val(), 0b11111111111111111111111110011100);
}

#[test]
fn signext_boundary_fields() {
    let mut x = SignExt::default();
    x.imm_src.drive(0).unwrap();

    // 0x7FF is the largest non-negative field: kept as is
    x.raw.drive(0x7FF << 13).unwrap();
    x.update();
    x.commit();
    assert_eq!(x.immediate.val(), 0x7FF);

    // 0x800 is the most negative field: -2048
    x.raw.drive(0x800 << 13).unwrap();
    x.update();
    x.commit();
    assert_eq!(x.immediate.val(), 0xFFFF_F800);
}

#[test]
fn signext_other_layouts_yield_zero() {
    let mut x = SignExt::default();

    // a fragment full of ones, but an unimplemented immediate layout
    x.raw.drive(0x1FF_FFFF).unwrap();
    x.imm_src.drive(0b01).unwrap();
    x.update();
    x.commit();
    assert_eq!(x.immediate.val(), 0);
}

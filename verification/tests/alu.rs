use datapath::alu::Alu;

#[test]
fn alu_test() {
    let mut x = Alu::default();

    // test sum
    x.alu_control.drive(0).unwrap();
    x.src1.drive(10).unwrap();
    x.src2.drive(20).unwrap();
    x.update();
    x.commit();
    assert_eq!(x.result.val(), 30);

    // clear
    x.src1.drive(0).unwrap();
    x.src2.drive(0).unwrap();
    x.update();
    x.commit();

    // test default
    x.alu_control.drive(0b111).unwrap();
    x.src1.drive(10).unwrap();
    x.src2.drive(20).unwrap();
    x.update();
    x.commit();
    assert_eq!(x.result.val(), 0);
}

#[test]
fn alu_sum_wraps_modulo() {
    let mut x = Alu::default();
    x.alu_control.drive(0).unwrap();
    x.src1.drive(0xFFFF_FFFF).unwrap();
    x.src2.drive(2).unwrap();
    x.update();
    x.commit();
    assert_eq!(x.result.val(), 1);
    assert_eq!(x.zero.val(), 0);
}

#[test]
fn alu_zero_flag_tracks_result() {
    let mut x = Alu::default();

    // a sum of zero raises the flag
    x.alu_control.drive(0).unwrap();
    x.src1.drive(0).unwrap();
    x.src2.drive(0).unwrap();
    x.update();
    x.commit();
    assert_eq!(x.result.val(), 0);
    assert_eq!(x.zero.val(), 1);

    // an unimplemented selector forces a zero result, so the flag is set too
    x.alu_control.drive(0b101).unwrap();
    x.src1.drive(9).unwrap();
    x.src2.drive(1).unwrap();
    x.update();
    x.commit();
    assert_eq!(x.result.val(), 0);
    assert_eq!(x.zero.val(), 1);

    // a nonzero sum clears it
    x.alu_control.drive(0).unwrap();
    x.update();
    x.commit();
    assert_eq!(x.result.val(), 10);
    assert_eq!(x.zero.val(), 0);
}

use datapath::control::Control;

#[test]
fn control_test() {
    let mut x = Control::default();

    x.update();
    x.commit();
    x.op.drive(0b0000011).unwrap();
    x.update();
    x.commit();

    assert_eq!(x.alu_control.val(), 0b000);
    assert_eq!(x.imm_source.val(), 0b00);
    assert_eq!(x.mem_write.val(), 0);
    assert_eq!(x.reg_write.val(), 1);
}

#[test]
fn control_other_opcode_disables_writes() {
    let mut x = Control::default();

    // an arithmetic-type opcode is not decoded yet: no write anywhere,
    // and the same add selector for the ALU
    x.op.drive(0b0110011).unwrap();
    x.update();
    x.commit();

    assert_eq!(x.reg_write.val(), 0);
    assert_eq!(x.mem_write.val(), 0);
    assert_eq!(x.imm_source.val(), 0b00);
    assert_eq!(x.alu_control.val(), 0b000);
}

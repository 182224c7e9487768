use moldy_chip::instruction::Instruction;

#[test]
fn new() {
    let inst = Instruction::new(0xabcd);
    assert_eq!(inst.first, 0xa);
    assert_eq!(inst.nnn, 0xbcd);
    assert_eq!(inst.kk, 0xcd);
    assert_eq!(inst.x, 0xb);
    assert_eq!(inst.y, 0xc);
    assert_eq!(inst.n, 0xd);

    let inst = Instruction::new(0x1234);
    assert_eq!(inst.first, 0x1);
    assert_eq!(inst.nnn, 0x234);
    assert_eq!(inst.kk, 0x34);
    assert_eq!(inst.x, 0x2);
    assert_eq!(inst.y, 0x3);
    assert_eq!(inst.n, 0x4);
}

#[test]
fn decode_keeps_the_raw_opcode() {
    assert_eq!(Instruction::new(0xabcd).raw_bytes, 0xabcd);
    assert_eq!(Instruction::new(0x0000).raw_bytes, 0x0000);
}

#[test]
fn decode_all_zero() {
    let inst = Instruction::new(0x0000);
    assert_eq!(inst.first, 0);
    assert_eq!(inst.nnn, 0);
    assert_eq!(inst.kk, 0);
    assert_eq!(inst.x, 0);
    assert_eq!(inst.y, 0);
    assert_eq!(inst.n, 0);
}

#[test]
fn decode_all_ones() {
    let inst = Instruction::new(0xffff);
    assert_eq!(inst.first, 0xf);
    assert_eq!(inst.nnn, 0xfff);
    assert_eq!(inst.kk, 0xff);
    assert_eq!(inst.x, 0xf);
    assert_eq!(inst.y, 0xf);
    assert_eq!(inst.n, 0xf);
}

#[test]
fn decode_is_the_bit_formula_for_every_opcode() {
    let mut v: u32 = 0;
    while v <= 0xffff {
        let raw = v as u16;
        let inst = Instruction::new(raw);
        assert_eq!(inst.raw_bytes, raw);
        assert_eq!(inst.first as u16, raw >> 12);
        assert_eq!(inst.nnn, raw & 0xfff);
        assert_eq!(inst.kk as u16, raw & 0xff);
        assert_eq!(inst.x as u16, (raw >> 8) & 0xf);
        assert_eq!(inst.y as u16, (raw >> 4) & 0xf);
        assert_eq!(inst.n as u16, raw & 0xf);
        v += 1;
    }
}

#[test]
fn decode_is_pure() {
    let a = Instruction::new(0x8ab4);
    let b = Instruction::new(0x8ab4);
    assert_eq!(a.raw_bytes, b.raw_bytes);
    assert_eq!(a.first, b.first);
    assert_eq!(a.nnn, b.nnn);
    assert_eq!(a.kk, b.kk);
    assert_eq!(a.x, b.x);
    assert_eq!(a.y, b.y);
    assert_eq!(a.n, b.n);
}

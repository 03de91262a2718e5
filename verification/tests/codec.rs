use rvcore::ins::{BType, IType, JType, RType, SType, UType};
use rvcore::util::sign_extend;

#[test]
fn sign_extend_twelve_bits() {
    assert_eq!(sign_extend(0xFFF, 12), -1);
    assert_eq!(sign_extend(0x7FF, 12), 2047);
    assert_eq!(sign_extend(0x800, 12), -2048);
    assert_eq!(sign_extend(0xFFFF_F7FF, 12), 2047);
}

#[test]
fn sign_extend_full_width_is_a_reinterpretation() {
    assert_eq!(sign_extend(0xFFFF_FFFF, 32), -1);
    assert_eq!(sign_extend(0x8000_0000, 32), i32::MIN);
    assert_eq!(sign_extend(1, 1), -1);
    assert_eq!(sign_extend(2, 1), 0);
}

#[test]
fn r_shape_reads_add() {
    // add x3, x1, x2
    let r = RType::decode(0x002081b3);
    assert_eq!(r, RType { funct7: 0, rs2: 2, rs1: 1, funct3: 0, rd: 3 });
    assert_eq!(r.encode() | 0x33, 0x002081b3);
}

#[test]
fn i_shape_reads_addi() {
    // addi x5, x6, 1
    let i = IType::decode(0x00130293);
    assert_eq!(i, IType { imm: 1, rs1: 6, funct3: 0, rd: 5 });
    assert_eq!(i.encode() | 0x13, 0x00130293);
    // addi x1, x0, -1
    let i = IType::decode(0xfff00093);
    assert_eq!(i, IType { imm: -1, rs1: 0, funct3: 0, rd: 1 });
    assert_eq!(i.encode() | 0x13, 0xfff00093);
}

#[test]
fn u_shape_reads_lui() {
    // lui x5, 0x12345
    let u = UType::decode(0x123452b7);
    assert_eq!(u, UType { imm: 0x12345, rd: 5 });
    assert_eq!(u.encode() | 0x37, 0x123452b7);
    // lui x1, 0xfffff
    let u = UType::decode(0xfffff0b7);
    assert_eq!(u, UType { imm: -1, rd: 1 });
    assert_eq!(u.encode() | 0x37, 0xfffff0b7);
}

#[test]
fn s_shape_reads_sw() {
    // sw x2, -4(x1)
    let s = SType::decode(0xfe20ae23);
    assert_eq!(s, SType { imm: -4, rs2: 2, rs1: 1, funct3: 2 });
    assert_eq!(s.encode() | 0x23, 0xfe20ae23);
    // sw x5, 2047(x6)
    let s = SType { imm: 2047, rs2: 5, rs1: 6, funct3: 2 };
    assert_eq!(SType::decode(s.encode()), s);
}

#[test]
fn b_shape_reads_beq() {
    // beq x1, x2, -8
    let b = BType::decode(0xfe208ce3);
    assert_eq!(b, BType { imm: -8, rs2: 2, rs1: 1, funct3: 0 });
    assert_eq!(b.encode() | 0x63, 0xfe208ce3);
    // bne x3, x4, 2050: bit 11 of the immediate travels through bit 7
    let b = BType { imm: 2050, rs2: 4, rs1: 3, funct3: 1 };
    assert_eq!(b.encode() & 0x80, 0x80);
    assert_eq!(BType::decode(b.encode()), b);
}

#[test]
fn j_shape_reads_jal() {
    // jal x0, -8
    let j = JType::decode(0xff9ff06f);
    assert_eq!(j, JType { imm: -8, rd: 0 });
    assert_eq!(j.encode() | 0x6f, 0xff9ff06f);
    // jal x1, 2048
    let j = JType::decode(0x001000ef);
    assert_eq!(j, JType { imm: 2048, rd: 1 });
}

#[test]
fn decode_inverts_encode_at_the_edges_of_each_width() {
    for imm in [-2048, -1, 0, 1, 2047] {
        let i = IType { imm, rs1: 31, funct3: 7, rd: 31 };
        assert_eq!(IType::decode(i.encode()), i);
        let s = SType { imm, rs2: 31, rs1: 0, funct3: 7 };
        assert_eq!(SType::decode(s.encode()), s);
    }
    for imm in [-4096, -2, 0, 2, 4094] {
        let b = BType { imm, rs2: 0, rs1: 31, funct3: 5 };
        assert_eq!(BType::decode(b.encode()), b);
    }
    for imm in [-0x10_0000, -2, 0, 2, 0xf_fffe] {
        let j = JType { imm, rd: 17 };
        assert_eq!(JType::decode(j.encode()), j);
    }
    for imm in [-0x8_0000, -1, 0, 1, 0x7_ffff] {
        let u = UType { imm, rd: 9 };
        assert_eq!(UType::decode(u.encode()), u);
    }
    let r = RType { funct7: 127, rs2: 31, rs1: 31, funct3: 7, rd: 31 };
    assert_eq!(RType::decode(r.encode()), r);
}

#[test]
fn encode_inverts_decode_but_for_the_opcode() {
    for word in [0u32, 0xffff_ffff, 0x8000_0000, 0x0000_0080, 0xdead_beef, 0x1234_5678] {
        assert_eq!(RType::decode(word).encode(), word & 0xffff_ff80);
        assert_eq!(IType::decode(word).encode(), word & 0xffff_ff80);
        assert_eq!(UType::decode(word).encode(), word & 0xffff_ff80);
        assert_eq!(SType::decode(word).encode(), word & 0xffff_ff80);
        assert_eq!(BType::decode(word).encode(), word & 0xffff_ff80);
        assert_eq!(JType::decode(word).encode(), word & 0xffff_ff80);
    }
}

#[test]
fn encode_cuts_an_immediate_to_its_width() {
    let i = IType { imm: 0x1234_5fff, rs1: 0, funct3: 0, rd: 0 };
    assert_eq!(i.encode(), 0xfff0_0000);
    assert_eq!(IType::decode(i.encode()).imm, -1);
}

#[test]
fn upper_immediate_stands_in_the_high_bits() {
    let u = UType::decode(0x123452b7);
    assert_eq!(u.imm, 0x12345);
    assert_eq!(u.upper(), 0x1234_5000);
    let u = UType::decode(0xfffff0b7);
    assert_eq!(u.imm, -1);
    assert_eq!(u.upper(), 0xffff_f000u32 as i32);
    for word in [0u32, 0x8000_0fff, 0x7fff_f000, 0xdead_beef] {
        assert_eq!(UType::decode(word).upper(), (word & 0xffff_f000) as i32);
    }
}

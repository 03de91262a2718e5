use rvcore::bus::Bus;
use rvcore::ins::{IType, RType, SType, OPCODE_OP, OPCODE_SYSTEM};
use rvcore::rv32i::ins::Instruction;
use rvcore::rv32i::RV32I;
use rvcore::rv_f::rv32::round;
use rvcore::rv_f::{
    classify, float_eq, float_le, float_lt, inject_sign, FStep, FloatOp, FloatRequest,
    Rounding, OPCODE_LOADF, OPCODE_OPFP, OPCODE_STOREF, RV32F,
};
use rvcore::rv_m::{RvM, RV32M};
use rvcore::rv_zicsr::RVZICSR;
use rvcore::step::{tick, tick_csr, TickResult};
use rvcore::{Base, DRam, EResult, Extension, Volatile};

fn new_core(size: usize) -> RV32I {
    RV32I::new(Bus::new(DRam::new(size)))
}

fn m_word(funct3: u8, rd: u8, rs1: u8, rs2: u8) -> u32 {
    RType { funct7: 1, rs2, rs1, funct3, rd }.encode() | OPCODE_OP
}

fn run_m(funct3: u8, a: i32, b: i32) -> i32 {
    let mut c = new_core(16);
    c.set(1, a);
    c.set(2, b);
    assert_eq!(RV32M.execute(m_word(funct3, 3, 1, 2), &mut c), EResult::Found);
    c.get(3)
}

#[test]
fn mul_keeps_the_low_word() {
    assert_eq!(run_m(0, 6, 7), 42);
    assert_eq!(run_m(0, -6, 7), -42);
    assert_eq!(run_m(0, 0x10000, 0x10000), 0);
    assert_eq!(run_m(0, 0x12345678, 0x1000), 0x45678000);
}

#[test]
fn mul_of_smallest_number_by_minus_one_wraps() {
    assert_eq!(run_m(0, i32::MIN, -1), i32::MIN);
    assert_eq!(run_m(0, -1, i32::MIN), i32::MIN);
}

#[test]
fn mulh_family_gives_the_high_word() {
    assert_eq!(run_m(1, 0x10000, 0x10000), 1);
    assert_eq!(run_m(1, -1, 1), -1);
    assert_eq!(run_m(1, -1, -1), 0);
    assert_eq!(run_m(1, i32::MIN, i32::MIN), 0x4000_0000);
    assert_eq!(run_m(1, i32::MIN, i32::MAX), (((i32::MIN as i64) * (i32::MAX as i64)) >> 32) as i32);
    // unsigned by unsigned
    assert_eq!(run_m(2, -1, -1), 0xffff_fffeu32 as i32);
    assert_eq!(run_m(2, -1, 1), 0);
    assert_eq!(run_m(2, i32::MIN, 2), 1);
    // signed by unsigned
    assert_eq!(run_m(3, -1, -1), -1);
    assert_eq!(run_m(3, 1, -1), 0);
    assert_eq!(run_m(3, -2, i32::MIN), -1);
    assert_eq!(run_m(3, i32::MIN, -1), ((i32::MIN as i64 * 0xffff_ffffi64) >> 32) as i32);
}

#[test]
fn division_rounds_towards_zero() {
    assert_eq!(run_m(4, 7, 2), 3);
    assert_eq!(run_m(4, -7, 2), -3);
    assert_eq!(run_m(4, 7, -2), -3);
    assert_eq!(run_m(4, -7, -2), 3);
    assert_eq!(run_m(6, 7, 2), 1);
    assert_eq!(run_m(6, -7, 2), -1);
    assert_eq!(run_m(6, 7, -2), 1);
    assert_eq!(run_m(6, -7, -2), -1);
    assert_eq!(run_m(4, i32::MIN, 1), i32::MIN);
    assert_eq!(run_m(4, i32::MIN, i32::MIN), 1);
    assert_eq!(run_m(4, i32::MAX, i32::MIN), 0);
    assert_eq!(run_m(6, i32::MAX, i32::MIN), i32::MAX);
    assert_eq!(run_m(5, -1, 2), 0x7fff_ffff);
    assert_eq!(run_m(5, 7, -1), 0);
    assert_eq!(run_m(7, -1, 16), 15);
    assert_eq!(run_m(7, 7, -1), 7);
}

#[test]
fn division_by_zero_is_defined() {
    for a in [0, 1, -1, 12345, i32::MIN, i32::MAX] {
        assert_eq!(run_m(4, a, 0), -1);
        assert_eq!(run_m(5, a, 0), -1);
        assert_eq!(run_m(6, a, 0), a);
        assert_eq!(run_m(7, a, 0), a);
    }
}

#[test]
fn signed_division_overflow_is_defined() {
    assert_eq!(run_m(4, i32::MIN, -1), i32::MIN);
    assert_eq!(run_m(6, i32::MIN, -1), 0);
}

#[test]
fn m_declines_what_is_not_its_own() {
    let mut c = new_core(16);
    c.set(1, 3);
    c.set(2, 4);
    let add = RType { funct7: 0, rs2: 2, rs1: 1, funct3: 0, rd: 3 }.encode() | OPCODE_OP;
    assert_eq!(RV32M.execute(add, &mut c), EResult::NotFound);
    assert_eq!(RV32M.execute(0x00130293, &mut c), EResult::NotFound);
    assert_eq!(RV32M.execute(0, &mut c), EResult::NotFound);
    assert_eq!(c.get(3), 0);
}

#[test]
fn m_on_decoded_instructions() {
    let mut c = new_core(16);
    c.set(1, -6);
    c.set(2, 7);
    let ins = Instruction::decode(m_word(0, 3, 1, 2)).unwrap();
    assert_eq!(RvM.execute(&ins, &mut c), Some(()));
    assert_eq!(c.get(3), -42);
    let ins = Instruction::decode(m_word(4, 0, 1, 2)).unwrap();
    assert_eq!(RvM.execute(&ins, &mut c), Some(()));
    assert_eq!(c.get(0), 0);
    let add = Instruction::Op(RType { funct7: 0, rs2: 2, rs1: 1, funct3: 0, rd: 4 });
    assert_eq!(RvM.execute(&add, &mut c), None);
    let addi = Instruction::decode(0x00130293).unwrap();
    assert_eq!(RvM.execute(&addi, &mut c), None);
    assert_eq!(c.get(4), 0);
    assert_eq!(c.get(5), 0);
}

// ---- Zicsr ----

fn csr_word(funct3: u8, csr: u32, rd: u8, rs1: u8) -> u32 {
    (csr << 20) | ((rs1 as u32) << 15) | ((funct3 as u32) << 12) | ((rd as u32) << 7) | OPCODE_SYSTEM
}

#[test]
fn csr_starts_zeroed_and_holds_what_is_set() {
    let mut z = RVZICSR::new();
    assert_eq!(z.get(0), 0);
    assert_eq!(z.get(4095), 0);
    z.set(4095, 0xdead_beef);
    assert_eq!(z.get(4095), 0xdead_beef);
    assert_eq!(z.get(4094), 0);
}

#[test]
fn csrrw_swaps() {
    let mut z = RVZICSR::new();
    let mut c = new_core(16);
    z.set(0x300, 0x55);
    c.set(1, 0xaa);
    assert_eq!(z.execute(csr_word(1, 0x300, 3, 1), &mut c), EResult::Found);
    assert_eq!(c.get(3), 0x55);
    assert_eq!(z.get(0x300), 0xaa);
    // the same register as source and destination
    c.set(4, 7);
    assert_eq!(z.execute(csr_word(1, 0x300, 4, 4), &mut c), EResult::Found);
    assert_eq!(c.get(4), 0xaa);
    assert_eq!(z.get(0x300), 7);
}

#[test]
fn csrrs_sets_and_csrrc_clears() {
    let mut z = RVZICSR::new();
    let mut c = new_core(16);
    z.set(0xfff, 0b1100);
    c.set(1, 0b1010);
    assert_eq!(z.execute(csr_word(2, 0xfff, 3, 1), &mut c), EResult::Found);
    assert_eq!(c.get(3), 0b1100);
    assert_eq!(z.get(0xfff), 0b1110);
    assert_eq!(z.execute(csr_word(3, 0xfff, 4, 1), &mut c), EResult::Found);
    assert_eq!(c.get(4), 0b1110);
    assert_eq!(z.get(0xfff), 0b0100);
}

#[test]
fn csr_immediate_forms_use_the_register_field() {
    let mut z = RVZICSR::new();
    let mut c = new_core(16);
    c.set(31, -1);
    assert_eq!(z.execute(csr_word(5, 7, 3, 31), &mut c), EResult::Found);
    assert_eq!(c.get(3), 0);
    assert_eq!(z.get(7), 31);
    assert_eq!(z.execute(csr_word(7, 7, 3, 0b00101), &mut c), EResult::Found);
    assert_eq!(c.get(3), 31);
    assert_eq!(z.get(7), 0b11010);
    assert_eq!(z.execute(csr_word(6, 7, 0, 0b00001), &mut c), EResult::Found);
    assert_eq!(c.get(0), 0);
    assert_eq!(z.get(7), 0b11011);
}

#[test]
fn csr_declines_what_is_not_its_own() {
    let mut z = RVZICSR::new();
    let mut c = new_core(16);
    z.set(0, 9);
    assert_eq!(z.execute(0x00000073, &mut c), EResult::NotFound); // ecall
    assert_eq!(z.execute(0x00100073, &mut c), EResult::NotFound); // ebreak
    assert_eq!(z.execute(csr_word(4, 0, 3, 1), &mut c), EResult::NotFound);
    assert_eq!(z.execute(0x00130293, &mut c), EResult::NotFound);
    assert_eq!(z.get(0), 9);
    assert_eq!(c.get(3), 0);
}

// ---- F ----

fn fp_word(funct5: u8, rm: u8, rd: u8, rs1: u8, rs2: u8) -> u32 {
    RType { funct7: funct5 << 2, rs2, rs1, funct3: rm, rd }.encode() | OPCODE_OPFP
}

#[test]
fn fclass_of_positive_zero_is_bit_four_only() {
    assert_eq!(classify(0.0f32.to_bits()), 1 << 4);
}

#[test]
fn fclass_puts_every_number_in_one_class() {
    let cases: [(f32, u32); 10] = [
        (f32::NEG_INFINITY, 0),
        (-1.5, 1),
        (-1.0e-40, 2),
        (-0.0, 3),
        (0.0, 4),
        (1.0e-40, 5),
        (f32::MAX, 6),
        (f32::INFINITY, 7),
        (f32::from_bits(0x7f80_0001), 8),
        (f32::from_bits(0x7fc0_0000), 9),
    ];
    for (x, bit) in cases {
        assert_eq!(classify(x.to_bits()), 1 << bit);
    }
    assert_eq!(classify(0xffc0_0000), 1 << 9);
    assert_eq!(classify(0xff80_0001), 1 << 8);
    assert_eq!(classify(f32::MIN_POSITIVE.to_bits()), 1 << 6);
}

#[test]
fn feq_of_nan_with_itself_is_false() {
    let nan = f32::NAN.to_bits();
    assert!(!float_eq(nan, nan));
    assert!(!float_le(nan, nan));
    assert!(!float_lt(nan, nan));
    assert!(!float_eq(nan, 0));
    assert!(!float_lt(0, nan));
}

#[test]
fn comparisons_agree_with_the_numbers() {
    let values = [
        f32::NEG_INFINITY, f32::MIN, -2.5, -1.0, -1.0e-40, -0.0, 0.0, 1.0e-40, f32::MIN_POSITIVE,
        1.0, 2.5, f32::MAX, f32::INFINITY, f32::NAN,
    ];
    for a in values {
        for b in values {
            assert_eq!(float_eq(a.to_bits(), b.to_bits()), a == b);
            assert_eq!(float_lt(a.to_bits(), b.to_bits()), a < b);
            assert_eq!(float_le(a.to_bits(), b.to_bits()), a <= b);
        }
    }
}

#[test]
fn sign_injection() {
    let (p, n) = (1.5f32.to_bits(), (-2.0f32).to_bits());
    assert_eq!(f32::from_bits(inject_sign(0, p, n)), -1.5);
    assert_eq!(f32::from_bits(inject_sign(0, n, p)), 2.0);
    assert_eq!(f32::from_bits(inject_sign(1, p, n)), 1.5);
    assert_eq!(f32::from_bits(inject_sign(1, p, p)), -1.5);
    assert_eq!(f32::from_bits(inject_sign(2, p, n)), -1.5);
    assert_eq!(f32::from_bits(inject_sign(2, n, n)), 2.0);
    assert_eq!(f32::from_bits(inject_sign(2, n, p)), -2.0);
}

#[test]
fn float_load_and_store_move_raw_bits() {
    let mut f = RV32F::default();
    let mut c = new_core(64);
    c.bus().store(24, 32, 0x4049_0fdb);
    c.set(1, 20);
    // the float register of the same number has no say in the address
    f.set(1, 40.0f32.to_bits());
    let flw = IType { imm: 4, rs1: 1, funct3: 2, rd: 2 }.encode() | OPCODE_LOADF;
    assert_eq!(f.execute(flw, &mut c), FStep::Done(EResult::Found));
    assert_eq!(f.get(2), 0x4049_0fdb);
    let fsw = SType { imm: -4, rs2: 2, rs1: 1, funct3: 2 }.encode() | OPCODE_STOREF;
    assert_eq!(f.execute(fsw, &mut c), FStep::Done(EResult::Found));
    assert_eq!(c.bus_ref().load(16, 32), 0x4049_0fdb);
    assert_eq!(c.get(1), 20);
    let other = IType { imm: 4, rs1: 1, funct3: 3, rd: 2 }.encode() | OPCODE_LOADF;
    assert_eq!(f.execute(other, &mut c), FStep::Done(EResult::NotFound));
    let other = SType { imm: 4, rs2: 2, rs1: 1, funct3: 1 }.encode() | OPCODE_STOREF;
    assert_eq!(f.execute(other, &mut c), FStep::Done(EResult::NotFound));
}

#[test]
fn float_load_takes_its_address_from_the_base() {
    let mut base = new_core(1024);
    base.bus().store(16, 32, 0x3fc0_0000);
    base.set(1, 16);
    let mut f = RV32F::default();
    // flw f2, 0(x1)
    assert_eq!(f.execute(0x0000_a107, &mut base), FStep::Done(EResult::Found));
    assert_eq!(f.get(2), 0x3fc0_0000);
    assert_eq!(f32::from_bits(f.get(2)), 1.5);
    for i in 0..32 {
        assert_eq!(base.get(i), match i { 1 => 16, 2 => 1024, _ => 0 });
    }
    assert_eq!(base.bus_ref().load(16, 32), 0x3fc0_0000);
    assert_eq!(*base.pc(), 0);
    // fsw f2, 8(x1)
    let fsw = SType { imm: 8, rs2: 2, rs1: 1, funct3: 2 }.encode() | OPCODE_STOREF;
    assert_eq!(f.execute(fsw, &mut base), FStep::Done(EResult::Found));
    assert_eq!(base.bus_ref().load(24, 32), 0x3fc0_0000);
    // beyond the memory a load reads zero and a store is dropped
    base.set(1, -4);
    assert_eq!(f.execute(0x0000_a107, &mut base), FStep::Done(EResult::Found));
    assert_eq!(f.get(2), 0);
}

#[test]
fn float_moves_and_class_through_execute() {
    let mut f = RV32F::default();
    let mut c = new_core(16);
    c.set(5, 0xbfc0_0000u32 as i32);
    assert_eq!(f.execute(fp_word(30, 0, 3, 5, 0), &mut c), FStep::Done(EResult::Found));
    assert_eq!(f.get(3), (-1.5f32).to_bits());
    assert_eq!(f.execute(fp_word(28, 0, 6, 3, 0), &mut c), FStep::Done(EResult::Found));
    assert_eq!(c.get(6), 0xbfc0_0000u32 as i32);
    assert_eq!(f.execute(fp_word(28, 1, 7, 3, 0), &mut c), FStep::Done(EResult::Found));
    assert_eq!(c.get(7), 1 << 1);
    assert_eq!(f.execute(fp_word(28, 1, 7, 0, 0), &mut c), FStep::Done(EResult::Found));
    assert_eq!(c.get(7), 1 << 4);
}

#[test]
fn float_compare_and_inject_through_execute() {
    let mut f = RV32F::default();
    let mut c = new_core(16);
    f.set(1, 1.0f32.to_bits());
    f.set(2, (-2.0f32).to_bits());
    f.set(3, f32::NAN.to_bits());
    assert_eq!(f.execute(fp_word(20, 1, 5, 2, 1), &mut c), FStep::Done(EResult::Found));
    assert_eq!(c.get(5), 1);
    assert_eq!(f.execute(fp_word(20, 1, 5, 1, 2), &mut c), FStep::Done(EResult::Found));
    assert_eq!(c.get(5), 0);
    assert_eq!(f.execute(fp_word(20, 0, 5, 1, 1), &mut c), FStep::Done(EResult::Found));
    assert_eq!(c.get(5), 1);
    assert_eq!(f.execute(fp_word(20, 2, 5, 3, 3), &mut c), FStep::Done(EResult::Found));
    assert_eq!(c.get(5), 0);
    assert_eq!(f.execute(fp_word(20, 3, 5, 1, 1), &mut c), FStep::Done(EResult::NotFound));
    assert_eq!(f.execute(fp_word(4, 0, 4, 1, 2), &mut c), FStep::Done(EResult::Found));
    assert_eq!(f.get(4), (-1.0f32).to_bits());
    assert_eq!(f.execute(fp_word(4, 3, 4, 1, 2), &mut c), FStep::Done(EResult::NotFound));
}

#[test]
fn float_arithmetic_is_handed_to_the_caller() {
    let mut f = RV32F::default();
    let mut c = new_core(16);
    f.set(1, 1.5f32.to_bits());
    f.set(2, 2.25f32.to_bits());
    let expected = FloatRequest {
        op: FloatOp::Mul,
        rm: 3,
        rounding: Rounding::Ceiling,
        a: 1.5f32.to_bits(),
        b: 2.25f32.to_bits(),
        rd: 7,
    };
    let step = f.execute(fp_word(2, 3, 7, 1, 2), &mut c);
    assert_eq!(step, FStep::Compute(expected));
    // nothing happened yet
    assert_eq!(f.get(7), 0);
    let FStep::Compute(request) = step else { unreachable!() };
    let value = (f32::from_bits(request.a) * f32::from_bits(request.b)).to_bits();
    assert_eq!(f.retire(&request, value, &mut c), EResult::Found);
    assert_eq!(f32::from_bits(f.get(7)), 3.375);
    assert_eq!(c.get(7), 0);
}

#[test]
fn float_requests_by_operation() {
    let mut f = RV32F::default();
    let mut c = new_core(16);
    let cases = [
        (0u8, 0u8, 2u8, FloatOp::Add),
        (1, 0, 2, FloatOp::Sub),
        (2, 0, 2, FloatOp::Mul),
        (3, 0, 2, FloatOp::Div),
        (11, 0, 0, FloatOp::Sqrt),
        (5, 0, 2, FloatOp::Min),
        (5, 1, 2, FloatOp::Max),
        (24, 0, 0, FloatOp::ToInt),
        (24, 0, 1, FloatOp::ToUint),
        (26, 0, 0, FloatOp::FromInt),
        (26, 0, 1, FloatOp::FromUint),
    ];
    for (funct5, rm, rs2, op) in cases {
        match f.execute(fp_word(funct5, rm, 3, 1, rs2), &mut c) {
            FStep::Compute(request) => assert_eq!(request.op, op),
            other => panic!("{:?}", other),
        }
    }
    for (funct5, rm, rs2) in [(11u8, 0u8, 1u8), (5, 2, 0), (24, 0, 2), (26, 0, 2), (28, 2, 0), (28, 0, 1), (30, 1, 0), (30, 0, 1), (6, 0, 0), (31, 0, 0)] {
        assert_eq!(f.execute(fp_word(funct5, rm, 3, 1, rs2), &mut c), FStep::Done(EResult::NotFound));
    }
    // another format than single precision
    let double = RType { funct7: 1, rs2: 2, rs1: 1, funct3: 0, rd: 3 }.encode() | OPCODE_OPFP;
    assert_eq!(f.execute(double, &mut c), FStep::Done(EResult::NotFound));
}

#[test]
fn conversion_to_integer_retires_into_the_base() {
    let mut f = RV32F::default();
    let mut c = new_core(16);
    f.set(1, (-2.5f32).to_bits());
    let FStep::Compute(request) = f.execute(fp_word(24, 2, 9, 1, 0), &mut c) else {
        unreachable!()
    };
    assert_eq!(request.op, FloatOp::ToInt);
    assert_eq!(request.rounding, Rounding::Floor);
    assert_eq!(request.a, (-2.5f32).to_bits());
    assert_eq!(request.rd, 9);
    let value = f32::from_bits(request.a).floor() as i32;
    assert_eq!(f.retire(&request, value as u32, &mut c), EResult::Found);
    assert_eq!(c.get(9), -3);
    assert_eq!(f.get(9), 0);
}

#[test]
fn conversion_from_integer_takes_its_operand_from_the_base() {
    let mut f = RV32F::default();
    let mut c = new_core(16);
    c.set(4, -7);
    f.set(4, 99);
    let FStep::Compute(request) = f.execute(fp_word(26, 0, 5, 4, 0), &mut c) else {
        unreachable!()
    };
    assert_eq!(request.op, FloatOp::FromInt);
    assert_eq!(request.a as i32, -7);
    assert_eq!(f.retire(&request, (request.a as i32 as f32).to_bits(), &mut c), EResult::Found);
    assert_eq!(f32::from_bits(f.get(5)), -7.0);
}

#[test]
fn rounding_modes() {
    assert_eq!(round(0), (Rounding::TiesEven, true));
    assert_eq!(round(1), (Rounding::TowardZero, true));
    assert_eq!(round(2), (Rounding::Floor, true));
    assert_eq!(round(3), (Rounding::Ceiling, true));
    assert_eq!(round(4), (Rounding::TowardZero, true));
    assert_eq!(round(5), (Rounding::TiesEven, false));
    assert_eq!(round(7), (Rounding::TiesEven, false));
}

// ---- One step ----

fn machine(words: &[u32]) -> (RV32I, RV32M, RV32F) {
    let mut c = new_core(256);
    for (i, w) in words.iter().enumerate() {
        c.bus().store(4 * i, 32, *w);
    }
    (c, RV32M, RV32F::default())
}

#[test]
fn step_base_instruction_is_the_base_engines() {
    let (mut c, mut m, mut f) = machine(&[0x00130293]);
    assert_eq!(tick(&mut c, &mut m, &mut f), TickResult::Nothing);
    assert_eq!(c.get(5), 1);
    assert_eq!(*c.pc(), 4);
}

#[test]
fn step_falls_through_to_the_extension_that_claims() {
    let fmv = fp_word(30, 0, 3, 5, 0);
    let (mut c, mut m, mut f) = machine(&[m_word(0, 7, 5, 6), fmv]);
    c.set(5, 6);
    c.set(6, 7);
    assert_eq!(tick(&mut c, &mut m, &mut f), TickResult::Nothing);
    assert_eq!(c.get(7), 42);
    assert_eq!(f.get(3), 0);
    assert_eq!(tick(&mut c, &mut m, &mut f), TickResult::Nothing);
    assert_eq!(f.get(3), 6);
    assert_eq!(*c.pc(), 8);
}

#[test]
fn step_reports_traps_and_stops_there() {
    let (mut c, mut m, mut f) = machine(&[0x00100073, 0x00000073]);
    c.set(9, 5);
    assert_eq!(tick(&mut c, &mut m, &mut f), TickResult::EBreak);
    assert_eq!(*c.pc(), 4);
    assert_eq!(tick(&mut c, &mut m, &mut f), TickResult::ECall);
    assert_eq!(*c.pc(), 8);
    for i in 0..32 {
        assert_eq!(c.get(i), match i { 2 => 256, 9 => 5, _ => 0 });
        assert_eq!(f.get(i), 0);
    }
}

#[test]
fn step_reports_a_word_that_nobody_claims() {
    let (mut c, mut m, mut f) = machine(&[0, 0xffff_ffff, csr_word(1, 0x300, 3, 1)]);
    for pc in [4, 8, 12] {
        assert_eq!(tick(&mut c, &mut m, &mut f), TickResult::Unsupported);
        assert_eq!(*c.pc(), pc);
    }
    assert_eq!(c.get(3), 0);
}

#[test]
fn step_with_zicsr_installed() {
    let (mut c, mut m, mut f) = machine(&[
        csr_word(1, 0x300, 3, 1),
        0x00130293,
        m_word(0, 7, 5, 6),
        fp_word(30, 0, 3, 5, 0),
        0x00100073,
        0,
        csr_word(4, 0x300, 3, 1),
    ]);
    let mut z = RVZICSR::new();
    z.set(0x300, 9);
    c.set(1, 5);
    assert_eq!(tick_csr(&mut c, &mut m, &mut f, &mut z), TickResult::Nothing);
    assert_eq!(c.get(3), 9);
    assert_eq!(z.get(0x300), 5);
    assert_eq!(*c.pc(), 4);
    // the others keep what is theirs
    assert_eq!(tick_csr(&mut c, &mut m, &mut f, &mut z), TickResult::Nothing);
    assert_eq!(c.get(5), 1);
    assert_eq!(tick_csr(&mut c, &mut m, &mut f, &mut z), TickResult::Nothing);
    assert_eq!(c.get(7), 0);
    assert_eq!(tick_csr(&mut c, &mut m, &mut f, &mut z), TickResult::Nothing);
    assert_eq!(f.get(3), 1);
    assert_eq!(tick_csr(&mut c, &mut m, &mut f, &mut z), TickResult::EBreak);
    assert_eq!(tick_csr(&mut c, &mut m, &mut f, &mut z), TickResult::Unsupported);
    assert_eq!(tick_csr(&mut c, &mut m, &mut f, &mut z), TickResult::Unsupported);
    assert_eq!(z.get(0x300), 5);
    assert_eq!(*c.pc(), 28);
}

#[test]
fn step_hands_out_float_requests() {
    let (mut c, mut m, mut f) = machine(&[fp_word(0, 0, 3, 1, 2)]);
    f.set(1, 1.0f32.to_bits());
    f.set(2, 2.0f32.to_bits());
    let TickResult::Compute(request) = tick(&mut c, &mut m, &mut f) else { unreachable!() };
    assert_eq!(request.op, FloatOp::Add);
    let sum = f32::from_bits(request.a) + f32::from_bits(request.b);
    f.retire(&request, sum.to_bits(), &mut c);
    assert_eq!(f32::from_bits(f.get(3)), 3.0);
}

#[test]
fn step_loop_with_breakpoint() {
    let (mut c, mut m, mut f) = machine(&[
        0x00130293, // addi x5, x6, 1
        0x00128313, // addi x6, x5, 1
        0x00100073, // ebreak
        0xff5ff06f, // jal x0, -12
    ]);
    let results: Vec<TickResult> = (0..8).map(|_| tick(&mut c, &mut m, &mut f)).collect();
    assert_eq!(
        results,
        vec![
            TickResult::Nothing, TickResult::Nothing, TickResult::EBreak, TickResult::Nothing,
            TickResult::Nothing, TickResult::Nothing, TickResult::EBreak, TickResult::Nothing,
        ]
    );
    assert_eq!(*c.pc(), 0);
    assert_eq!(c.get(5), 3);
    assert_eq!(c.get(6), 4);
}

// ---- Who is asked ----

/// An extension that would take every word, and counts how often it is asked.
struct Greedy {
    asked: usize,
}

impl Extension<RV32I> for Greedy {
    fn claims(_ins: u32) -> bool {
        true
    }

    fn execute(&mut self, _ins: u32, base: &mut RV32I) -> EResult {
        self.asked += 1;
        base.set(31, -1);
        EResult::Found
    }
}

fn first_taker(base: &mut RV32I, ext: &mut Greedy, ins: u32) -> EResult {
    match base.execute(ins) {
        EResult::NotFound => ext.execute(ins, base),
        taken => taken,
    }
}

#[test]
fn a_word_of_the_base_never_reaches_an_extension() {
    let mut c = new_core(16);
    let mut g = Greedy { asked: 0 };
    assert_eq!(first_taker(&mut c, &mut g, 0x00130293), EResult::Found);
    assert_eq!(first_taker(&mut c, &mut g, 0x00100073), EResult::EBreak);
    assert_eq!(first_taker(&mut c, &mut g, 0x00000073), EResult::ECall);
    assert_eq!(g.asked, 0);
    assert_eq!(c.get(31), 0);
    assert_eq!(c.get(5), 1);
    assert_eq!(first_taker(&mut c, &mut g, 0), EResult::Found);
    assert_eq!(g.asked, 1);
    assert_eq!(c.get(31), -1);
}

#[test]
fn no_word_has_two_takers() {
    let mut words: Vec<u32> = Vec::new();
    for opcode in 0..128u32 {
        for funct3 in 0..8u32 {
            for funct7 in [0u32, 1, 4, 32, 0x50, 0x60, 0x68, 0x70, 0x78, 127] {
                for rs2 in [0u32, 1, 2] {
                    words.push((funct7 << 25) | (rs2 << 20) | (funct3 << 12) | opcode);
                }
            }
        }
    }
    for w in words {
        let mut c = new_core(16);
        let mut f = RV32F::default();
        let mut z = RVZICSR::new();
        let mut takers = 0;
        if c.execute(w) != EResult::NotFound {
            takers += 1;
        }
        if RV32M.execute(w, &mut c) != EResult::NotFound {
            takers += 1;
        }
        if f.execute(w, &mut c) != FStep::Done(EResult::NotFound) {
            takers += 1;
        }
        if z.execute(w, &mut c) != EResult::NotFound {
            takers += 1;
        }
        assert!(takers <= 1, "{:#x}", w);
    }
}

// ---- Another base ----

/// A base without a hard-wired register, and without instructions of its own.
struct Plain {
    regs: [i32; 32],
}

impl Volatile<i32> for Plain {
    fn count() -> usize {
        32
    }

    fn reg(&self, index: usize) -> i32 {
        self.regs[index]
    }

    fn hardwired(_index: usize) -> bool {
        false
    }

    fn set(&mut self, index: usize, value: i32) {
        self.regs[index] = value;
    }

    fn get(&self, index: usize) -> i32 {
        self.regs[index]
    }
}

impl Base<i32> for Plain {
    fn recognizes(_ins: u32) -> bool {
        false
    }

    fn fetch(&mut self) -> i32 {
        0
    }

    fn execute(&mut self, _ins: u32) -> EResult {
        EResult::NotFound
    }
}

#[test]
fn m_on_a_base_without_a_zero_register() {
    let mut base = Plain { regs: [0; 32] };
    base.set(1, 100);
    base.set(2, 7);
    let ins = Instruction::Op(RType { funct7: 1, rs2: 2, rs1: 1, funct3: 6, rd: 0 });
    assert_eq!(RvM.execute(&ins, &mut base), Some(()));
    assert_eq!(base.get(0), 2);
    assert_eq!(base.get(1), 100);
    let ins = Instruction::Op(RType { funct7: 0, rs2: 2, rs1: 1, funct3: 6, rd: 0 });
    assert_eq!(RvM.execute(&ins, &mut base), None);
}

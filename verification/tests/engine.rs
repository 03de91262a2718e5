use rvcore::bus::Bus;
use rvcore::ins::{
    BType, IType, JType, RType, SType, UType, OPCODE_AUIPC, OPCODE_BRANCH, OPCODE_JAL,
    OPCODE_JALR, OPCODE_LOAD, OPCODE_LUI, OPCODE_MISCMEM, OPCODE_OP, OPCODE_OPIMM, OPCODE_STORE,
};
use rvcore::rv32i::ins::Instruction;
use rvcore::rv32i::{Fence, FenceKind, RV32I};
use rvcore::{Base, DRam, EResult, Volatile};

fn new_core(size: usize) -> RV32I {
    RV32I::new(Bus::new(DRam::new(size)))
}

fn op_imm(funct3: u8, rd: u8, rs1: u8, imm: i32) -> u32 {
    IType { imm, rs1, funct3, rd }.encode() | OPCODE_OPIMM
}

fn op(funct7: u8, funct3: u8, rd: u8, rs1: u8, rs2: u8) -> u32 {
    RType { funct7, rs2, rs1, funct3, rd }.encode() | OPCODE_OP
}

fn run_op(funct7: u8, funct3: u8, a: i32, b: i32) -> i32 {
    let mut c = new_core(64);
    c.set(1, a);
    c.set(2, b);
    assert_eq!(c.execute(op(funct7, funct3, 3, 1, 2)), EResult::Found);
    c.get(3)
}

fn run_op_imm(funct3: u8, a: i32, imm: i32) -> i32 {
    let mut c = new_core(64);
    c.set(1, a);
    assert_eq!(c.execute(op_imm(funct3, 3, 1, imm)), EResult::Found);
    c.get(3)
}

#[test]
fn fresh_core_has_stack_pointer_at_memory_size() {
    let c = new_core(1024);
    assert_eq!(*c.pc(), 0);
    for i in 0..32 {
        assert_eq!(c.get(i), if i == 2 { 1024 } else { 0 });
    }
    assert_eq!(c.bus_ref().dram.size(), 1024);
}

#[test]
fn register_zero_reads_zero_after_any_write() {
    let mut c = new_core(16);
    for v in [0, 1, -1, i32::MIN, i32::MAX, 0x1234_5678] {
        c.set(0, v);
        assert_eq!(c.get(0), 0);
    }
    // through an instruction as well: addi x0, x0, 5
    assert_eq!(c.execute(op_imm(0, 0, 0, 5)), EResult::Found);
    assert_eq!(c.get(0), 0);
}

#[test]
fn set_changes_one_register_only() {
    let mut c = new_core(16);
    c.set(7, -9);
    for i in 0..32 {
        let expected = match i {
            2 => 16,
            7 => -9,
            _ => 0,
        };
        assert_eq!(c.get(i), expected);
    }
    assert_eq!(*c.pc(), 0);
}

#[test]
fn fetch_returns_the_word_and_moves_on() {
    let mut c = new_core(16);
    c.bus().store(0, 32, 0x00130293);
    c.bus().store(4, 32, 0xff9ff06f);
    assert_eq!(c.fetch() as u32, 0x00130293);
    assert_eq!(*c.pc(), 4);
    assert_eq!(c.fetch() as u32, 0xff9ff06f);
    assert_eq!(*c.pc(), 8);
    // beyond the memory every word reads as zero
    c.fetch();
    c.fetch();
    assert_eq!(c.fetch(), 0);
    assert_eq!(*c.pc(), 20);
}

#[test]
fn pc_relative_loop_returns_to_its_start() {
    let mut c = new_core(1024);
    c.bus().store(0, 32, 0x00130293); // addi x5, x6, 1
    c.bus().store(4, 32, 0x00128313); // addi x6, x5, 1
    c.bus().store(8, 32, 0xff9ff06f); // jal x0, -8
    for round in 0..3 {
        for _ in 0..3 {
            let word = c.fetch() as u32;
            assert_eq!(c.execute(word), EResult::Found);
        }
        assert_eq!(*c.pc(), 0);
        assert_eq!(c.get(5), 2 * round + 1);
        assert_eq!(c.get(6), 2 * round + 2);
    }
}

#[test]
fn immediate_arithmetic() {
    assert_eq!(run_op_imm(0, 5, 7), 12);
    assert_eq!(run_op_imm(0, 5, -7), -2);
    assert_eq!(run_op_imm(0, i32::MAX, 1), i32::MIN);
    assert_eq!(run_op_imm(2, -1, 0), 1);
    assert_eq!(run_op_imm(2, 0, -1), 0);
    assert_eq!(run_op_imm(3, -1, 0), 0);
    assert_eq!(run_op_imm(3, 0, -1), 1);
    assert_eq!(run_op_imm(4, 0b1100, 0b1010), 0b0110);
    assert_eq!(run_op_imm(4, 5, -1), !5);
    assert_eq!(run_op_imm(6, 0b1100, 0b1010), 0b1110);
    assert_eq!(run_op_imm(7, 0b1100, 0b1010), 0b1000);
}

#[test]
fn immediate_arithmetic_declines_unknown_funct3() {
    for funct3 in [1, 5] {
        let mut c = new_core(16);
        c.set(1, 3);
        assert_eq!(c.execute(op_imm(funct3, 3, 1, 1)), EResult::NotFound);
        assert_eq!(c.get(3), 0);
        assert_eq!(*c.pc(), 0);
    }
}

#[test]
fn register_arithmetic() {
    assert_eq!(run_op(0, 0, 5, 7), 12);
    assert_eq!(run_op(0, 0, i32::MAX, 1), i32::MIN);
    assert_eq!(run_op(32, 0, 5, 7), -2);
    assert_eq!(run_op(32, 0, i32::MIN, 1), i32::MAX);
    assert_eq!(run_op(0, 1, 1, 31), i32::MIN);
    assert_eq!(run_op(0, 1, 3, 33), 6);
    assert_eq!(run_op(0, 2, -1, 0), 1);
    assert_eq!(run_op(0, 2, 0, -1), 0);
    assert_eq!(run_op(0, 3, -1, 0), 0);
    assert_eq!(run_op(0, 3, 0, -1), 1);
    assert_eq!(run_op(0, 4, 0b1100, 0b1010), 0b0110);
    assert_eq!(run_op(0, 5, -1, 28), 0xf);
    assert_eq!(run_op(0, 5, -16, 36), 0x0fff_ffff);
    assert_eq!(run_op(32, 5, -16, 2), -4);
    assert_eq!(run_op(32, 5, -1, 31), -1);
    assert_eq!(run_op(0, 6, 0b1100, 0b1010), 0b1110);
    assert_eq!(run_op(0, 7, 0b1100, 0b1010), 0b1000);
}

#[test]
fn register_arithmetic_declines_other_funct7() {
    for (funct7, funct3) in [(1, 0), (1, 7), (32, 1), (32, 7), (2, 0), (127, 0)] {
        let mut c = new_core(16);
        c.set(1, 3);
        c.set(2, 4);
        assert_eq!(c.execute(op(funct7, funct3, 3, 1, 2)), EResult::NotFound);
        assert_eq!(c.get(3), 0);
    }
}

#[test]
fn lui_places_the_immediate_in_the_upper_bits() {
    let mut c = new_core(16);
    assert_eq!(c.execute(0x123452b7), EResult::Found); // lui x5, 0x12345
    assert_eq!(c.get(5), 0x1234_5000);
    let word = UType { imm: -1, rd: 6 }.encode() | OPCODE_LUI;
    assert_eq!(c.execute(word), EResult::Found);
    assert_eq!(c.get(6), 0xffff_f000u32 as i32);
}

#[test]
fn auipc_counts_from_the_executing_instruction() {
    let mut c = new_core(64);
    let word = UType { imm: 1, rd: 5 }.encode() | OPCODE_AUIPC;
    c.bus().store(8, 32, word);
    c.fetch();
    c.fetch();
    let fetched = c.fetch() as u32;
    assert_eq!(fetched, word);
    assert_eq!(c.execute(fetched), EResult::Found);
    assert_eq!(c.get(5), 0x1000 + 8);
    assert_eq!(*c.pc(), 12);
}

#[test]
fn jal_links_and_jumps_by_the_byte_offset() {
    let mut c = new_core(64);
    let word = JType { imm: 16, rd: 1 }.encode() | OPCODE_JAL;
    c.bus().store(4, 32, word);
    c.fetch();
    let fetched = c.fetch() as u32;
    assert_eq!(c.execute(fetched), EResult::Found);
    assert_eq!(c.get(1), 8);
    assert_eq!(*c.pc(), 20);
}

#[test]
fn jalr_jumps_by_register_plus_immediate() {
    let mut c = new_core(64);
    let word = IType { imm: -4, rs1: 5, funct3: 0, rd: 5 }.encode() | OPCODE_JALR;
    c.bus().store(4, 32, word);
    c.set(5, 24);
    c.fetch();
    let fetched = c.fetch() as u32;
    assert_eq!(c.execute(fetched), EResult::Found);
    // the offset is read before the link is written
    assert_eq!(c.get(5), 8);
    assert_eq!(*c.pc(), 4 + 24 - 4);
}

fn branch_target(funct3: u8, a: i32, b: i32) -> Option<i32> {
    let mut c = new_core(64);
    let word = BType { imm: 12, rs2: 2, rs1: 1, funct3 }.encode() | OPCODE_BRANCH;
    c.bus().store(0, 32, word);
    c.set(1, a);
    c.set(2, b);
    let fetched = c.fetch() as u32;
    match c.execute(fetched) {
        EResult::Found => Some(*c.pc()),
        _ => None,
    }
}

#[test]
fn branches_compare_signed_and_unsigned() {
    let taken = Some(12);
    let not = Some(4);
    assert_eq!(branch_target(0, 3, 3), taken);
    assert_eq!(branch_target(0, 3, 4), not);
    assert_eq!(branch_target(1, 3, 4), taken);
    assert_eq!(branch_target(1, 3, 3), not);
    assert_eq!(branch_target(4, -1, 0), taken);
    assert_eq!(branch_target(4, 0, -1), not);
    assert_eq!(branch_target(5, 0, -1), taken);
    assert_eq!(branch_target(5, 3, 3), taken);
    assert_eq!(branch_target(5, -1, 0), not);
    assert_eq!(branch_target(6, 0, -1), taken);
    assert_eq!(branch_target(6, -1, 0), not);
    assert_eq!(branch_target(7, -1, 0), taken);
    assert_eq!(branch_target(7, 3, 3), taken);
    assert_eq!(branch_target(7, 0, -1), not);
    assert_eq!(branch_target(2, 3, 3), None);
    assert_eq!(branch_target(3, 3, 3), None);
}

#[test]
fn backward_branch() {
    let mut c = new_core(64);
    let word = BType { imm: -8, rs2: 0, rs1: 0, funct3: 0 }.encode() | OPCODE_BRANCH;
    c.bus().store(8, 32, word);
    c.fetch();
    c.fetch();
    let fetched = c.fetch() as u32;
    assert_eq!(c.execute(fetched), EResult::Found);
    assert_eq!(*c.pc(), 0);
}

fn loaded(funct3: u8) -> Option<i32> {
    let mut c = new_core(64);
    c.bus().store(16, 32, 0x8182_83f4);
    c.set(1, 20);
    let word = IType { imm: -4, rs1: 1, funct3, rd: 3 }.encode() | OPCODE_LOAD;
    match c.execute(word) {
        EResult::Found => Some(c.get(3)),
        _ => None,
    }
}

#[test]
fn loads_extend_by_sign_or_by_zero() {
    assert_eq!(loaded(0), Some(-12));
    assert_eq!(loaded(1), Some(0xffff_83f4u32 as i32));
    assert_eq!(loaded(2), Some(0x8182_83f4u32 as i32));
    assert_eq!(loaded(4), Some(0xf4));
    assert_eq!(loaded(5), Some(0x83f4));
    assert_eq!(loaded(3), None);
    assert_eq!(loaded(6), None);
    assert_eq!(loaded(7), None);
}

#[test]
fn load_out_of_range_reads_zero() {
    let mut c = new_core(64);
    c.set(3, 77);
    c.set(1, -4);
    let word = IType { imm: 0, rs1: 1, funct3: 2, rd: 3 }.encode() | OPCODE_LOAD;
    assert_eq!(c.execute(word), EResult::Found);
    assert_eq!(c.get(3), 0);
    c.set(3, 77);
    c.set(1, 64);
    assert_eq!(c.execute(word), EResult::Found);
    assert_eq!(c.get(3), 0);
}

#[test]
fn stores_write_their_width() {
    for (funct3, expected) in [(0u8, 0xffff_ff78u32), (1, 0xffff_5678), (2, 0x1234_5678)] {
        let mut c = new_core(64);
        c.bus().store(8, 32, 0xffff_ffff);
        c.set(1, 4);
        c.set(2, 0x1234_5678);
        let word = SType { imm: 4, rs2: 2, rs1: 1, funct3 }.encode() | OPCODE_STORE;
        assert_eq!(c.execute(word), EResult::Found);
        assert_eq!(c.bus_ref().load(8, 32), expected);
    }
    let mut c = new_core(64);
    let word = SType { imm: 4, rs2: 2, rs1: 1, funct3: 3 }.encode() | OPCODE_STORE;
    assert_eq!(c.execute(word), EResult::NotFound);
}

#[test]
fn store_out_of_range_is_dropped() {
    let mut c = new_core(8);
    c.bus().store(0, 32, 0x0102_0304);
    c.bus().store(4, 32, 0x0506_0708);
    c.set(1, 8);
    c.set(2, -1);
    let word = SType { imm: 0, rs2: 2, rs1: 1, funct3: 2 }.encode() | OPCODE_STORE;
    assert_eq!(c.execute(word), EResult::Found);
    c.set(1, -1);
    assert_eq!(c.execute(word), EResult::Found);
    assert_eq!(c.bus_ref().load(0, 32), 0x0102_0304);
    assert_eq!(c.bus_ref().load(4, 32), 0x0506_0708);
}

#[test]
fn ecall_and_ebreak_are_reported_and_change_nothing() {
    let mut c = new_core(16);
    c.set(5, 9);
    assert_eq!(c.execute(0x00000073), EResult::ECall);
    assert_eq!(c.execute(0x00100073), EResult::EBreak);
    assert_eq!(c.execute(0x00200073), EResult::NotFound);
    assert_eq!(c.execute(0x00001073), EResult::NotFound);
    assert_eq!(c.get(5), 9);
    assert_eq!(*c.pc(), 0);
}

#[test]
fn fence_is_accepted_and_does_nothing() {
    assert_eq!(OPCODE_MISCMEM, 0b0001111);
    let mut c = new_core(1024);
    c.bus().store(0, 32, 0x1234_5678);
    c.set(7, -3);
    // fence iorw, iorw; fence.tso; pause
    for word in [0x0ff0_000fu32, 0x8330_000f, 0x0100_000f] {
        assert_eq!(c.execute(word), EResult::Found);
        assert_eq!(*c.pc(), 0);
        for i in 0..32 {
            assert_eq!(c.get(i), match i { 2 => 1024, 7 => -3, _ => 0 });
        }
        assert_eq!(c.bus_ref().load(0, 32), 0x1234_5678);
        assert_eq!(c.bus_ref().load(4, 32), 0);
    }
    let word = IType { imm: 0x0ff, rs1: 0, funct3: 0, rd: 0 }.encode() | OPCODE_MISCMEM;
    assert_eq!(word, 0x0ff0_000f);
    let mut c = new_core(16);
    let word = IType { imm: 0, rs1: 0, funct3: 1, rd: 0 }.encode() | OPCODE_MISCMEM;
    assert_eq!(c.execute(word), EResult::NotFound);
}

#[test]
fn unknown_opcodes_are_declined() {
    let mut c = new_core(16);
    for word in [0u32, 0xffff_ffff, 0b0000111, 0b0100111, 0b1010011, 0x7f, 0b0000110, 0x0ff0_0006] {
        assert_eq!(c.execute(word), EResult::NotFound);
    }
    assert_eq!(*c.pc(), 0);
    assert_eq!(c.get(2), 16);
}

#[test]
fn instruction_reads_words_by_opcode() {
    assert_eq!(
        Instruction::decode(0x00130293),
        Some(Instruction::OpImm(IType { imm: 1, rs1: 6, funct3: 0, rd: 5 }))
    );
    assert_eq!(Instruction::decode(0xff9ff06f), Some(Instruction::Jal(JType { imm: -8, rd: 0 })));
    assert_eq!(Instruction::decode(0x00100073), None);
    assert_eq!(Instruction::decode(0), None);
}

#[test]
fn instruction_encode_inverts_decode() {
    for word in [0x00130293u32, 0x00128313, 0xff9ff06f, 0x123452b7, 0xfe20ae23, 0xfe208ce3, 0x002081b3, 0x00008067, 0x00012083, 0x00000017] {
        let ins = Instruction::decode(word).unwrap();
        assert_eq!(ins.encode(), word);
    }
}

#[test]
fn fence_fields_and_kinds() {
    use_fence(0x833, 0, 8, 3, 3, FenceKind::Tso);
    use_fence(0x010, 0, 0, 1, 0, FenceKind::Pause);
    use_fence(0x010, 1, 0, 1, 0, FenceKind::Fence);
    use_fence(0x0ff, 0, 0, 15, 15, FenceKind::Fence);
    use_fence(-1, 0, 15, 15, 15, FenceKind::Fence);
    use_fence(0, 0, 0, 0, 0, FenceKind::Fence);
}

fn use_fence(imm: i32, rs1: u8, fm: u8, pred: u8, succ: u8, kind: FenceKind) {
    let fence = Fence::of(imm);
    assert_eq!(fence, Fence { fm, pred, succ });
    assert_eq!(fence.kind(rs1), kind);
}

#[test]
fn bus_reports_its_size() {
    let c = new_core(1024);
    assert_eq!(c.bus_ref().size(), 1024);
    assert_eq!(Bus::new(DRam::new(0)).size(), 0);
}

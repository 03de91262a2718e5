//! The base integer engine: thirty-two registers, a program counter and the
//! bus, with the fetch and execute steps of the mandatory instruction set.
//!
//! `fetch` moves the program counter past the word it returns, so while a
//! word executes the counter holds the address of the next one. Everything
//! relative to the executing instruction is measured from the counter minus
//! four.

use crate::bus::Bus;
use crate::ins::BType;
use crate::ins::IType;
use crate::ins::JType;
use crate::ins::RType;
use crate::ins::SType;
use crate::ins::UType;
use crate::ins::OPCODE_AUIPC;
use crate::ins::OPCODE_BRANCH;
use crate::ins::OPCODE_JAL;
use crate::ins::OPCODE_JALR;
use crate::ins::OPCODE_LOAD;
use crate::ins::OPCODE_LUI;
use crate::ins::OPCODE_MASK;
use crate::ins::OPCODE_MISCMEM;
use crate::ins::OPCODE_OP;
use crate::ins::OPCODE_OPIMM;
use crate::ins::OPCODE_STORE;
use crate::ins::OPCODE_SYSTEM;
use crate::util::sign_extend;
use crate::util::sign_extend_spec;
use crate::Base;
use crate::EResult;
use crate::Volatile;
use vstd::prelude::*;

pub mod ins;

verus! {

/// The architectural state of the base engine.
pub struct CoreState {
    /// The thirty-two registers; register 0 is always zero.
    pub regs: Seq<i32>,
    /// The address of the next word to fetch.
    pub pc: i32,
    /// The bytes of the memory store.
    pub mem: Seq<u8>,
}

impl CoreState {
    /// The value of register `index`.
    pub open spec fn reg(self, index: u8) -> i32 {
        self.regs[index as int]
    }

    /// The state after `value` was written to register `rd`: unchanged for
    /// register 0.
    pub open spec fn write(self, rd: u8, value: i32) -> CoreState {
        if rd == 0 {
            self
        } else {
            CoreState { regs: self.regs.update(rd as int, value), ..self }
        }
    }

    /// The address of the instruction in execution.
    pub open spec fn current(self) -> i32 {
        self.pc.wrapping_sub(4)
    }

    /// The state with the program counter at `offset` from the instruction
    /// in execution.
    pub open spec fn jump(self, offset: i32) -> CoreState {
        CoreState { pc: self.current().wrapping_add(offset), ..self }
    }

    /// The byte address that a register value and an offset name.
    pub open spec fn address(base: i32, offset: i32) -> int {
        (base.wrapping_add(offset) as u32) as int
    }
}

/// A truth value as a register holds it.
pub open spec fn flag(b: bool) -> i32 {
    if b {
        1
    } else {
        0
    }
}

/// The number of places a register value shifts by: its low five bits.
pub open spec fn shift_amount(b: i32) -> u32 {
    (b as u32) % 32
}

/// Whether `funct3` names an arithmetic instruction with an immediate.
pub open spec fn op_imm_known(funct3: u8) -> bool {
    funct3 == 0 || funct3 == 2 || funct3 == 3 || funct3 == 4 || funct3 == 6 || funct3 == 7
}

/// What an immediate instruction computes from a register value and its
/// immediate: `addi`, `slti`, `sltiu`, `xori`, `ori`, `andi`.
pub open spec fn op_imm_value(funct3: u8, a: i32, imm: i32) -> i32 {
    if funct3 == 0 {
        a.wrapping_add(imm)
    } else if funct3 == 2 {
        flag(a < imm)
    } else if funct3 == 3 {
        flag((a as u32) < (imm as u32))
    } else if funct3 == 4 {
        a ^ imm
    } else if funct3 == 6 {
        a | imm
    } else {
        a & imm
    }
}

/// Whether `funct7` and `funct3` name an arithmetic instruction on two
/// registers.
pub open spec fn op_known(funct7: u8, funct3: u8) -> bool {
    (funct7 == 0 && funct3 < 8) || (funct7 == 32 && (funct3 == 0 || funct3 == 5))
}

/// What a register-register instruction computes: `add`, `sub`, `sll`,
/// `slt`, `sltu`, `xor`, `srl`, `sra`, `or`, `and`.
pub open spec fn op_value(funct7: u8, funct3: u8, a: i32, b: i32) -> i32 {
    if funct7 == 32 {
        if funct3 == 0 {
            a.wrapping_sub(b)
        } else {
            a >> shift_amount(b)
        }
    } else if funct3 == 0 {
        a.wrapping_add(b)
    } else if funct3 == 1 {
        ((a as u32) << shift_amount(b)) as i32
    } else if funct3 == 2 {
        flag(a < b)
    } else if funct3 == 3 {
        flag((a as u32) < (b as u32))
    } else if funct3 == 4 {
        a ^ b
    } else if funct3 == 5 {
        ((a as u32) >> shift_amount(b)) as i32
    } else if funct3 == 6 {
        a | b
    } else {
        a & b
    }
}

/// Whether `funct3` names a branch.
pub open spec fn branch_known(funct3: u8) -> bool {
    funct3 == 0 || funct3 == 1 || funct3 == 4 || funct3 == 5 || funct3 == 6 || funct3 == 7
}

/// Whether a branch is taken: `beq`, `bne`, `blt`, `bge`, `bltu`, `bgeu`.
pub open spec fn branch_taken(funct3: u8, a: i32, b: i32) -> bool {
    if funct3 == 0 {
        a == b
    } else if funct3 == 1 {
        a != b
    } else if funct3 == 4 {
        a < b
    } else if funct3 == 5 {
        a >= b
    } else if funct3 == 6 {
        (a as u32) < (b as u32)
    } else {
        (a as u32) >= (b as u32)
    }
}

/// Whether `funct3` names a load.
pub open spec fn load_known(funct3: u8) -> bool {
    funct3 == 0 || funct3 == 1 || funct3 == 2 || funct3 == 4 || funct3 == 5
}

/// What a load reads at `addr`: `lb`, `lh`, `lw`, `lbu`, `lhu`.
pub open spec fn load_value(mem: Seq<u8>, funct3: u8, addr: int) -> i32 {
    if funct3 == 0 {
        sign_extend_spec(Bus::spec_load(mem, addr, 8), 8)
    } else if funct3 == 1 {
        sign_extend_spec(Bus::spec_load(mem, addr, 16), 16)
    } else if funct3 == 2 {
        Bus::spec_load(mem, addr, 32) as i32
    } else if funct3 == 4 {
        Bus::spec_load(mem, addr, 8) as i32
    } else {
        Bus::spec_load(mem, addr, 16) as i32
    }
}

/// Whether `funct3` names a store.
pub open spec fn store_known(funct3: u8) -> bool {
    funct3 == 0 || funct3 == 1 || funct3 == 2
}

/// The width in bits that a store writes: `sb`, `sh`, `sw`.
pub open spec fn store_width(funct3: u8) -> u8 {
    if funct3 == 0 {
        8
    } else if funct3 == 1 {
        16
    } else {
        32
    }
}

/// Whether the fields name an environment call or break.
pub open spec fn system_known(funct3: u8, funct12: i32) -> bool {
    funct3 == 0 && (funct12 == 0 || funct12 == 1)
}

/// The fields of a fence: its mode and the two sets of accesses that it
/// orders, each a mask of input, output, read and write from bit 3 down.
#[derive(Clone, Copy, Debug, PartialEq, Eq, Structural)]
pub struct Fence {
    pub fm: u8,
    pub pred: u8,
    pub succ: u8,
}

/// What a fence asks for.
#[derive(Clone, Copy, Debug, PartialEq, Eq, Structural)]
pub enum FenceKind {
    /// `fence.tso`: mode 8 over reads and writes on both sides.
    Tso,
    /// `pause`: mode 0 with writes before, nothing after, and no register.
    Pause,
    /// Any other fence.
    Fence,
}

impl Fence {
    /// The fields in the low twelve bits of an immediate: the mode in bits
    /// 11..8, the predecessors in bits 7..4, the successors in bits 3..0.
    pub open spec fn spec_of(imm: i32) -> Fence {
        Fence {
            fm: (((imm as u32) >> 8) & 0xf) as u8,
            pred: (((imm as u32) >> 4) & 0xf) as u8,
            succ: ((imm as u32) & 0xf) as u8,
        }
    }

    /// What the fence asks for, given the `rs1` field of its word.
    pub open spec fn spec_kind(self, rs1: u8) -> FenceKind {
        if self.fm == 8 && self.pred == 3 && self.succ == 3 {
            FenceKind::Tso
        } else if self.fm == 0 && self.pred == 1 && self.succ == 0 && rs1 == 0 {
            FenceKind::Pause
        } else {
            FenceKind::Fence
        }
    }

    /// Reads the fields of a fence from the immediate of its word.
    pub fn of(imm: i32) -> (r: Fence)
        ensures
            r == Self::spec_of(imm),
    {
        let bits = imm as u32;
        Fence {
            fm: ((bits >> 8) & 0xf) as u8,
            pred: ((bits >> 4) & 0xf) as u8,
            succ: (bits & 0xf) as u8,
        }
    }

    /// Tells the fences with a name of their own from the rest.
    pub fn kind(&self, rs1: u8) -> (k: FenceKind)
        ensures
            k == self.spec_kind(rs1),
    {
        if self.fm == 8 && self.pred == 3 && self.succ == 3 {
            FenceKind::Tso
        } else if self.fm == 0 && self.pred == 1 && self.succ == 0 && rs1 == 0 {
            FenceKind::Pause
        } else {
            FenceKind::Fence
        }
    }
}

/// The base integer engine.
#[derive(Debug)]
pub struct RV32I {
    registers: [i32; 32],
    pc: i32,
    bus: Bus,
}

impl View for RV32I {
    type V = CoreState;

    closed spec fn view(&self) -> CoreState {
        CoreState {
            regs: Seq::new(
                32,
                |i: int|
                    if i == 0 {
                        0
                    } else {
                        self.registers[i]
                    },
            ),
            pc: self.pc,
            mem: self.bus@,
        }
    }
}

impl RV32I {
    /// The state after a fetch, and the word that was fetched: the one at
    /// the program counter, which moves on by four.
    pub open spec fn spec_fetch(s: CoreState) -> (CoreState, i32) {
        (
            CoreState { pc: s.pc.wrapping_add(4), ..s },
            Bus::spec_load(s.mem, (s.pc as u32) as int, 32) as i32,
        )
    }

    /// The state after the base engine executed `ins`, and what it reports.
    pub open spec fn spec_execute(s: CoreState, ins: u32) -> (CoreState, EResult) {
        let op = ins & OPCODE_MASK;
        if op == OPCODE_OPIMM {
            let d = IType::spec_decode(ins);
            if op_imm_known(d.funct3) {
                (s.write(d.rd, op_imm_value(d.funct3, s.reg(d.rs1), d.imm)), EResult::Found)
            } else {
                (s, EResult::NotFound)
            }
        } else if op == OPCODE_LUI {
            let d = UType::spec_decode(ins);
            (s.write(d.rd, d.spec_upper()), EResult::Found)
        } else if op == OPCODE_AUIPC {
            let d = UType::spec_decode(ins);
            (s.write(d.rd, d.spec_upper().wrapping_add(s.current())), EResult::Found)
        } else if op == OPCODE_OP {
            let d = RType::spec_decode(ins);
            if op_known(d.funct7, d.funct3) {
                (
                    s.write(d.rd, op_value(d.funct7, d.funct3, s.reg(d.rs1), s.reg(d.rs2))),
                    EResult::Found,
                )
            } else {
                (s, EResult::NotFound)
            }
        } else if op == OPCODE_JAL {
            let d = JType::spec_decode(ins);
            (s.write(d.rd, s.pc).jump(d.imm), EResult::Found)
        } else if op == OPCODE_JALR {
            let d = IType::spec_decode(ins);
            (s.write(d.rd, s.pc).jump(s.reg(d.rs1).wrapping_add(d.imm)), EResult::Found)
        } else if op == OPCODE_BRANCH {
            let d = BType::spec_decode(ins);
            if !branch_known(d.funct3) {
                (s, EResult::NotFound)
            } else if branch_taken(d.funct3, s.reg(d.rs1), s.reg(d.rs2)) {
                (s.jump(d.imm), EResult::Found)
            } else {
                (s, EResult::Found)
            }
        } else if op == OPCODE_LOAD {
            let d = IType::spec_decode(ins);
            if load_known(d.funct3) {
                (
                    s.write(
                        d.rd,
                        load_value(s.mem, d.funct3, CoreState::address(s.reg(d.rs1), d.imm)),
                    ),
                    EResult::Found,
                )
            } else {
                (s, EResult::NotFound)
            }
        } else if op == OPCODE_STORE {
            let d = SType::spec_decode(ins);
            if store_known(d.funct3) {
                (
                    CoreState {
                        mem: Bus::spec_store(
                            s.mem,
                            CoreState::address(s.reg(d.rs1), d.imm),
                            store_width(d.funct3),
                            s.reg(d.rs2) as u32,
                        ),
                        ..s
                    },
                    EResult::Found,
                )
            } else {
                (s, EResult::NotFound)
            }
        } else if op == OPCODE_SYSTEM {
            let d = IType::spec_decode(ins);
            if d.funct3 == 0 && d.imm == 0 {
                (s, EResult::ECall)
            } else if d.funct3 == 0 && d.imm == 1 {
                (s, EResult::EBreak)
            } else {
                (s, EResult::NotFound)
            }
        } else if op == OPCODE_MISCMEM {
            let d = IType::spec_decode(ins);
            if d.funct3 == 0 {
                (s, EResult::Found)
            } else {
                (s, EResult::NotFound)
            }
        } else {
            (s, EResult::NotFound)
        }
    }

    /// A core at address 0 whose registers are zero, but for the stack
    /// pointer, register 2, which holds the size of the memory.
    pub fn new(bus: Bus) -> (r: Self)
        ensures
            r@.regs == Seq::new(32, |i: int| 0i32).update(2, bus@.len() as i32),
            r@.pc == 0,
            r@.mem == bus@,
    {
        let mut registers = [0i32;32];
        registers[2] = bus.dram.size() as i32;
        let r = Self { registers, pc: 0, bus };
        assert(r@.regs =~= Seq::new(32, |i: int| 0i32).update(2, bus@.len() as i32));
        r
    }

    /// The bus, to read and write memory through.
    pub fn bus(&mut self) -> (ret: &mut Bus)
        ensures
            ret@ == old(self)@.mem,
            final(self)@ == (CoreState { mem: final(ret)@, ..old(self)@ }),
    {
        &mut self.bus
    }

    /// The bus, to read memory through.
    pub fn bus_ref(&self) -> (ret: &Bus)
        ensures
            ret@ == self@.mem,
    {
        &self.bus
    }

    /// The program counter: the address of the next word to fetch.
    pub fn pc(&self) -> (ret: &i32)
        ensures
            *ret == self@.pc,
    {
        &self.pc
    }
}

impl Volatile<i32> for RV32I {
    open spec fn count() -> usize {
        32
    }

    open spec fn reg(&self, index: usize) -> i32 {
        self@.regs[index as int]
    }

    open spec fn hardwired(index: usize) -> bool {
        index == 0
    }

    fn set(&mut self, i: usize, value: i32)
        ensures
            final(self)@ == old(self)@.write(i as u8, value),
            i == 0 ==> *final(self) == *old(self),
    {
        if i == 0 {
            return ;
        }
        self.registers[i] = value;
        assert(self@.regs =~= old(self)@.regs.update(i as int, value));
    }

    fn get(&self, i: usize) -> (value: i32)
        ensures
            i == 0 ==> value == 0,
    {
        if i == 0 {
            0
        } else {
            self.registers[i]
        }
    }
}

impl RV32I {
    /// There are thirty-two registers, and register 0 holds zero.
    pub proof fn lemma_registers(&self)
        ensures
            self@.regs.len() == 32,
            self@.regs[0] == 0,
    {
    }
}

impl RV32I {
    /// The base engine reports a word as not recognized exactly where it
    /// does not recognize it, and then the state is as it was.
    pub proof fn law_declined_is_untouched(s: CoreState, ins: u32)
        ensures
            (Self::spec_execute(s, ins).1 is NotFound) == !Self::recognizes(ins),
            Self::spec_execute(s, ins).1 is NotFound ==> Self::spec_execute(s, ins).0 == s,
    {
    }

    /// The two environment instructions leave the state as it was.
    pub proof fn law_traps_change_nothing(s: CoreState, ins: u32)
        ensures
            Self::spec_execute(s, ins).1 is ECall || Self::spec_execute(s, ins).1 is EBreak
                ==> Self::spec_execute(s, ins).0 == s,
    {
    }

    /// Register 0 reads as zero after any write to it, and a write to it
    /// changes nothing.
    pub proof fn law_register_zero(s: CoreState, value: i32)
        requires
            s.regs.len() == 32,
            s.regs[0] == 0,
        ensures
            s.write(0, value) == s,
            s.write(0, value).reg(0) == 0,
            forall|rd: u8| rd < 32 ==> (#[trigger] s.write(rd, value)).reg(0) == 0,
    {
    }
}

/// Computes an arithmetic instruction with an immediate; `None` where
/// `funct3` names none.
fn op_imm(funct3: u8, a: i32, imm: i32) -> (r: Option<i32>)
    ensures
        r is Some == op_imm_known(funct3),
        r matches Some(v) ==> v == op_imm_value(funct3, a, imm),
{
    if funct3 == 0 {
        Some(a.wrapping_add(imm))  // addi
    } else if funct3 == 2 {
        Some((a < imm) as i32)  // slti
    } else if funct3 == 3 {
        Some(((a as u32) < (imm as u32)) as i32)  // sltiu
    } else if funct3 == 4 {
        Some(a ^ imm)  // xori
    } else if funct3 == 6 {
        Some(a | imm)  // ori
    } else if funct3 == 7 {
        Some(a & imm)  // andi
    } else {
        None
    }
}

/// Computes an arithmetic instruction on two registers; `None` where
/// `funct7` and `funct3` name none.
fn op(funct7: u8, funct3: u8, a: i32, b: i32) -> (r: Option<i32>)
    requires
        funct3 < 8,
    ensures
        r is Some == op_known(funct7, funct3),
        r matches Some(v) ==> v == op_value(funct7, funct3, a, b),
{
    let amount: u32 = (b as u32) % 32;
    if funct7 == 32 {
        if funct3 == 0 {
            Some(a.wrapping_sub(b))  // sub
        } else if funct3 == 5 {
            Some(a >> amount)  // sra
        } else {
            None
        }
    } else if funct7 != 0 {
        None
    } else if funct3 == 0 {
        Some(a.wrapping_add(b))  // add
    } else if funct3 == 1 {
        Some(((a as u32) << amount) as i32)  // sll
    } else if funct3 == 2 {
        Some((a < b) as i32)  // slt
    } else if funct3 == 3 {
        Some(((a as u32) < (b as u32)) as i32)  // sltu
    } else if funct3 == 4 {
        Some(a ^ b)  // xor
    } else if funct3 == 5 {
        Some(((a as u32) >> amount) as i32)  // srl
    } else if funct3 == 6 {
        Some(a | b)  // or
    } else {
        Some(a & b)  // and
    }
}

/// Decides a branch; `None` where `funct3` names none.
fn branch(funct3: u8, a: i32, b: i32) -> (r: Option<bool>)
    ensures
        r is Some == branch_known(funct3),
        r matches Some(taken) ==> taken == branch_taken(funct3, a, b),
{
    if funct3 == 0 {
        Some(a == b)  // beq
    } else if funct3 == 1 {
        Some(a != b)  // bne
    } else if funct3 == 4 {
        Some(a < b)  // blt
    } else if funct3 == 5 {
        Some(a >= b)  // bge
    } else if funct3 == 6 {
        Some((a as u32) < (b as u32))  // bltu
    } else if funct3 == 7 {
        Some((a as u32) >= (b as u32))  // bgeu
    } else {
        None
    }
}

/// Reads what a load loads; `None` where `funct3` names none.
fn load(bus: &Bus, funct3: u8, addr: usize) -> (r: Option<i32>)
    ensures
        r is Some == load_known(funct3),
        r matches Some(v) ==> v == load_value(bus@, funct3, addr as int),
{
    if funct3 == 0 {
        Some(sign_extend(bus.load(addr, 8), 8))  // lb
    } else if funct3 == 1 {
        Some(sign_extend(bus.load(addr, 16), 16))  // lh
    } else if funct3 == 2 {
        Some(bus.load(addr, 32) as i32)  // lw
    } else if funct3 == 4 {
        Some(bus.load(addr, 8) as i32)  // lbu
    } else if funct3 == 5 {
        Some(bus.load(addr, 16) as i32)  // lhu
    } else {
        None
    }
}

/// The width that a store writes; `None` where `funct3` names none.
fn width(funct3: u8) -> (r: Option<u8>)
    ensures
        r is Some == store_known(funct3),
        r matches Some(w) ==> w == store_width(funct3),
{
    if funct3 == 0 {
        Some(8)  // sb
    } else if funct3 == 1 {
        Some(16)  // sh
    } else if funct3 == 2 {
        Some(32)  // sw
    } else {
        None
    }
}

impl Base<i32> for RV32I {
    open spec fn recognizes(ins: u32) -> bool {
        let op = ins & OPCODE_MASK;
        let i = IType::spec_decode(ins);
        let r = RType::spec_decode(ins);
        ||| op == OPCODE_OPIMM && op_imm_known(i.funct3)
        ||| op == OPCODE_LUI
        ||| op == OPCODE_AUIPC
        ||| op == OPCODE_OP && op_known(r.funct7, r.funct3)
        ||| op == OPCODE_JAL
        ||| op == OPCODE_JALR
        ||| op == OPCODE_BRANCH && branch_known(BType::spec_decode(ins).funct3)
        ||| op == OPCODE_LOAD && load_known(i.funct3)
        ||| op == OPCODE_STORE && store_known(SType::spec_decode(ins).funct3)
        ||| op == OPCODE_SYSTEM && system_known(i.funct3, i.imm)
        ||| op == OPCODE_MISCMEM && i.funct3 == 0
    }

    // ---- Fetch ----
    fn fetch(&mut self) -> (word: i32)
        ensures
            (final(self)@, word) == Self::spec_fetch(old(self)@),
    {
        let value = self.bus.load((self.pc as u32) as usize, 32);
        self.pc = self.pc.wrapping_add(4);
        assert(self@.regs =~= old(self)@.regs);
        value as i32
    }

    // ---- Execution ----
    fn execute(&mut self, ins: u32) -> (r: EResult)
        ensures
            (final(self)@, r) == Self::spec_execute(old(self)@, ins),
    {
        let opcode = ins & OPCODE_MASK;
        if opcode == OPCODE_OPIMM {
            let data = IType::decode(ins);
            let rs1 = self.get(data.rs1 as usize);
            match op_imm(data.funct3, rs1, data.imm) {
                Some(value) => self.set(data.rd as usize, value),
                None => return EResult::NotFound,
            }
        } else if opcode == OPCODE_LUI {
            let data = UType::decode(ins);
            self.set(data.rd as usize, data.upper());
        } else if opcode == OPCODE_AUIPC {
            let data = UType::decode(ins);
            let value = data.upper().wrapping_add(self.pc.wrapping_sub(4));
            self.set(data.rd as usize, value);
        } else if opcode == OPCODE_OP {
            let data = RType::decode(ins);
            let rs1 = self.get(data.rs1 as usize);
            let rs2 = self.get(data.rs2 as usize);
            match op(data.funct7, data.funct3, rs1, rs2) {
                Some(value) => self.set(data.rd as usize, value),
                None => return EResult::NotFound,
            }
        } else if opcode == OPCODE_JAL {
            let data = JType::decode(ins);
            let next = self.pc;
            self.set(data.rd as usize, next);
            self.pc = next.wrapping_sub(4).wrapping_add(data.imm);
        } else if opcode == OPCODE_JALR {
            let data = IType::decode(ins);
            let rs1 = self.get(data.rs1 as usize).wrapping_add(data.imm);
            let next = self.pc;
            self.set(data.rd as usize, next);
            self.pc = next.wrapping_sub(4).wrapping_add(rs1);
        } else if opcode == OPCODE_BRANCH {
            let data = BType::decode(ins);
            let rs1 = self.get(data.rs1 as usize);
            let rs2 = self.get(data.rs2 as usize);
            match branch(data.funct3, rs1, rs2) {
                Some(true) => {
                    self.pc = self.pc.wrapping_sub(4).wrapping_add(data.imm);
                },
                Some(false) => (),
                None => return EResult::NotFound,
            }
        } else if opcode == OPCODE_LOAD {
            let data = IType::decode(ins);
            let rs1 = (self.get(data.rs1 as usize).wrapping_add(data.imm) as u32) as usize;
            match load(&self.bus, data.funct3, rs1) {
                Some(value) => self.set(data.rd as usize, value),
                None => return EResult::NotFound,
            }
        } else if opcode == OPCODE_STORE {
            let data = SType::decode(ins);
            let rs1 = (self.get(data.rs1 as usize).wrapping_add(data.imm) as u32) as usize;
            let rs2 = self.get(data.rs2 as usize) as u32;
            match width(data.funct3) {
                Some(size) => self.bus.store(rs1, size, rs2),
                None => return EResult::NotFound,
            }
        } else if opcode == OPCODE_SYSTEM {
            let data = IType::decode(ins);
            let funct12 = data.imm;
            if funct12 == 0 && data.funct3 == 0 {
                return EResult::ECall;
            } else if funct12 == 1 && data.funct3 == 0 {
                return EResult::EBreak;
            } else {
                return EResult::NotFound;
            }
        } else if opcode == OPCODE_MISCMEM {
            let data = IType::decode(ins);
            if data.funct3 != 0 {
                return EResult::NotFound;
            }
            // One hart sees its own accesses in order: no fence has anything to do.
            match Fence::of(data.imm).kind(data.rs1) {
                FenceKind::Tso => (),
                FenceKind::Pause => (),
                FenceKind::Fence => (),
            }
        } else {
            return EResult::NotFound;
        }
        EResult::Found
    }
}

} // verus!

//! From instruction words to text.
//!
//! A word of the base instruction set is written as its mnemonic and its
//! operands, registers as `x` and their number, immediates in decimal; a
//! fence is written with its two masks as numbers. Any other word is written
//! `?`.

use crate::ins::BType;
use crate::ins::IType;
use crate::ins::JType;
use crate::ins::RType;
use crate::ins::SType;
use crate::ins::UType;
use crate::ins::OPCODE_AUIPC;
use crate::ins::OPCODE_BRANCH;
use crate::ins::OPCODE_JAL;
use crate::ins::OPCODE_JALR;
use crate::ins::OPCODE_LOAD;
use crate::ins::OPCODE_LUI;
use crate::ins::OPCODE_MASK;
use crate::ins::OPCODE_MISCMEM;
use crate::ins::OPCODE_OP;
use crate::ins::OPCODE_OPIMM;
use crate::ins::OPCODE_STORE;
use crate::ins::OPCODE_SYSTEM;
use crate::rv32i::branch_known;
use crate::rv32i::load_known;
use crate::rv32i::op_imm_known;
use crate::rv32i::op_known;
use crate::rv32i::store_known;
use crate::rv32i::Fence;
use vstd::prelude::*;
use vstd::string::*;

verus! {

// ---- Numbers ----
/// The character of a decimal digit.
pub open spec fn digit_char(d: nat) -> char {
    ((d + 48) as u8) as char
}

/// A number in decimal, without leading zeros.
pub open spec fn nat_decimal(n: nat) -> Seq<char>
    decreases n,
{
    if n < 10 {
        seq![digit_char(n)]
    } else {
        nat_decimal(n / 10).push(digit_char(n % 10))
    }
}

/// A number in decimal, with a minus sign where it is negative.
pub open spec fn decimal(v: int) -> Seq<char> {
    if v < 0 {
        "-"@ + nat_decimal((-v) as nat)
    } else {
        nat_decimal(v as nat)
    }
}

fn digit_text(d: u32) -> (s: &'static str)
    requires
        d < 10,
    ensures
        s@ == seq![digit_char(d as nat)],
{
    proof {
        reveal_strlit("0");
        reveal_strlit("1");
        reveal_strlit("2");
        reveal_strlit("3");
        reveal_strlit("4");
        reveal_strlit("5");
        reveal_strlit("6");
        reveal_strlit("7");
        reveal_strlit("8");
        reveal_strlit("9");
    }
    let s = if d == 0 {
        "0"
    } else if d == 1 {
        "1"
    } else if d == 2 {
        "2"
    } else if d == 3 {
        "3"
    } else if d == 4 {
        "4"
    } else if d == 5 {
        "5"
    } else if d == 6 {
        "6"
    } else if d == 7 {
        "7"
    } else if d == 8 {
        "8"
    } else {
        "9"
    };
    assert(s@ =~= seq![digit_char(d as nat)]);
    s
}

fn push_nat(out: &mut String, n: u32)
    ensures
        final(out)@ == old(out)@ + nat_decimal(n as nat),
    decreases n,
{
    if n >= 10 {
        push_nat(out, n / 10);
    }
    out.append(digit_text(n % 10));
    assert(out@ =~= old(out)@ + nat_decimal(n as nat));
}

/// The characters of `n` in decimal.
pub fn digits_of(n: u32) -> (v: Vec<char>)
    ensures
        v@ == nat_decimal(n as nat),
    decreases n,
{
    let mut v: Vec<char> = if n >= 10 {
        digits_of(n / 10)
    } else {
        Vec::new()
    };
    v.push(((n % 10) as u8 + 48) as char);
    assert(v@ =~= nat_decimal(n as nat));
    v
}

/// The characters of `v` in decimal.
pub fn chars_of_int(v: i32) -> (r: Vec<char>)
    ensures
        r@ == decimal(v as int),
{
    proof {
        reveal_strlit("-");
    }
    if v < 0 {
        let mut r: Vec<char> = Vec::new();
        r.push('-');
        let mut digits = digits_of((-(v as i64)) as u32);
        r.append(&mut digits);
        assert(r@ =~= decimal(v as int));
        r
    } else {
        digits_of(v as u32)
    }
}

fn push_int(out: &mut String, v: i32)
    ensures
        final(out)@ == old(out)@ + decimal(v as int),
{
    if v < 0 {
        out.append("-");
        push_nat(out, (-(v as i64)) as u32);
        assert(out@ =~= old(out)@ + decimal(v as int));
    } else {
        push_nat(out, v as u32);
    }
}

// ---- Lines ----
/// `name x{a}, x{b}, x{c}`
pub open spec fn line_rrr(name: Seq<char>, a: u8, b: u8, c: u8) -> Seq<char> {
    name + " x"@ + nat_decimal(a as nat) + ", x"@ + nat_decimal(b as nat) + ", x"@ + nat_decimal(
        c as nat,
    )
}

/// `name x{a}, x{b}, {imm}`
pub open spec fn line_rri(name: Seq<char>, a: u8, b: u8, imm: i32) -> Seq<char> {
    name + " x"@ + nat_decimal(a as nat) + ", x"@ + nat_decimal(b as nat) + ", "@ + decimal(
        imm as int,
    )
}

/// `name x{a}, {imm}`
pub open spec fn line_ri(name: Seq<char>, a: u8, imm: i32) -> Seq<char> {
    name + " x"@ + nat_decimal(a as nat) + ", "@ + decimal(imm as int)
}

/// `name x{a}, {imm}(x{b})`
pub open spec fn line_rir(name: Seq<char>, a: u8, imm: i32, b: u8) -> Seq<char> {
    name + " x"@ + nat_decimal(a as nat) + ", "@ + decimal(imm as int) + "(x"@ + nat_decimal(
        b as nat,
    ) + ")"@
}

/// `name {a}, {b}`
pub open spec fn line_nn(name: Seq<char>, a: u8, b: u8) -> Seq<char> {
    name + " "@ + nat_decimal(a as nat) + ", "@ + nat_decimal(b as nat)
}

fn write_nn(name: &str, a: u8, b: u8) -> (s: String)
    ensures
        s@ == line_nn(name@, a, b),
{
    let mut s = String::from_str(name);
    s.append(" ");
    push_nat(&mut s, a as u32);
    s.append(", ");
    push_nat(&mut s, b as u32);
    s
}

fn write_rrr(name: &str, a: u8, b: u8, c: u8) -> (s: String)
    ensures
        s@ == line_rrr(name@, a, b, c),
{
    let mut s = String::from_str(name);
    s.append(" x");
    push_nat(&mut s, a as u32);
    s.append(", x");
    push_nat(&mut s, b as u32);
    s.append(", x");
    push_nat(&mut s, c as u32);
    s
}

fn write_rri(name: &str, a: u8, b: u8, imm: i32) -> (s: String)
    ensures
        s@ == line_rri(name@, a, b, imm),
{
    let mut s = String::from_str(name);
    s.append(" x");
    push_nat(&mut s, a as u32);
    s.append(", x");
    push_nat(&mut s, b as u32);
    s.append(", ");
    push_int(&mut s, imm);
    s
}

fn write_ri(name: &str, a: u8, imm: i32) -> (s: String)
    ensures
        s@ == line_ri(name@, a, imm),
{
    let mut s = String::from_str(name);
    s.append(" x");
    push_nat(&mut s, a as u32);
    s.append(", ");
    push_int(&mut s, imm);
    s
}

fn write_rir(name: &str, a: u8, imm: i32, b: u8) -> (s: String)
    ensures
        s@ == line_rir(name@, a, imm, b),
{
    let mut s = String::from_str(name);
    s.append(" x");
    push_nat(&mut s, a as u32);
    s.append(", ");
    push_int(&mut s, imm);
    s.append("(x");
    push_nat(&mut s, b as u32);
    s.append(")");
    s
}

// ---- Mnemonics ----
/// The mnemonic of an arithmetic instruction with an immediate.
pub open spec fn name_op_imm(funct3: u8) -> Seq<char> {
    if funct3 == 0 {
        "addi"@
    } else if funct3 == 2 {
        "slti"@
    } else if funct3 == 3 {
        "sltiu"@
    } else if funct3 == 4 {
        "xori"@
    } else if funct3 == 6 {
        "ori"@
    } else {
        "andi"@
    }
}

/// The mnemonic of an arithmetic instruction on two registers.
pub open spec fn name_op(funct7: u8, funct3: u8) -> Seq<char> {
    if funct7 == 32 {
        if funct3 == 0 {
            "sub"@
        } else {
            "sra"@
        }
    } else if funct3 == 0 {
        "add"@
    } else if funct3 == 1 {
        "sll"@
    } else if funct3 == 2 {
        "slt"@
    } else if funct3 == 3 {
        "sltu"@
    } else if funct3 == 4 {
        "xor"@
    } else if funct3 == 5 {
        "srl"@
    } else if funct3 == 6 {
        "or"@
    } else {
        "and"@
    }
}

/// The mnemonic of a branch.
pub open spec fn name_branch(funct3: u8) -> Seq<char> {
    if funct3 == 0 {
        "beq"@
    } else if funct3 == 1 {
        "bne"@
    } else if funct3 == 4 {
        "blt"@
    } else if funct3 == 5 {
        "bge"@
    } else if funct3 == 6 {
        "bltu"@
    } else {
        "bgeu"@
    }
}

/// The mnemonic of a load.
pub open spec fn name_load(funct3: u8) -> Seq<char> {
    if funct3 == 0 {
        "lb"@
    } else if funct3 == 1 {
        "lh"@
    } else if funct3 == 2 {
        "lw"@
    } else if funct3 == 4 {
        "lbu"@
    } else {
        "lhu"@
    }
}

/// The mnemonic of a store.
pub open spec fn name_store(funct3: u8) -> Seq<char> {
    if funct3 == 0 {
        "sb"@
    } else if funct3 == 1 {
        "sh"@
    } else {
        "sw"@
    }
}

fn op_imm_name(funct3: u8) -> (r: Option<&'static str>)
    ensures
        r is Some == op_imm_known(funct3),
        r matches Some(s) ==> s@ == name_op_imm(funct3),
{
    if funct3 == 0 {
        Some("addi")
    } else if funct3 == 2 {
        Some("slti")
    } else if funct3 == 3 {
        Some("sltiu")
    } else if funct3 == 4 {
        Some("xori")
    } else if funct3 == 6 {
        Some("ori")
    } else if funct3 == 7 {
        Some("andi")
    } else {
        None
    }
}

fn op_name(funct7: u8, funct3: u8) -> (r: Option<&'static str>)
    requires
        funct3 < 8,
    ensures
        r is Some == op_known(funct7, funct3),
        r matches Some(s) ==> s@ == name_op(funct7, funct3),
{
    if funct7 == 32 {
        if funct3 == 0 {
            Some("sub")
        } else if funct3 == 5 {
            Some("sra")
        } else {
            None
        }
    } else if funct7 != 0 {
        None
    } else if funct3 == 0 {
        Some("add")
    } else if funct3 == 1 {
        Some("sll")
    } else if funct3 == 2 {
        Some("slt")
    } else if funct3 == 3 {
        Some("sltu")
    } else if funct3 == 4 {
        Some("xor")
    } else if funct3 == 5 {
        Some("srl")
    } else if funct3 == 6 {
        Some("or")
    } else {
        Some("and")
    }
}

fn branch_name(funct3: u8) -> (r: Option<&'static str>)
    ensures
        r is Some == branch_known(funct3),
        r matches Some(s) ==> s@ == name_branch(funct3),
{
    if funct3 == 0 {
        Some("beq")
    } else if funct3 == 1 {
        Some("bne")
    } else if funct3 == 4 {
        Some("blt")
    } else if funct3 == 5 {
        Some("bge")
    } else if funct3 == 6 {
        Some("bltu")
    } else if funct3 == 7 {
        Some("bgeu")
    } else {
        None
    }
}

fn load_name(funct3: u8) -> (r: Option<&'static str>)
    ensures
        r is Some == load_known(funct3),
        r matches Some(s) ==> s@ == name_load(funct3),
{
    if funct3 == 0 {
        Some("lb")
    } else if funct3 == 1 {
        Some("lh")
    } else if funct3 == 2 {
        Some("lw")
    } else if funct3 == 4 {
        Some("lbu")
    } else if funct3 == 5 {
        Some("lhu")
    } else {
        None
    }
}

fn store_name(funct3: u8) -> (r: Option<&'static str>)
    ensures
        r is Some == store_known(funct3),
        r matches Some(s) ==> s@ == name_store(funct3),
{
    if funct3 == 0 {
        Some("sb")
    } else if funct3 == 1 {
        Some("sh")
    } else if funct3 == 2 {
        Some("sw")
    } else {
        None
    }
}

// ---- Decode ----
/// The text of a word of the base instruction set.
pub open spec fn spec_decode_rv32i(ins: u32) -> Option<Seq<char>> {
    let op = ins & OPCODE_MASK;
    if op == OPCODE_OPIMM {
        let d = IType::spec_decode(ins);
        if op_imm_known(d.funct3) {
            Some(line_rri(name_op_imm(d.funct3), d.rd, d.rs1, d.imm))
        } else {
            None
        }
    } else if op == OPCODE_LUI {
        let d = UType::spec_decode(ins);
        Some(line_ri("lui"@, d.rd, d.imm))
    } else if op == OPCODE_AUIPC {
        let d = UType::spec_decode(ins);
        Some(line_ri("auipc"@, d.rd, d.imm))
    } else if op == OPCODE_OP {
        let d = RType::spec_decode(ins);
        if op_known(d.funct7, d.funct3) {
            Some(line_rrr(name_op(d.funct7, d.funct3), d.rd, d.rs1, d.rs2))
        } else {
            None
        }
    } else if op == OPCODE_JAL {
        let d = JType::spec_decode(ins);
        Some(line_ri("jal"@, d.rd, d.imm))
    } else if op == OPCODE_JALR {
        let d = IType::spec_decode(ins);
        Some(line_rir("jalr"@, d.rd, d.imm, d.rs1))
    } else if op == OPCODE_BRANCH {
        let d = BType::spec_decode(ins);
        if branch_known(d.funct3) {
            Some(line_rri(name_branch(d.funct3), d.rs1, d.rs2, d.imm))
        } else {
            None
        }
    } else if op == OPCODE_LOAD {
        let d = IType::spec_decode(ins);
        if load_known(d.funct3) {
            Some(line_rir(name_load(d.funct3), d.rd, d.imm, d.rs1))
        } else {
            None
        }
    } else if op == OPCODE_STORE {
        let d = SType::spec_decode(ins);
        if store_known(d.funct3) {
            Some(line_rir(name_store(d.funct3), d.rs2, d.imm, d.rs1))
        } else {
            None
        }
    } else if op == OPCODE_SYSTEM {
        let d = IType::spec_decode(ins);
        if d.funct3 == 0 && d.imm == 0 {
            Some("ecall"@)
        } else if d.funct3 == 0 && d.imm == 1 {
            Some("ebreak"@)
        } else {
            None
        }
    } else if op == OPCODE_MISCMEM {
        let d = IType::spec_decode(ins);
        let fence = Fence::spec_of(d.imm);
        if d.funct3 == 0 {
            Some(line_nn("fence"@, fence.pred, fence.succ))
        } else {
            None
        }
    } else {
        None
    }
}

/// The text of a word: that of the base instruction set, or `?`.
pub open spec fn spec_decode_instruction(binary: u32) -> Seq<char> {
    match spec_decode_rv32i(binary) {
        Some(text) => text,
        None => "?"@,
    }
}

/// Writes a word as text: an instruction of the base set, or `?`.
pub fn decode_instruction(binary: u32) -> (s: String)
    ensures
        s@ == spec_decode_instruction(binary),
{
    match decode_rv32i(binary) {
        Some(text) => text,
        None => String::from_str("?"),
    }
}

/// Writes a word of the base instruction set as text; `None` for any other
/// word.
pub fn decode_rv32i(ins: u32) -> (r: Option<String>)
    ensures
        match spec_decode_rv32i(ins) {
            Some(text) => r matches Some(s) && s@ == text,
            None => r is None,
        },
{
    let opcode = ins & OPCODE_MASK;
    if opcode == OPCODE_OPIMM {
        let data = IType::decode(ins);
        let name = op_imm_name(data.funct3)?;
        Some(write_rri(name, data.rd, data.rs1, data.imm))
    } else if opcode == OPCODE_LUI {
        let data = UType::decode(ins);
        Some(write_ri("lui", data.rd, data.imm))
    } else if opcode == OPCODE_AUIPC {
        let data = UType::decode(ins);
        Some(write_ri("auipc", data.rd, data.imm))
    } else if opcode == OPCODE_OP {
        let data = RType::decode(ins);
        let name = op_name(data.funct7, data.funct3)?;
        Some(write_rrr(name, data.rd, data.rs1, data.rs2))
    } else if opcode == OPCODE_JAL {
        let data = JType::decode(ins);
        Some(write_ri("jal", data.rd, data.imm))
    } else if opcode == OPCODE_JALR {
        let data = IType::decode(ins);
        Some(write_rir("jalr", data.rd, data.imm, data.rs1))
    } else if opcode == OPCODE_BRANCH {
        let data = BType::decode(ins);
        let name = branch_name(data.funct3)?;
        Some(write_rri(name, data.rs1, data.rs2, data.imm))
    } else if opcode == OPCODE_LOAD {
        let data = IType::decode(ins);
        let name = load_name(data.funct3)?;
        Some(write_rir(name, data.rd, data.imm, data.rs1))
    } else if opcode == OPCODE_STORE {
        let data = SType::decode(ins);
        let name = store_name(data.funct3)?;
        Some(write_rir(name, data.rs2, data.imm, data.rs1))
    } else if opcode == OPCODE_SYSTEM {
        let data = IType::decode(ins);
        let funct12 = data.imm;
        if funct12 == 0 && data.funct3 == 0 {
            Some(String::from_str("ecall"))
        } else if funct12 == 1 && data.funct3 == 0 {
            Some(String::from_str("ebreak"))
        } else {
            None
        }
    } else if opcode == OPCODE_MISCMEM {
        let data = IType::decode(ins);
        if data.funct3 != 0 {
            return None;
        }
        let fence = Fence::of(data.imm);
        Some(write_nn("fence", fence.pred, fence.succ))
    } else {
        None
    }
}

} // verus!

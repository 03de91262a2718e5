//! What reading and writing have to do with each other: a line that was
//! written from a word reads back as that word.

use crate::ins::BType;
use crate::ins::IType;
use crate::ins::JType;
use crate::ins::OPCODE_AUIPC;
use crate::ins::OPCODE_BRANCH;
use crate::ins::OPCODE_JAL;
use crate::ins::OPCODE_JALR;
use crate::ins::OPCODE_LOAD;
use crate::ins::OPCODE_LUI;
use crate::ins::OPCODE_MASK;
use crate::ins::OPCODE_OP;
use crate::ins::OPCODE_OPIMM;
use crate::ins::OPCODE_STORE;
use crate::ins::OPCODE_SYSTEM;
use crate::ins::RType;
use crate::ins::SType;
use crate::ins::UType;
use crate::ins::types::SHAPE_MASK;
use crate::instruction::decode::decimal;
use crate::instruction::decode::digit_char;
use crate::instruction::decode::line_nn;
use crate::instruction::decode::line_ri;
use crate::instruction::decode::line_rir;
use crate::instruction::decode::line_rri;
use crate::instruction::decode::line_rrr;
use crate::instruction::decode::name_branch;
use crate::instruction::decode::name_load;
use crate::instruction::decode::name_op;
use crate::instruction::decode::name_op_imm;
use crate::instruction::decode::name_store;
use crate::instruction::decode::nat_decimal;
use crate::instruction::decode::spec_decode_rv32i;
use crate::instruction::encode::Entry;
use crate::instruction::encode::Form;
use crate::instruction::encode::all_digits;
use crate::instruction::encode::digit_of;
use crate::instruction::encode::digits_acc;
use crate::instruction::encode::digits_value;
use crate::instruction::encode::entry_rv32i;
use crate::instruction::encode::entry_rv32m;
use crate::instruction::encode::fence_bits;
use crate::instruction::encode::spec_encode_rv32m;
use crate::instruction::encode::spec_operands;
use crate::instruction::encode::field_range;
use crate::instruction::encode::fits;
use crate::instruction::encode::i32_value;
use crate::instruction::encode::int_value;
use crate::instruction::encode::is_digit;
use crate::instruction::encode::is_stop;
use crate::instruction::encode::mnemonic_of;
use crate::instruction::encode::operands_of;
use crate::instruction::encode::spec_encode_instruction;
use crate::instruction::encode::spec_encode_rv32i;
use crate::instruction::encode::spec_number;
use crate::instruction::encode::spec_expect;
use crate::instruction::encode::spec_number_internal;
use crate::instruction::encode::spec_offset;
use crate::instruction::encode::spec_register;
use crate::instruction::encode::spec_register_then;
use crate::instruction::encode::token_len;
use crate::instruction::encode::word_len;
use crate::ins::OPCODE_MISCMEM;
use crate::rv32i::branch_known;
use crate::rv32i::load_known;
use crate::rv32i::op_imm_known;
use crate::rv32i::op_known;
use crate::rv32i::store_known;
use crate::rv32i::Fence;
use crate::rv32i::RV32I;
use crate::rv_m::RV32M;
use crate::Base;
use crate::Extension;
use vstd::prelude::*;

verus! {

// ---- Numbers ----
/// Whether no character of `s` ends a token.
spec fn no_stop(s: Seq<char>) -> bool {
    forall|j: int| 0 <= j < s.len() ==> !is_stop(#[trigger] s[j], true)
}

/// A number written in decimal is one or more digits, and they spell it.
proof fn lemma_nat_decimal(n: nat)
    ensures
        nat_decimal(n).len() > 0,
        all_digits(nat_decimal(n)),
        digits_acc(nat_decimal(n)) == n,
        digits_value(nat_decimal(n)) == Some(n as int),
        no_stop(nat_decimal(n)),
    decreases n,
{
    let d = digit_char(n % 10);
    assert(is_digit(d) && digit_of(d) == n % 10 && !is_stop(d, true));
    let s = nat_decimal(n);
    if n >= 10 {
        lemma_nat_decimal(n / 10);
        assert(s.drop_last() =~= nat_decimal(n / 10));
        assert(s.last() == d);
        assert(digits_acc(s) == 10 * digits_acc(s.drop_last()) + digit_of(s.last()));
    } else {
        assert(s.drop_last() =~= Seq::<char>::empty());
        assert(s.last() == d);
        assert(digits_acc(s.drop_last()) == 0);
        assert(digits_acc(s) == 10 * digits_acc(s.drop_last()) + digit_of(s.last()));
    }
}

/// A number written in decimal reads back as itself, begins with a minus
/// sign exactly where it is negative, and holds nothing that ends a token.
proof fn lemma_decimal(v: i32)
    ensures
        i32_value(decimal(v as int)) == Some(v),
        decimal(v as int).len() > 0,
        (decimal(v as int)[0] == '-') == (v < 0),
        no_stop(decimal(v as int)),
{
    reveal_strlit("-");
    let s = decimal(v as int);
    if v < 0 {
        let n = (-(v as int)) as nat;
        lemma_nat_decimal(n);
        assert(s =~= seq!['-'] + nat_decimal(n));
        assert(s.subrange(1, s.len() as int) =~= nat_decimal(n));
        assert(int_value(s) == Some(v as int));
    } else {
        lemma_nat_decimal(v as nat);
        let first = nat_decimal(v as nat)[0];
        assert(is_digit(first));
        assert(int_value(s) == Some(v as int));
    }
}

// ---- Tokens ----
/// A run of characters none of which ends a token, before the end of the
/// line or before a character that does, is the first token.
proof fn lemma_token_len(t: Seq<char>, tail: Seq<char>)
    requires
        no_stop(t),
        tail.len() == 0 || is_stop(tail[0], true),
    ensures
        token_len(t + tail, true) == t.len(),
    decreases t.len(),
{
    let s = t + tail;
    if t.len() == 0 {
        assert(s =~= tail);
    } else {
        assert(s[0] == t[0]);
        assert(s.drop_first() =~= t.drop_first() + tail);
        assert forall|j: int| 0 <= j < t.drop_first().len() implies !is_stop(
            #[trigger] t.drop_first()[j],
            true,
        ) by {
            assert(t.drop_first()[j] == t[j + 1]);
        }
        lemma_token_len(t.drop_first(), tail);
    }
}

/// Whether `tail` may follow a token: it is empty, or begins with what ends
/// a token.
spec fn is_tail(tail: Seq<char>) -> bool {
    tail.len() == 0 || is_stop(tail[0], true)
}

/// A number in decimal before a tail reads as that number, and leaves the
/// tail.
proof fn lemma_number_internal(v: i32, tail: Seq<char>)
    requires
        is_tail(tail),
    ensures
        spec_number_internal(decimal(v as int) + tail, true) == Some(((v, v < 0), tail)),
{
    let t = decimal(v as int);
    let s = t + tail;
    lemma_decimal(v);
    lemma_token_len(t, tail);
    assert(s.subrange(0, t.len() as int) =~= t);
    assert(s.subrange(t.len() as int, s.len() as int) =~= tail);
}

/// The text of a register: `x` and its number.
spec fn reg_text(r: u8) -> Seq<char> {
    seq!['x'] + nat_decimal(r as nat)
}

/// A register before a tail reads as that register, and leaves the tail.
proof fn lemma_register(r: u8, tail: Seq<char>)
    requires
        r < 32,
        is_tail(tail),
    ensures
        spec_register(reg_text(r) + tail) == Some((r, tail)),
{
    let s = reg_text(r) + tail;
    lemma_number_internal(r as i32, tail);
    assert(decimal(r as int) == nat_decimal(r as nat));
    assert(s.drop_first() =~= decimal(r as int) + tail);
    assert(s[0] == 'x');
}

/// An immediate that fits before a tail reads as that immediate, and leaves
/// the tail.
proof fn lemma_number(v: i32, length: u32, tail: Seq<char>)
    requires
        fits(v, v < 0, length),
        is_tail(tail),
    ensures
        spec_number(decimal(v as int) + tail, length) == Some((v, tail)),
{
    lemma_number_internal(v, tail);
}

/// A word before anything reads as that word, and leaves what follows.
proof fn lemma_expect(word: Seq<char>, rest: Seq<char>)
    ensures
        spec_expect(word + rest, word) == Some(rest),
{
    let s = word + rest;
    assert(s.subrange(0, word.len() as int) =~= word);
    assert(s.subrange(word.len() as int, s.len() as int) =~= rest);
}

// ---- Mnemonics ----
/// Whether `s` holds no space.
spec fn no_space(s: Seq<char>) -> bool {
    forall|j: int| 0 <= j < s.len() ==> #[trigger] s[j] != ' '
}

/// A run of characters without a space, before the end of the line or
/// before a space, is the mnemonic.
proof fn lemma_word_len(name: Seq<char>, tail: Seq<char>)
    requires
        no_space(name),
        tail.len() == 0 || tail[0] == ' ',
    ensures
        word_len(name + tail) == name.len(),
    decreases name.len(),
{
    let s = name + tail;
    if name.len() == 0 {
        assert(s =~= tail);
    } else {
        assert(s[0] == name[0]);
        assert(s.drop_first() =~= name.drop_first() + tail);
        let rest = name.drop_first();
        assert forall|j: int| 0 <= j < rest.len() implies #[trigger] rest[j] != ' ' by {
            assert(rest[j] == name[j + 1]);
        }
        lemma_word_len(rest, tail);
    }
}

/// A line of a mnemonic, a space and operands splits into the two.
proof fn lemma_split(name: Seq<char>, ops: Seq<char>)
    requires
        no_space(name),
    ensures
        mnemonic_of(name + seq![' '] + ops) == name,
        operands_of(name + seq![' '] + ops) == ops,
        mnemonic_of(name) == name,
        operands_of(name) == Seq::<char>::empty(),
{
    let line = name + seq![' '] + ops;
    assert(line =~= name + (seq![' '] + ops));
    lemma_word_len(name, seq![' '] + ops);
    assert(line.subrange(0, name.len() as int) =~= name);
    assert(line.subrange(name.len() as int + 1, line.len() as int) =~= ops);
    assert(name + Seq::<char>::empty() =~= name);
    lemma_word_len(name, Seq::<char>::empty());
    assert(name.subrange(0, name.len() as int) =~= name);
}

/// The entry of a mnemonic of the base instruction set.
spec fn entry(form: Form, opcode: u32, funct3: u8, funct7: u8) -> Option<Entry> {
    Some(Entry { form, opcode, funct3, funct7 })
}

/// A word of at most six characters none of which is a space holds no
/// space.
proof fn lemma_short_word(s: Seq<char>)
    requires
        s.len() <= 6,
        s.len() > 0 ==> s[0] != ' ',
        s.len() > 1 ==> s[1] != ' ',
        s.len() > 2 ==> s[2] != ' ',
        s.len() > 3 ==> s[3] != ' ',
        s.len() > 4 ==> s[4] != ' ',
        s.len() > 5 ==> s[5] != ' ',
    ensures
        no_space(s),
{
}

// How each mnemonic is spelled.
proof fn lemma_spelled_addi()
    ensures
        "addi"@.len() == 4,
        "addi"@[0] == 'a',
        "addi"@[1] == 'd',
        "addi"@[2] == 'd',
        "addi"@[3] == 'i',
{
    reveal_strlit("addi");
}

proof fn lemma_spelled_slti()
    ensures
        "slti"@.len() == 4,
        "slti"@[0] == 's',
        "slti"@[1] == 'l',
        "slti"@[2] == 't',
        "slti"@[3] == 'i',
{
    reveal_strlit("slti");
}

proof fn lemma_spelled_sltiu()
    ensures
        "sltiu"@.len() == 5,
        "sltiu"@[0] == 's',
        "sltiu"@[1] == 'l',
        "sltiu"@[2] == 't',
        "sltiu"@[3] == 'i',
        "sltiu"@[4] == 'u',
{
    reveal_strlit("sltiu");
}

proof fn lemma_spelled_xori()
    ensures
        "xori"@.len() == 4,
        "xori"@[0] == 'x',
        "xori"@[1] == 'o',
        "xori"@[2] == 'r',
        "xori"@[3] == 'i',
{
    reveal_strlit("xori");
}

proof fn lemma_spelled_ori()
    ensures
        "ori"@.len() == 3,
        "ori"@[0] == 'o',
        "ori"@[1] == 'r',
        "ori"@[2] == 'i',
{
    reveal_strlit("ori");
}

proof fn lemma_spelled_andi()
    ensures
        "andi"@.len() == 4,
        "andi"@[0] == 'a',
        "andi"@[1] == 'n',
        "andi"@[2] == 'd',
        "andi"@[3] == 'i',
{
    reveal_strlit("andi");
}

proof fn lemma_spelled_lui()
    ensures
        "lui"@.len() == 3,
        "lui"@[0] == 'l',
        "lui"@[1] == 'u',
        "lui"@[2] == 'i',
{
    reveal_strlit("lui");
}

proof fn lemma_spelled_auipc()
    ensures
        "auipc"@.len() == 5,
        "auipc"@[0] == 'a',
        "auipc"@[1] == 'u',
        "auipc"@[2] == 'i',
        "auipc"@[3] == 'p',
        "auipc"@[4] == 'c',
{
    reveal_strlit("auipc");
}

proof fn lemma_spelled_add()
    ensures
        "add"@.len() == 3,
        "add"@[0] == 'a',
        "add"@[1] == 'd',
        "add"@[2] == 'd',
{
    reveal_strlit("add");
}

proof fn lemma_spelled_sub()
    ensures
        "sub"@.len() == 3,
        "sub"@[0] == 's',
        "sub"@[1] == 'u',
        "sub"@[2] == 'b',
{
    reveal_strlit("sub");
}

proof fn lemma_spelled_sll()
    ensures
        "sll"@.len() == 3,
        "sll"@[0] == 's',
        "sll"@[1] == 'l',
        "sll"@[2] == 'l',
{
    reveal_strlit("sll");
}

proof fn lemma_spelled_slt()
    ensures
        "slt"@.len() == 3,
        "slt"@[0] == 's',
        "slt"@[1] == 'l',
        "slt"@[2] == 't',
{
    reveal_strlit("slt");
}

proof fn lemma_spelled_sltu()
    ensures
        "sltu"@.len() == 4,
        "sltu"@[0] == 's',
        "sltu"@[1] == 'l',
        "sltu"@[2] == 't',
        "sltu"@[3] == 'u',
{
    reveal_strlit("sltu");
}

proof fn lemma_spelled_xor()
    ensures
        "xor"@.len() == 3,
        "xor"@[0] == 'x',
        "xor"@[1] == 'o',
        "xor"@[2] == 'r',
{
    reveal_strlit("xor");
}

proof fn lemma_spelled_srl()
    ensures
        "srl"@.len() == 3,
        "srl"@[0] == 's',
        "srl"@[1] == 'r',
        "srl"@[2] == 'l',
{
    reveal_strlit("srl");
}

proof fn lemma_spelled_sra()
    ensures
        "sra"@.len() == 3,
        "sra"@[0] == 's',
        "sra"@[1] == 'r',
        "sra"@[2] == 'a',
{
    reveal_strlit("sra");
}

proof fn lemma_spelled_or()
    ensures
        "or"@.len() == 2,
        "or"@[0] == 'o',
        "or"@[1] == 'r',
{
    reveal_strlit("or");
}

proof fn lemma_spelled_and()
    ensures
        "and"@.len() == 3,
        "and"@[0] == 'a',
        "and"@[1] == 'n',
        "and"@[2] == 'd',
{
    reveal_strlit("and");
}

proof fn lemma_spelled_jal()
    ensures
        "jal"@.len() == 3,
        "jal"@[0] == 'j',
        "jal"@[1] == 'a',
        "jal"@[2] == 'l',
{
    reveal_strlit("jal");
}

proof fn lemma_spelled_jalr()
    ensures
        "jalr"@.len() == 4,
        "jalr"@[0] == 'j',
        "jalr"@[1] == 'a',
        "jalr"@[2] == 'l',
        "jalr"@[3] == 'r',
{
    reveal_strlit("jalr");
}

proof fn lemma_spelled_beq()
    ensures
        "beq"@.len() == 3,
        "beq"@[0] == 'b',
        "beq"@[1] == 'e',
        "beq"@[2] == 'q',
{
    reveal_strlit("beq");
}

proof fn lemma_spelled_bne()
    ensures
        "bne"@.len() == 3,
        "bne"@[0] == 'b',
        "bne"@[1] == 'n',
        "bne"@[2] == 'e',
{
    reveal_strlit("bne");
}

proof fn lemma_spelled_blt()
    ensures
        "blt"@.len() == 3,
        "blt"@[0] == 'b',
        "blt"@[1] == 'l',
        "blt"@[2] == 't',
{
    reveal_strlit("blt");
}

proof fn lemma_spelled_bge()
    ensures
        "bge"@.len() == 3,
        "bge"@[0] == 'b',
        "bge"@[1] == 'g',
        "bge"@[2] == 'e',
{
    reveal_strlit("bge");
}

proof fn lemma_spelled_bltu()
    ensures
        "bltu"@.len() == 4,
        "bltu"@[0] == 'b',
        "bltu"@[1] == 'l',
        "bltu"@[2] == 't',
        "bltu"@[3] == 'u',
{
    reveal_strlit("bltu");
}

proof fn lemma_spelled_bgeu()
    ensures
        "bgeu"@.len() == 4,
        "bgeu"@[0] == 'b',
        "bgeu"@[1] == 'g',
        "bgeu"@[2] == 'e',
        "bgeu"@[3] == 'u',
{
    reveal_strlit("bgeu");
}

proof fn lemma_spelled_lb()
    ensures
        "lb"@.len() == 2,
        "lb"@[0] == 'l',
        "lb"@[1] == 'b',
{
    reveal_strlit("lb");
}

proof fn lemma_spelled_lh()
    ensures
        "lh"@.len() == 2,
        "lh"@[0] == 'l',
        "lh"@[1] == 'h',
{
    reveal_strlit("lh");
}

proof fn lemma_spelled_lw()
    ensures
        "lw"@.len() == 2,
        "lw"@[0] == 'l',
        "lw"@[1] == 'w',
{
    reveal_strlit("lw");
}

proof fn lemma_spelled_lbu()
    ensures
        "lbu"@.len() == 3,
        "lbu"@[0] == 'l',
        "lbu"@[1] == 'b',
        "lbu"@[2] == 'u',
{
    reveal_strlit("lbu");
}

proof fn lemma_spelled_lhu()
    ensures
        "lhu"@.len() == 3,
        "lhu"@[0] == 'l',
        "lhu"@[1] == 'h',
        "lhu"@[2] == 'u',
{
    reveal_strlit("lhu");
}

proof fn lemma_spelled_sb()
    ensures
        "sb"@.len() == 2,
        "sb"@[0] == 's',
        "sb"@[1] == 'b',
{
    reveal_strlit("sb");
}

proof fn lemma_spelled_sh()
    ensures
        "sh"@.len() == 2,
        "sh"@[0] == 's',
        "sh"@[1] == 'h',
{
    reveal_strlit("sh");
}

proof fn lemma_spelled_sw()
    ensures
        "sw"@.len() == 2,
        "sw"@[0] == 's',
        "sw"@[1] == 'w',
{
    reveal_strlit("sw");
}

proof fn lemma_spelled_ecall()
    ensures
        "ecall"@.len() == 5,
        "ecall"@[0] == 'e',
        "ecall"@[1] == 'c',
        "ecall"@[2] == 'a',
        "ecall"@[3] == 'l',
        "ecall"@[4] == 'l',
{
    reveal_strlit("ecall");
}

proof fn lemma_spelled_fence()
    ensures
        "fence"@.len() == 5,
        "fence"@[0] == 'f',
        "fence"@[1] == 'e',
        "fence"@[2] == 'n',
        "fence"@[3] == 'c',
        "fence"@[4] == 'e',
{
    reveal_strlit("fence");
}

proof fn lemma_spelled_ebreak()
    ensures
        "ebreak"@.len() == 6,
        "ebreak"@[0] == 'e',
        "ebreak"@[1] == 'b',
        "ebreak"@[2] == 'r',
        "ebreak"@[3] == 'e',
        "ebreak"@[4] == 'a',
        "ebreak"@[5] == 'k',
{
    reveal_strlit("ebreak");
}

/// No mnemonic that is written for a word holds a space.
proof fn lemma_mnemonics_are_words(funct7: u8, funct3: u8)
    ensures
        no_space(name_op_imm(funct3)),
        no_space("lui"@),
        no_space("auipc"@),
        no_space(name_op(funct7, funct3)),
        no_space("jal"@),
        no_space("jalr"@),
        no_space(name_branch(funct3)),
        no_space(name_load(funct3)),
        no_space(name_store(funct3)),
        no_space("ecall"@),
        no_space("ebreak"@),
        no_space("fence"@),
{
    lemma_spelled_addi();
    lemma_short_word("addi"@);
    lemma_spelled_slti();
    lemma_short_word("slti"@);
    lemma_spelled_sltiu();
    lemma_short_word("sltiu"@);
    lemma_spelled_xori();
    lemma_short_word("xori"@);
    lemma_spelled_ori();
    lemma_short_word("ori"@);
    lemma_spelled_andi();
    lemma_short_word("andi"@);
    lemma_spelled_lui();
    lemma_short_word("lui"@);
    lemma_spelled_auipc();
    lemma_short_word("auipc"@);
    lemma_spelled_add();
    lemma_short_word("add"@);
    lemma_spelled_sub();
    lemma_short_word("sub"@);
    lemma_spelled_sll();
    lemma_short_word("sll"@);
    lemma_spelled_slt();
    lemma_short_word("slt"@);
    lemma_spelled_sltu();
    lemma_short_word("sltu"@);
    lemma_spelled_xor();
    lemma_short_word("xor"@);
    lemma_spelled_srl();
    lemma_short_word("srl"@);
    lemma_spelled_sra();
    lemma_short_word("sra"@);
    lemma_spelled_or();
    lemma_short_word("or"@);
    lemma_spelled_and();
    lemma_short_word("and"@);
    lemma_spelled_jal();
    lemma_short_word("jal"@);
    lemma_spelled_jalr();
    lemma_short_word("jalr"@);
    lemma_spelled_beq();
    lemma_short_word("beq"@);
    lemma_spelled_bne();
    lemma_short_word("bne"@);
    lemma_spelled_blt();
    lemma_short_word("blt"@);
    lemma_spelled_bge();
    lemma_short_word("bge"@);
    lemma_spelled_bltu();
    lemma_short_word("bltu"@);
    lemma_spelled_bgeu();
    lemma_short_word("bgeu"@);
    lemma_spelled_lb();
    lemma_short_word("lb"@);
    lemma_spelled_lh();
    lemma_short_word("lh"@);
    lemma_spelled_lw();
    lemma_short_word("lw"@);
    lemma_spelled_lbu();
    lemma_short_word("lbu"@);
    lemma_spelled_lhu();
    lemma_short_word("lhu"@);
    lemma_spelled_sb();
    lemma_short_word("sb"@);
    lemma_spelled_sh();
    lemma_short_word("sh"@);
    lemma_spelled_sw();
    lemma_short_word("sw"@);
    lemma_spelled_ecall();
    lemma_short_word("ecall"@);
    lemma_spelled_ebreak();
    lemma_short_word("ebreak"@);
    lemma_spelled_fence();
    lemma_short_word("fence"@);
}

/// Each mnemonic that is written for a word stands for that word's
/// operation.
proof fn lemma_mnemonics(funct7: u8, funct3: u8)
    ensures
        op_imm_known(funct3) ==> entry_rv32i(name_op_imm(funct3)) == entry(
            Form::OpImm,
            OPCODE_OPIMM,
            funct3,
            0,
        ),
        entry_rv32i("lui"@) == entry(Form::Upper, OPCODE_LUI, 0, 0),
        entry_rv32i("auipc"@) == entry(Form::Upper, OPCODE_AUIPC, 0, 0),
        op_known(funct7, funct3) ==> entry_rv32i(name_op(funct7, funct3)) == entry(
            Form::Op,
            OPCODE_OP,
            funct3,
            funct7,
        ),
        entry_rv32i("jal"@) == entry(Form::Jal, OPCODE_JAL, 0, 0),
        entry_rv32i("jalr"@) == entry(Form::JalR, OPCODE_JALR, 0, 0),
        branch_known(funct3) ==> entry_rv32i(name_branch(funct3)) == entry(
            Form::Branch,
            OPCODE_BRANCH,
            funct3,
            0,
        ),
        load_known(funct3) ==> entry_rv32i(name_load(funct3)) == entry(
            Form::Load,
            OPCODE_LOAD,
            funct3,
            0,
        ),
        store_known(funct3) ==> entry_rv32i(name_store(funct3)) == entry(
            Form::Store,
            OPCODE_STORE,
            funct3,
            0,
        ),
        entry_rv32i("ecall"@) == entry(Form::System, OPCODE_SYSTEM, 0, 0),
        entry_rv32i("ebreak"@) == entry(Form::System, OPCODE_SYSTEM, 0, 1),
        entry_rv32i("fence"@) == entry(Form::Fence, OPCODE_MISCMEM, 0, 0),
{
    lemma_spelled_addi();
    lemma_spelled_slti();
    lemma_spelled_sltiu();
    lemma_spelled_xori();
    lemma_spelled_ori();
    lemma_spelled_andi();
    lemma_spelled_lui();
    lemma_spelled_auipc();
    lemma_spelled_add();
    lemma_spelled_sub();
    lemma_spelled_sll();
    lemma_spelled_slt();
    lemma_spelled_sltu();
    lemma_spelled_xor();
    lemma_spelled_srl();
    lemma_spelled_sra();
    lemma_spelled_or();
    lemma_spelled_and();
    lemma_spelled_jal();
    lemma_spelled_jalr();
    lemma_spelled_beq();
    lemma_spelled_bne();
    lemma_spelled_blt();
    lemma_spelled_bge();
    lemma_spelled_bltu();
    lemma_spelled_bgeu();
    lemma_spelled_lb();
    lemma_spelled_lh();
    lemma_spelled_lw();
    lemma_spelled_lbu();
    lemma_spelled_lhu();
    lemma_spelled_sb();
    lemma_spelled_sh();
    lemma_spelled_sw();
    lemma_spelled_ecall();
    lemma_spelled_ebreak();
    lemma_spelled_fence();
}

// ---- Operands ----
/// What stands between two operands.
spec fn comma() -> Seq<char> {
    seq![',', ' ']
}

/// `x{a}, x{b}, x{c}`
spec fn ops_rrr(a: u8, b: u8, c: u8) -> Seq<char> {
    reg_text(a) + (comma() + (reg_text(b) + (comma() + reg_text(c))))
}

/// `x{a}, x{b}, {imm}`
spec fn ops_rri(a: u8, b: u8, imm: i32) -> Seq<char> {
    reg_text(a) + (comma() + (reg_text(b) + (comma() + decimal(imm as int))))
}

/// `x{a}, {imm}`
spec fn ops_ri(a: u8, imm: i32) -> Seq<char> {
    reg_text(a) + (comma() + decimal(imm as int))
}

/// `{imm}(x{b})`
spec fn offset_text(imm: i32, b: u8) -> Seq<char> {
    decimal(imm as int) + (seq!['('] + (reg_text(b) + seq![')']))
}

/// `x{a}, {imm}(x{b})`
spec fn ops_rir(a: u8, imm: i32, b: u8) -> Seq<char> {
    reg_text(a) + (comma() + offset_text(imm, b))
}

/// `{a}, {b}`
spec fn ops_nn(a: u8, b: u8) -> Seq<char> {
    decimal(a as int) + (comma() + decimal(b as int))
}

/// What the short texts between operands hold.
proof fn lemma_marks()
    ensures
        " "@ == seq![' '],
        " x"@ == seq![' ', 'x'],
        ", x"@ == seq![',', ' ', 'x'],
        ", "@ == comma(),
        "(x"@ == seq!['(', 'x'],
        "("@ == seq!['('],
        ")"@ == seq![')'],
{
    reveal_strlit(" ");
    reveal_strlit(" x");
    reveal_strlit(", x");
    reveal_strlit(", ");
    reveal_strlit("(x");
    reveal_strlit("(");
    reveal_strlit(")");
    assert(" "@ =~= seq![' ']);
    assert(" x"@ =~= seq![' ', 'x']);
    assert(", x"@ =~= seq![',', ' ', 'x']);
    assert(", "@ =~= comma());
    assert("(x"@ =~= seq!['(', 'x']);
    assert("("@ =~= seq!['(']);
    assert(")"@ =~= seq![')']);
}

/// Every written line is its mnemonic, a space, and its operands.
proof fn lemma_lines(name: Seq<char>, a: u8, b: u8, c: u8, imm: i32)
    ensures
        line_rrr(name, a, b, c) == name + seq![' '] + ops_rrr(a, b, c),
        line_rri(name, a, b, imm) == name + seq![' '] + ops_rri(a, b, imm),
        line_ri(name, a, imm) == name + seq![' '] + ops_ri(a, imm),
        line_rir(name, a, imm, b) == name + seq![' '] + ops_rir(a, imm, b),
        line_nn(name, a, b) == name + seq![' '] + ops_nn(a, b),
{
    lemma_marks();
    assert(line_rrr(name, a, b, c) =~= name + seq![' '] + ops_rrr(a, b, c));
    assert(line_rri(name, a, b, imm) =~= name + seq![' '] + ops_rri(a, b, imm));
    assert(line_ri(name, a, imm) =~= name + seq![' '] + ops_ri(a, imm));
    assert(line_rir(name, a, imm, b) =~= name + seq![' '] + ops_rir(a, imm, b));
    assert(line_nn(name, a, b) =~= name + seq![' '] + ops_nn(a, b));
}

/// A register and the comma and space behind it read as that register, and
/// leave what follows.
proof fn lemma_register_then(r: u8, rest: Seq<char>)
    requires
        r < 32,
    ensures
        spec_register_then(reg_text(r) + (comma() + rest)) == Some((r, rest)),
{
    lemma_marks();
    lemma_register(r, comma() + rest);
    lemma_expect(comma(), rest);
}

/// A register at the end of the line reads as that register.
proof fn lemma_register_end(r: u8)
    requires
        r < 32,
    ensures
        spec_register(reg_text(r)) == Some((r, Seq::<char>::empty())),
{
    lemma_register(r, Seq::<char>::empty());
    assert(reg_text(r) + Seq::<char>::empty() =~= reg_text(r));
}

/// An immediate that fits, at the end of the line, reads as that immediate.
proof fn lemma_number_end(v: i32, length: u32)
    requires
        fits(v, v < 0, length),
    ensures
        spec_number(decimal(v as int), length) == Some((v, Seq::<char>::empty())),
{
    lemma_number(v, length, Seq::<char>::empty());
    assert(decimal(v as int) + Seq::<char>::empty() =~= decimal(v as int));
}

/// An offset and its base register at the end of the line read as
/// themselves.
proof fn lemma_offset(imm: i32, b: u8)
    requires
        b < 32,
        fits(imm, imm < 0, 12),
    ensures
        spec_offset(offset_text(imm, b)) == Some(((imm, b), Seq::<char>::empty())),
{
    lemma_marks();
    let close = seq![')'];
    let inner = reg_text(b) + close;
    lemma_number(imm, 12, seq!['('] + inner);
    lemma_expect(seq!['('], inner);
    lemma_register(b, close);
    lemma_expect(close, Seq::<char>::empty());
    assert(close + Seq::<char>::empty() =~= close);
}

/// The opcode and the other bits of a word make up the word.
proof fn lemma_rejoin(ins: u32, opcode: u32, fields: u32)
    by (bit_vector)
    requires
        ins & 0b1111111 == opcode,
        fields == ins & 0xffff_ff80,
    ensures
        fields | opcode == ins,
{
}

/// The values of the immediates of the shapes fit the widths that the
/// reader allows them.
proof fn lemma_widths()
    by (bit_vector)
    ensures
        field_range(12) == 4096,
        field_range(13) == 8192,
        field_range(20) == 0x10_0000,
        field_range(21) == 0x20_0000,
{
}

// ---- Lines ----
/// Whether a word is written with all that it holds: a `jalr` has no
/// `funct3` in its text, an `ecall` or `ebreak` no registers, and a fence
/// neither registers nor a mode, so these must be zero.
pub open spec fn is_plain(ins: u32) -> bool {
    let d = IType::spec_decode(ins);
    &&& ins & OPCODE_MASK == OPCODE_JALR ==> d.funct3 == 0
    &&& ins & OPCODE_MASK == OPCODE_SYSTEM ==> d.rd == 0 && d.rs1 == 0
    &&& ins & OPCODE_MASK == OPCODE_MISCMEM ==> d.rd == 0 && d.rs1 == 0 && Fence::spec_of(
        d.imm,
    ).fm == 0
}

/// A line of a mnemonic and its operands reads as the word that the
/// operands give with the entry of the mnemonic.
proof fn lemma_line_reads(name: Seq<char>, ops: Seq<char>, e: Entry, word: u32)
    requires
        no_space(name),
        entry_rv32i(name) == Some(e),
        spec_operands(e, ops) == Some(word),
    ensures
        spec_encode_rv32i(name + seq![' '] + ops) == Some(word),
        ops.len() == 0 ==> spec_encode_rv32i(name) == Some(word),
{
    lemma_split(name, ops);
}

/// The operands of arithmetic with an immediate read back.
proof fn lemma_operands_rri(e: Entry, d: IType)
    requires
        e.form is OpImm,
        d.wf(),
    ensures
        spec_operands(e, ops_rri(d.rd, d.rs1, d.imm)) == Some(
            (IType {
                imm: d.imm,
                rs1: d.rs1,
                funct3: e.funct3,
                rd: d.rd,
            }).spec_encode() | e.opcode,
        ),
{
    lemma_widths();
    lemma_register_then(d.rd, reg_text(d.rs1) + (comma() + decimal(d.imm as int)));
    lemma_register_then(d.rs1, decimal(d.imm as int));
    lemma_number_end(d.imm, 12);
}

/// The operands of arithmetic on two registers read back.
proof fn lemma_operands_rrr(e: Entry, d: RType)
    requires
        e.form is Op,
        d.wf(),
    ensures
        spec_operands(e, ops_rrr(d.rd, d.rs1, d.rs2)) == Some(
            (RType {
                funct7: e.funct7,
                rs2: d.rs2,
                rs1: d.rs1,
                funct3: e.funct3,
                rd: d.rd,
            }).spec_encode() | e.opcode,
        ),
{
    lemma_widths();
    lemma_register_then(d.rd, reg_text(d.rs1) + (comma() + reg_text(d.rs2)));
    lemma_register_then(d.rs1, reg_text(d.rs2));
    lemma_register_end(d.rs2);
}

/// The operands of `lui` and `auipc` read back.
proof fn lemma_operands_upper(e: Entry, d: UType)
    requires
        e.form is Upper,
        d.wf(),
    ensures
        spec_operands(e, ops_ri(d.rd, d.imm)) == Some(
            (UType {
                imm: d.imm,
                rd: d.rd,
            }).spec_encode() | e.opcode,
        ),
{
    lemma_widths();
    lemma_register_then(d.rd, decimal(d.imm as int));
    lemma_number_end(d.imm, 20);
}

/// The operands of `jal` read back.
proof fn lemma_operands_jal(e: Entry, d: JType)
    requires
        e.form is Jal,
        d.wf(),
    ensures
        spec_operands(e, ops_ri(d.rd, d.imm)) == Some(
            (JType {
                imm: d.imm,
                rd: d.rd,
            }).spec_encode() | e.opcode,
        ),
{
    lemma_widths();
    lemma_register_then(d.rd, decimal(d.imm as int));
    lemma_number_end(d.imm, 21);
}

/// The operands of `jalr` and of a load read back.
proof fn lemma_operands_rir(e: Entry, d: IType)
    requires
        e.form is JalR || e.form is Load,
        d.wf(),
    ensures
        spec_operands(e, ops_rir(d.rd, d.imm, d.rs1)) == Some(
            (IType {
                imm: d.imm,
                rs1: d.rs1,
                funct3: e.funct3,
                rd: d.rd,
            }).spec_encode() | e.opcode,
        ),
{
    lemma_widths();
    lemma_register_then(d.rd, offset_text(d.imm, d.rs1));
    lemma_offset(d.imm, d.rs1);
}

/// The operands of a branch read back.
proof fn lemma_operands_branch(e: Entry, d: BType)
    requires
        e.form is Branch,
        d.wf(),
    ensures
        spec_operands(e, ops_rri(d.rs1, d.rs2, d.imm)) == Some(
            (BType {
                imm: d.imm,
                rs2: d.rs2,
                rs1: d.rs1,
                funct3: e.funct3,
            }).spec_encode() | e.opcode,
        ),
{
    lemma_widths();
    lemma_register_then(d.rs1, reg_text(d.rs2) + (comma() + decimal(d.imm as int)));
    lemma_register_then(d.rs2, decimal(d.imm as int));
    lemma_number_end(d.imm, 13);
}

/// The operands of a store read back.
proof fn lemma_operands_store(e: Entry, d: SType)
    requires
        e.form is Store,
        d.wf(),
    ensures
        spec_operands(e, ops_rir(d.rs2, d.imm, d.rs1)) == Some(
            (SType {
                imm: d.imm,
                rs2: d.rs2,
                rs1: d.rs1,
                funct3: e.funct3,
            }).spec_encode() | e.opcode,
        ),
{
    lemma_widths();
    lemma_register_then(d.rs2, offset_text(d.imm, d.rs1));
    lemma_offset(d.imm, d.rs1);
}

/// The two masks of a fence without a mode are below 16 and make up its
/// immediate.
proof fn lemma_fence_masks(imm: i32, fm: u8, pred: u8, succ: u8)
    by (bit_vector)
    requires
        -2048 <= imm < 2048,
        fm == (((imm as u32) >> 8) & 0xf) as u8,
        fm == 0,
        pred == (((imm as u32) >> 4) & 0xf) as u8,
        succ == ((imm as u32) & 0xf) as u8,
    ensures
        pred < 16,
        succ < 16,
        (((pred as i32) as u32) << 4 | ((succ as i32) as u32)) as i32 == imm,
{
}

/// The operands of a fence read back.
proof fn lemma_operands_fence(e: Entry, d: IType)
    requires
        e.form is Fence,
        d.wf(),
        Fence::spec_of(d.imm).fm == 0,
    ensures
        spec_operands(e, ops_nn(Fence::spec_of(d.imm).pred, Fence::spec_of(d.imm).succ)) == Some(
            (IType { imm: d.imm, rs1: 0, funct3: e.funct3, rd: 0 }).spec_encode() | e.opcode,
        ),
{
    let fence = Fence::spec_of(d.imm);
    let (pred, succ) = (fence.pred as i32, fence.succ as i32);
    lemma_fence_masks(d.imm, fence.fm, fence.pred, fence.succ);
    assert(field_range(4) == 16) by (bit_vector);
    lemma_marks();
    lemma_number(pred, 4, comma() + decimal(succ as int));
    lemma_expect(comma(), decimal(succ as int));
    lemma_number_end(succ, 4);
    assert(fence_bits(pred, succ) == d.imm);
}

/// The law for arithmetic with an immediate.
proof fn lemma_round_op_imm(ins: u32)
    requires
        ins & OPCODE_MASK == OPCODE_OPIMM,
        op_imm_known(IType::spec_decode(ins).funct3),
    ensures
        spec_decode_rv32i(ins) is Some,
        spec_encode_rv32i(spec_decode_rv32i(ins).unwrap()) == Some(ins),
{
    let d = IType::spec_decode(ins);
    let name = name_op_imm(d.funct3);
    let e = Entry { form: Form::OpImm, opcode: OPCODE_OPIMM, funct3: d.funct3, funct7: 0 };
    let ops = ops_rri(d.rd, d.rs1, d.imm);
    assert(spec_decode_rv32i(ins) == Some(line_rri(name, d.rd, d.rs1, d.imm)));
    assert(line_rri(name, d.rd, d.rs1, d.imm) == name + seq![' '] + ops) by {
        lemma_lines(name, d.rd, d.rs1, 0, d.imm);
    }
    assert(no_space(name)) by {
        lemma_mnemonics_are_words(RType::spec_decode(ins).funct7, RType::spec_decode(ins).funct3);
    }
    assert(entry_rv32i(name) == Some(e)) by {
        lemma_mnemonics(RType::spec_decode(ins).funct7, RType::spec_decode(ins).funct3);
    }
    assert(spec_operands(e, ops) == Some(d.spec_encode() | e.opcode)) by {
        IType::lemma_decode_wf(ins);
        lemma_operands_rri(e, d);
    }
    assert(d.spec_encode() | e.opcode == ins) by {
        IType::law_encode_decode(ins);
        lemma_rejoin(ins, ins & OPCODE_MASK, ins & SHAPE_MASK);
    }
    lemma_line_reads(name, ops, e, ins);
}

/// The law for `lui`.
proof fn lemma_round_lui(ins: u32)
    requires
        ins & OPCODE_MASK == OPCODE_LUI,
    ensures
        spec_decode_rv32i(ins) is Some,
        spec_encode_rv32i(spec_decode_rv32i(ins).unwrap()) == Some(ins),
{
    let d = UType::spec_decode(ins);
    let name = "lui"@;
    let e = Entry { form: Form::Upper, opcode: OPCODE_LUI, funct3: 0, funct7: 0 };
    let ops = ops_ri(d.rd, d.imm);
    assert(spec_decode_rv32i(ins) == Some(line_ri(name, d.rd, d.imm)));
    assert(line_ri(name, d.rd, d.imm) == name + seq![' '] + ops) by {
        lemma_lines(name, d.rd, 0, 0, d.imm);
    }
    assert(no_space(name)) by {
        lemma_mnemonics_are_words(RType::spec_decode(ins).funct7, RType::spec_decode(ins).funct3);
    }
    assert(entry_rv32i(name) == Some(e)) by {
        lemma_mnemonics(RType::spec_decode(ins).funct7, RType::spec_decode(ins).funct3);
    }
    assert(spec_operands(e, ops) == Some(d.spec_encode() | e.opcode)) by {
        UType::lemma_decode_wf(ins);
        lemma_operands_upper(e, d);
    }
    assert(d.spec_encode() | e.opcode == ins) by {
        UType::law_encode_decode(ins);
        lemma_rejoin(ins, ins & OPCODE_MASK, ins & SHAPE_MASK);
    }
    lemma_line_reads(name, ops, e, ins);
}

/// The law for `auipc`.
proof fn lemma_round_auipc(ins: u32)
    requires
        ins & OPCODE_MASK == OPCODE_AUIPC,
    ensures
        spec_decode_rv32i(ins) is Some,
        spec_encode_rv32i(spec_decode_rv32i(ins).unwrap()) == Some(ins),
{
    let d = UType::spec_decode(ins);
    let name = "auipc"@;
    let e = Entry { form: Form::Upper, opcode: OPCODE_AUIPC, funct3: 0, funct7: 0 };
    let ops = ops_ri(d.rd, d.imm);
    assert(spec_decode_rv32i(ins) == Some(line_ri(name, d.rd, d.imm)));
    assert(line_ri(name, d.rd, d.imm) == name + seq![' '] + ops) by {
        lemma_lines(name, d.rd, 0, 0, d.imm);
    }
    assert(no_space(name)) by {
        lemma_mnemonics_are_words(RType::spec_decode(ins).funct7, RType::spec_decode(ins).funct3);
    }
    assert(entry_rv32i(name) == Some(e)) by {
        lemma_mnemonics(RType::spec_decode(ins).funct7, RType::spec_decode(ins).funct3);
    }
    assert(spec_operands(e, ops) == Some(d.spec_encode() | e.opcode)) by {
        UType::lemma_decode_wf(ins);
        lemma_operands_upper(e, d);
    }
    assert(d.spec_encode() | e.opcode == ins) by {
        UType::law_encode_decode(ins);
        lemma_rejoin(ins, ins & OPCODE_MASK, ins & SHAPE_MASK);
    }
    lemma_line_reads(name, ops, e, ins);
}

/// The law for arithmetic on two registers.
proof fn lemma_round_op(ins: u32)
    requires
        ins & OPCODE_MASK == OPCODE_OP,
        op_known(RType::spec_decode(ins).funct7, RType::spec_decode(ins).funct3),
    ensures
        spec_decode_rv32i(ins) is Some,
        spec_encode_rv32i(spec_decode_rv32i(ins).unwrap()) == Some(ins),
{
    let d = RType::spec_decode(ins);
    let name = name_op(d.funct7, d.funct3);
    let e = Entry { form: Form::Op, opcode: OPCODE_OP, funct3: d.funct3, funct7: d.funct7 };
    let ops = ops_rrr(d.rd, d.rs1, d.rs2);
    assert(spec_decode_rv32i(ins) == Some(line_rrr(name, d.rd, d.rs1, d.rs2)));
    assert(line_rrr(name, d.rd, d.rs1, d.rs2) == name + seq![' '] + ops) by {
        lemma_lines(name, d.rd, d.rs1, d.rs2, 0);
    }
    assert(no_space(name)) by {
        lemma_mnemonics_are_words(RType::spec_decode(ins).funct7, RType::spec_decode(ins).funct3);
    }
    assert(entry_rv32i(name) == Some(e)) by {
        lemma_mnemonics(RType::spec_decode(ins).funct7, RType::spec_decode(ins).funct3);
    }
    assert(spec_operands(e, ops) == Some(d.spec_encode() | e.opcode)) by {
        RType::lemma_decode_wf(ins);
        lemma_operands_rrr(e, d);
    }
    assert(d.spec_encode() | e.opcode == ins) by {
        RType::law_encode_decode(ins);
        lemma_rejoin(ins, ins & OPCODE_MASK, ins & SHAPE_MASK);
    }
    lemma_line_reads(name, ops, e, ins);
}

/// The law for `jal`.
proof fn lemma_round_jal(ins: u32)
    requires
        ins & OPCODE_MASK == OPCODE_JAL,
    ensures
        spec_decode_rv32i(ins) is Some,
        spec_encode_rv32i(spec_decode_rv32i(ins).unwrap()) == Some(ins),
{
    let d = JType::spec_decode(ins);
    let name = "jal"@;
    let e = Entry { form: Form::Jal, opcode: OPCODE_JAL, funct3: 0, funct7: 0 };
    let ops = ops_ri(d.rd, d.imm);
    assert(spec_decode_rv32i(ins) == Some(line_ri(name, d.rd, d.imm)));
    assert(line_ri(name, d.rd, d.imm) == name + seq![' '] + ops) by {
        lemma_lines(name, d.rd, 0, 0, d.imm);
    }
    assert(no_space(name)) by {
        lemma_mnemonics_are_words(RType::spec_decode(ins).funct7, RType::spec_decode(ins).funct3);
    }
    assert(entry_rv32i(name) == Some(e)) by {
        lemma_mnemonics(RType::spec_decode(ins).funct7, RType::spec_decode(ins).funct3);
    }
    assert(spec_operands(e, ops) == Some(d.spec_encode() | e.opcode)) by {
        JType::lemma_decode_wf(ins);
        lemma_operands_jal(e, d);
    }
    assert(d.spec_encode() | e.opcode == ins) by {
        JType::law_encode_decode(ins);
        lemma_rejoin(ins, ins & OPCODE_MASK, ins & SHAPE_MASK);
    }
    lemma_line_reads(name, ops, e, ins);
}

/// The law for `jalr`.
proof fn lemma_round_jalr(ins: u32)
    requires
        ins & OPCODE_MASK == OPCODE_JALR,
        IType::spec_decode(ins).funct3 == 0,
    ensures
        spec_decode_rv32i(ins) is Some,
        spec_encode_rv32i(spec_decode_rv32i(ins).unwrap()) == Some(ins),
{
    let d = IType::spec_decode(ins);
    let name = "jalr"@;
    let e = Entry { form: Form::JalR, opcode: OPCODE_JALR, funct3: 0, funct7: 0 };
    let ops = ops_rir(d.rd, d.imm, d.rs1);
    assert(spec_decode_rv32i(ins) == Some(line_rir(name, d.rd, d.imm, d.rs1)));
    assert(line_rir(name, d.rd, d.imm, d.rs1) == name + seq![' '] + ops) by {
        lemma_lines(name, d.rd, d.rs1, 0, d.imm);
    }
    assert(no_space(name)) by {
        lemma_mnemonics_are_words(RType::spec_decode(ins).funct7, RType::spec_decode(ins).funct3);
    }
    assert(entry_rv32i(name) == Some(e)) by {
        lemma_mnemonics(RType::spec_decode(ins).funct7, RType::spec_decode(ins).funct3);
    }
    assert(spec_operands(e, ops) == Some(d.spec_encode() | e.opcode)) by {
        IType::lemma_decode_wf(ins);
        lemma_operands_rir(e, d);
    }
    assert(d.spec_encode() | e.opcode == ins) by {
        IType::law_encode_decode(ins);
        lemma_rejoin(ins, ins & OPCODE_MASK, ins & SHAPE_MASK);
    }
    lemma_line_reads(name, ops, e, ins);
}

/// The law for branches.
proof fn lemma_round_branch(ins: u32)
    requires
        ins & OPCODE_MASK == OPCODE_BRANCH,
        branch_known(BType::spec_decode(ins).funct3),
    ensures
        spec_decode_rv32i(ins) is Some,
        spec_encode_rv32i(spec_decode_rv32i(ins).unwrap()) == Some(ins),
{
    let d = BType::spec_decode(ins);
    let name = name_branch(d.funct3);
    let e = Entry { form: Form::Branch, opcode: OPCODE_BRANCH, funct3: d.funct3, funct7: 0 };
    let ops = ops_rri(d.rs1, d.rs2, d.imm);
    assert(spec_decode_rv32i(ins) == Some(line_rri(name, d.rs1, d.rs2, d.imm)));
    assert(line_rri(name, d.rs1, d.rs2, d.imm) == name + seq![' '] + ops) by {
        lemma_lines(name, d.rs1, d.rs2, 0, d.imm);
    }
    assert(no_space(name)) by {
        lemma_mnemonics_are_words(RType::spec_decode(ins).funct7, RType::spec_decode(ins).funct3);
    }
    assert(entry_rv32i(name) == Some(e)) by {
        lemma_mnemonics(RType::spec_decode(ins).funct7, RType::spec_decode(ins).funct3);
    }
    assert(spec_operands(e, ops) == Some(d.spec_encode() | e.opcode)) by {
        BType::lemma_decode_wf(ins);
        lemma_operands_branch(e, d);
    }
    assert(d.spec_encode() | e.opcode == ins) by {
        BType::law_encode_decode(ins);
        lemma_rejoin(ins, ins & OPCODE_MASK, ins & SHAPE_MASK);
    }
    lemma_line_reads(name, ops, e, ins);
}

/// The law for loads.
proof fn lemma_round_load(ins: u32)
    requires
        ins & OPCODE_MASK == OPCODE_LOAD,
        load_known(IType::spec_decode(ins).funct3),
    ensures
        spec_decode_rv32i(ins) is Some,
        spec_encode_rv32i(spec_decode_rv32i(ins).unwrap()) == Some(ins),
{
    let d = IType::spec_decode(ins);
    let name = name_load(d.funct3);
    let e = Entry { form: Form::Load, opcode: OPCODE_LOAD, funct3: d.funct3, funct7: 0 };
    let ops = ops_rir(d.rd, d.imm, d.rs1);
    assert(spec_decode_rv32i(ins) == Some(line_rir(name, d.rd, d.imm, d.rs1)));
    assert(line_rir(name, d.rd, d.imm, d.rs1) == name + seq![' '] + ops) by {
        lemma_lines(name, d.rd, d.rs1, 0, d.imm);
    }
    assert(no_space(name)) by {
        lemma_mnemonics_are_words(RType::spec_decode(ins).funct7, RType::spec_decode(ins).funct3);
    }
    assert(entry_rv32i(name) == Some(e)) by {
        lemma_mnemonics(RType::spec_decode(ins).funct7, RType::spec_decode(ins).funct3);
    }
    assert(spec_operands(e, ops) == Some(d.spec_encode() | e.opcode)) by {
        IType::lemma_decode_wf(ins);
        lemma_operands_rir(e, d);
    }
    assert(d.spec_encode() | e.opcode == ins) by {
        IType::law_encode_decode(ins);
        lemma_rejoin(ins, ins & OPCODE_MASK, ins & SHAPE_MASK);
    }
    lemma_line_reads(name, ops, e, ins);
}

/// The law for stores.
proof fn lemma_round_store(ins: u32)
    requires
        ins & OPCODE_MASK == OPCODE_STORE,
        store_known(SType::spec_decode(ins).funct3),
    ensures
        spec_decode_rv32i(ins) is Some,
        spec_encode_rv32i(spec_decode_rv32i(ins).unwrap()) == Some(ins),
{
    let d = SType::spec_decode(ins);
    let name = name_store(d.funct3);
    let e = Entry { form: Form::Store, opcode: OPCODE_STORE, funct3: d.funct3, funct7: 0 };
    let ops = ops_rir(d.rs2, d.imm, d.rs1);
    assert(spec_decode_rv32i(ins) == Some(line_rir(name, d.rs2, d.imm, d.rs1)));
    assert(line_rir(name, d.rs2, d.imm, d.rs1) == name + seq![' '] + ops) by {
        lemma_lines(name, d.rs2, d.rs1, 0, d.imm);
    }
    assert(no_space(name)) by {
        lemma_mnemonics_are_words(RType::spec_decode(ins).funct7, RType::spec_decode(ins).funct3);
    }
    assert(entry_rv32i(name) == Some(e)) by {
        lemma_mnemonics(RType::spec_decode(ins).funct7, RType::spec_decode(ins).funct3);
    }
    assert(spec_operands(e, ops) == Some(d.spec_encode() | e.opcode)) by {
        SType::lemma_decode_wf(ins);
        lemma_operands_store(e, d);
    }
    assert(d.spec_encode() | e.opcode == ins) by {
        SType::law_encode_decode(ins);
        lemma_rejoin(ins, ins & OPCODE_MASK, ins & SHAPE_MASK);
    }
    lemma_line_reads(name, ops, e, ins);
}

/// The law for `ecall` and `ebreak`.
proof fn lemma_round_system(ins: u32)
    requires
        ins & OPCODE_MASK == OPCODE_SYSTEM,
        spec_decode_rv32i(ins) is Some,
        is_plain(ins),
    ensures
        spec_encode_rv32i(spec_decode_rv32i(ins).unwrap()) == Some(ins),
{
    let d = IType::spec_decode(ins);
    let name = spec_decode_rv32i(ins).unwrap();
    let e = Entry { form: Form::System, opcode: OPCODE_SYSTEM, funct3: 0, funct7: d.imm as u8 };
    assert(no_space(name)) by {
        lemma_mnemonics_are_words(0, 0);
    }
    assert(entry_rv32i(name) == Some(e)) by {
        lemma_mnemonics(0, 0);
    }
    assert(d.spec_encode() | e.opcode == ins) by {
        IType::law_encode_decode(ins);
        lemma_rejoin(ins, ins & OPCODE_MASK, ins & SHAPE_MASK);
    }
    lemma_line_reads(name, Seq::<char>::empty(), e, ins);
}

/// The law for fences.
proof fn lemma_round_fence(ins: u32)
    requires
        ins & OPCODE_MASK == OPCODE_MISCMEM,
        spec_decode_rv32i(ins) is Some,
        is_plain(ins),
    ensures
        spec_encode_rv32i(spec_decode_rv32i(ins).unwrap()) == Some(ins),
{
    let d = IType::spec_decode(ins);
    let fence = Fence::spec_of(d.imm);
    let name = "fence"@;
    let e = Entry { form: Form::Fence, opcode: OPCODE_MISCMEM, funct3: 0, funct7: 0 };
    let ops = ops_nn(fence.pred, fence.succ);
    assert(spec_decode_rv32i(ins) == Some(line_nn(name, fence.pred, fence.succ)));
    assert(line_nn(name, fence.pred, fence.succ) == name + seq![' '] + ops) by {
        lemma_lines(name, fence.pred, fence.succ, 0, 0);
    }
    assert(no_space(name)) by {
        lemma_mnemonics_are_words(0, 0);
    }
    assert(entry_rv32i(name) == Some(e)) by {
        lemma_mnemonics(0, 0);
    }
    assert(spec_operands(e, ops) == Some(d.spec_encode() | e.opcode)) by {
        IType::lemma_decode_wf(ins);
        lemma_operands_fence(e, d);
    }
    assert(d.spec_encode() | e.opcode == ins) by {
        IType::law_encode_decode(ins);
        lemma_rejoin(ins, ins & OPCODE_MASK, ins & SHAPE_MASK);
    }
    lemma_line_reads(name, ops, e, ins);
}

/// A line that was written from a word reads back as that word.
pub proof fn law_encode_inverts_decode(ins: u32)
    requires
        spec_decode_rv32i(ins) is Some,
        is_plain(ins),
    ensures
        spec_encode_instruction(spec_decode_rv32i(ins).unwrap()) == Some(ins),
{
    let op = ins & OPCODE_MASK;
    if op == OPCODE_OPIMM {
        lemma_round_op_imm(ins);
    } else if op == OPCODE_LUI {
        lemma_round_lui(ins);
    } else if op == OPCODE_AUIPC {
        lemma_round_auipc(ins);
    } else if op == OPCODE_OP {
        lemma_round_op(ins);
    } else if op == OPCODE_JAL {
        lemma_round_jal(ins);
    } else if op == OPCODE_JALR {
        lemma_round_jalr(ins);
    } else if op == OPCODE_BRANCH {
        lemma_round_branch(ins);
    } else if op == OPCODE_LOAD {
        lemma_round_load(ins);
    } else if op == OPCODE_STORE {
        lemma_round_store(ins);
    } else if op == OPCODE_MISCMEM {
        lemma_round_fence(ins);
    } else {
        lemma_round_system(ins);
    }
}

// ---- Lines and the engines ----
/// Whether an entry names an operation of the base engine.
spec fn of_base(e: Entry) -> bool {
    match e.form {
        Form::OpImm => e.opcode == OPCODE_OPIMM && op_imm_known(e.funct3),
        Form::Upper => e.opcode == OPCODE_LUI || e.opcode == OPCODE_AUIPC,
        Form::Op => e.opcode == OPCODE_OP && op_known(e.funct7, e.funct3),
        Form::Jal => e.opcode == OPCODE_JAL,
        Form::JalR => e.opcode == OPCODE_JALR,
        Form::Branch => e.opcode == OPCODE_BRANCH && branch_known(e.funct3),
        Form::Load => e.opcode == OPCODE_LOAD && load_known(e.funct3),
        Form::Store => e.opcode == OPCODE_STORE && store_known(e.funct3),
        Form::System => e.opcode == OPCODE_SYSTEM && e.funct3 == 0 && e.funct7 <= 1,
        Form::Fence => e.opcode == OPCODE_MISCMEM && e.funct3 == 0,
    }
}

/// Whether an entry names an operation of the M extension.
spec fn of_m(e: Entry) -> bool {
    e.form is Op && e.opcode == OPCODE_OP && e.funct7 == 1 && e.funct3 < 8
}

/// The tables hold operations of the base engine and of the M extension.
proof fn lemma_tables(name: Seq<char>)
    ensures
        entry_rv32i(name) matches Some(e) ==> of_base(e),
        entry_rv32m(name) matches Some(e) ==> of_m(e),
{
}

/// Digits spell a number that is not negative.
proof fn lemma_digits_sign(s: Seq<char>)
    requires
        all_digits(s),
    ensures
        digits_acc(s) >= 0,
    decreases s.len(),
{
    if s.len() > 0 {
        let front = s.drop_last();
        assert forall|j: int| 0 <= j < front.len() implies is_digit(#[trigger] front[j]) by {
            assert(front[j] == s[j]);
        }
        lemma_digits_sign(front);
        assert(is_digit(s.last()));
    }
}

/// A register that was read has a number below 32.
proof fn lemma_register_range(s: Seq<char>)
    ensures
        spec_register(s) matches Some((r, rest)) ==> r < 32,
{
    if spec_register(s) is Some {
        let t = s.drop_first();
        let token = t.subrange(0, token_len(t, true) as int);
        let digits = if token.len() > 0 && token[0] == '+' {
            token.subrange(1, token.len() as int)
        } else {
            token
        };
        assert(i32_value(token) is Some);
        assert(!(token.len() > 0 && token[0] == '-'));
        assert(digits_value(digits) is Some);
        lemma_digits_sign(digits);
    }
}

/// A register that was read before a comma has a number below 32, and so
/// has the base register of an offset.
proof fn lemma_operand_ranges(s: Seq<char>)
    ensures
        spec_register_then(s) matches Some((r, rest)) ==> r < 32,
        spec_offset(s) matches Some(((imm, r), rest)) ==> r < 32,
{
    lemma_register_range(s);
    if let Some((imm, s1)) = spec_number(s, 12) {
        if let Some(s2) = spec_expect(s1, "("@) {
            lemma_register_range(s2);
        }
    }
}

/// The operands of an operation on registers give a word of that operation.
proof fn lemma_word_of_op(e: Entry, s: Seq<char>)
    requires
        e.form is Op,
        e.opcode == OPCODE_OP,
        e.funct3 < 8,
        e.funct7 < 128,
    ensures
        spec_operands(e, s) matches Some(w) ==> w & OPCODE_MASK == OPCODE_OP && RType::spec_decode(
            w,
        ).funct7 == e.funct7 && RType::spec_decode(w).funct3 == e.funct3,
{
    if let Some(w) = spec_operands(e, s) {
        let (rd, s1) = spec_register_then(s).unwrap();
        let (rs1, s2) = spec_register_then(s1).unwrap();
        let (rs2, s3) = spec_register(s2).unwrap();
        lemma_operand_ranges(s);
        lemma_operand_ranges(s1);
        lemma_register_range(s2);
        RType::law_fields_decode(
            RType { funct7: e.funct7, rs2, rs1, funct3: e.funct3, rd },
            e.opcode,
        );
    }
}

/// The operands of an operation in the immediate shape give a word of that
/// operation.
proof fn lemma_word_of_i(e: Entry, s: Seq<char>)
    requires
        e.form is OpImm || e.form is JalR || e.form is Load || e.form is System || e.form is Fence,
        e.opcode < 128,
        e.funct3 < 8,
        e.funct7 <= 1,
    ensures
        spec_operands(e, s) matches Some(w) ==> w & OPCODE_MASK == e.opcode && IType::spec_decode(
            w,
        ).funct3 == e.funct3 && (e.form is System ==> IType::spec_decode(w).imm == e.funct7),
{
    if let Some(w) = spec_operands(e, s) {
        match e.form {
            Form::OpImm => {
                let (rd, s1) = spec_register_then(s).unwrap();
                let (rs1, s2) = spec_register_then(s1).unwrap();
                let (imm, s3) = spec_number(s2, 12).unwrap();
                lemma_operand_ranges(s);
                lemma_operand_ranges(s1);
                IType::law_fields_decode(IType { imm, rs1, funct3: e.funct3, rd }, e.opcode);
            },
            Form::JalR | Form::Load => {
                let (rd, s1) = spec_register_then(s).unwrap();
                let ((imm, rs1), s2) = spec_offset(s1).unwrap();
                lemma_operand_ranges(s);
                lemma_operand_ranges(s1);
                IType::law_fields_decode(IType { imm, rs1, funct3: e.funct3, rd }, e.opcode);
            },
            Form::System => {
                IType::law_fields_decode(
                    IType { imm: e.funct7 as i32, rs1: 0, funct3: e.funct3, rd: 0 },
                    e.opcode,
                );
            },
            _ => {
                let (pred, s1) = spec_number(s, 4).unwrap();
                let s2 = spec_expect(s1, ", "@).unwrap();
                let (succ, s3) = spec_number(s2, 4).unwrap();
                IType::law_fields_decode(
                    IType { imm: fence_bits(pred, succ), rs1: 0, funct3: e.funct3, rd: 0 },
                    e.opcode,
                );
            },
        }
    }
}

/// The operands of a branch or a store give a word of that operation.
proof fn lemma_word_of_bs(e: Entry, s: Seq<char>)
    requires
        e.form is Branch || e.form is Store,
        e.opcode < 128,
        e.funct3 < 8,
    ensures
        spec_operands(e, s) matches Some(w) ==> {
            &&& w & OPCODE_MASK == e.opcode
            &&& e.form is Branch ==> BType::spec_decode(w).funct3 == e.funct3
            &&& e.form is Store ==> SType::spec_decode(w).funct3 == e.funct3
        },
{
    if let Some(w) = spec_operands(e, s) {
        let (first, s1) = spec_register_then(s).unwrap();
        lemma_operand_ranges(s);
        lemma_operand_ranges(s1);
        if e.form is Branch {
            let (rs2, s2) = spec_register_then(s1).unwrap();
            let (imm, s3) = spec_number(s2, 13).unwrap();
            BType::law_fields_decode(BType { imm, rs2, rs1: first, funct3: e.funct3 }, e.opcode);
        } else {
            let ((imm, rs1), s2) = spec_offset(s1).unwrap();
            SType::law_fields_decode(SType { imm, rs2: first, rs1, funct3: e.funct3 }, e.opcode);
        }
    }
}

/// The operands of an operation in the upper or the jump shape give a word
/// of that operation.
proof fn lemma_word_of_uj(e: Entry, s: Seq<char>)
    requires
        e.form is Upper || e.form is Jal,
        e.opcode < 128,
    ensures
        spec_operands(e, s) matches Some(w) ==> w & OPCODE_MASK == e.opcode,
{
    if let Some(w) = spec_operands(e, s) {
        let (rd, s1) = spec_register_then(s).unwrap();
        lemma_operand_ranges(s);
        if e.form is Upper {
            let (imm, s2) = spec_number(s1, 20).unwrap();
            UType::law_fields_decode(UType { imm, rd }, e.opcode);
        } else {
            let (imm, s2) = spec_number(s1, 21).unwrap();
            JType::law_fields_decode(JType { imm, rd }, e.opcode);
        }
    }
}

/// Every line that reads as a word of the base instruction set is a word
/// that the base engine recognizes, and every line that reads as a word of
/// the M extension is a word that the extension claims.
pub proof fn law_lines_are_instructions(line: Seq<char>)
    ensures
        spec_encode_rv32i(line) matches Some(w) ==> RV32I::recognizes(w),
        spec_encode_rv32m(line) matches Some(w) ==> <RV32M as Extension<RV32I>>::claims(w),
{
    let name = mnemonic_of(line);
    let ops = operands_of(line);
    lemma_tables(name);
    if let Some(e) = entry_rv32m(name) {
        lemma_word_of_op(e, ops);
    }
    if let Some(e) = entry_rv32i(name) {
        match e.form {
            Form::Op => lemma_word_of_op(e, ops),
            Form::Upper | Form::Jal => lemma_word_of_uj(e, ops),
            Form::Branch | Form::Store => lemma_word_of_bs(e, ops),
            _ => lemma_word_of_i(e, ops),
        }
    }
}

/// The words that are written as a line are the words that the base engine
/// recognizes.
pub proof fn law_written_words_are_recognized(ins: u32)
    ensures
        spec_decode_rv32i(ins) is Some <==> RV32I::recognizes(ins),
{
}

} // verus!

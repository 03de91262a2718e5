//! From text to instruction words.
//!
//! A line is a mnemonic, then, after one space, its operands. A register is
//! written `x` and its number, an immediate as a decimal number with an
//! optional sign. Operands are set apart by a comma and a space; an offset
//! and its base register are written `<imm>(x<reg>)`. Nothing else may stand
//! between the operands, and nothing may follow the last.

use crate::ins::BType;
use crate::ins::IType;
use crate::ins::JType;
use crate::ins::RType;
use crate::ins::SType;
use crate::ins::UType;
use crate::ins::OPCODE_AUIPC;
use crate::ins::OPCODE_BRANCH;
use crate::ins::OPCODE_JAL;
use crate::ins::OPCODE_JALR;
use crate::ins::OPCODE_LOAD;
use crate::ins::OPCODE_LUI;
use crate::ins::OPCODE_MISCMEM;
use crate::ins::OPCODE_OP;
use crate::ins::OPCODE_OPIMM;
use crate::ins::OPCODE_STORE;
use crate::ins::OPCODE_SYSTEM;
use vstd::prelude::*;
use vstd::string::*;

verus! {

// ---- Numbers ----
/// Whether `c` is a decimal digit.
pub open spec fn is_digit(c: char) -> bool {
    '0' <= c <= '9'
}

/// The value of a decimal digit.
pub open spec fn digit_of(c: char) -> int {
    (c as u32) - 48
}

/// Whether `s` holds decimal digits only.
pub open spec fn all_digits(s: Seq<char>) -> bool {
    forall|j: int| 0 <= j < s.len() ==> is_digit(#[trigger] s[j])
}

/// The number that a run of decimal digits spells.
pub open spec fn digits_acc(s: Seq<char>) -> int
    decreases s.len(),
{
    if s.len() == 0 {
        0
    } else {
        10 * digits_acc(s.drop_last()) + digit_of(s.last())
    }
}

/// The number that `s` spells, where it is one or more decimal digits.
pub open spec fn digits_value(s: Seq<char>) -> Option<int> {
    if s.len() > 0 && all_digits(s) {
        Some(digits_acc(s))
    } else {
        None
    }
}

/// The number that `s` spells, where it is one or more decimal digits after
/// an optional sign.
pub open spec fn int_value(s: Seq<char>) -> Option<int> {
    if s.len() > 0 && s[0] == '-' {
        match digits_value(s.subrange(1, s.len() as int)) {
            Some(v) => Some(-v),
            None => None,
        }
    } else if s.len() > 0 && s[0] == '+' {
        digits_value(s.subrange(1, s.len() as int))
    } else {
        digits_value(s)
    }
}

/// The number that `s` spells, where it is a decimal number with an optional
/// sign that fits 32 bits.
pub open spec fn i32_value(s: Seq<char>) -> Option<i32> {
    match int_value(s) {
        Some(v) => if i32::MIN <= v <= i32::MAX {
            Some(v as i32)
        } else {
            None
        },
        None => None,
    }
}

/// The number that `s` spells, where it is one or more decimal digits after
/// an optional plus sign and fits 32 bits without a sign.
pub open spec fn u32_value(s: Seq<char>) -> Option<u32> {
    let digits = if s.len() > 0 && s[0] == '+' {
        s.subrange(1, s.len() as int)
    } else {
        s
    };
    match digits_value(digits) {
        Some(v) => if v <= u32::MAX {
            Some(v as u32)
        } else {
            None
        },
        None => None,
    }
}

/// Two to the power `length`, for a field of at most 32 bits; a longer field
/// counts as one of 32 bits.
pub open spec fn field_range(length: u32) -> i64 {
    if length >= 32 {
        0x1_0000_0000
    } else {
        1i64 << length
    }
}

/// Whether a number may stand in a field of `length` bits: below two to the
/// power `length` where it was written without a minus sign, and negative
/// and not below minus that where it was written with one.
pub open spec fn fits(value: i32, negative: bool, length: u32) -> bool {
    if negative {
        -field_range(length) <= value < 0
    } else {
        value < field_range(length)
    }
}

// ---- Tokens ----
/// Whether `c` ends a token: a comma always, a parenthesis where `special`.
pub open spec fn is_stop(c: char, special: bool) -> bool {
    c == ',' || (special && (c == '(' || c == ')'))
}

/// The number of characters of `s` before the first that ends a token.
pub open spec fn token_len(s: Seq<char>, special: bool) -> nat
    decreases s.len(),
{
    if s.len() == 0 || is_stop(s[0], special) {
        0
    } else {
        1 + token_len(s.drop_first(), special)
    }
}

/// The number that the first token of `s` spells, whether it was written
/// with a minus sign, and what is left of `s`: what ended the token, and all
/// after it.
pub open spec fn spec_number_internal(s: Seq<char>, special: bool) -> Option<
    ((i32, bool), Seq<char>),
> {
    let n = token_len(s, special) as int;
    let token = s.subrange(0, n);
    match i32_value(token) {
        Some(v) => Some(((v, token.len() > 0 && token[0] == '-'), s.subrange(n, s.len() as int))),
        None => None,
    }
}

/// What is left of `s` after `word`, where `s` begins with it.
pub open spec fn spec_expect(s: Seq<char>, word: Seq<char>) -> Option<Seq<char>> {
    if word.len() <= s.len() && s.subrange(0, word.len() as int) == word {
        Some(s.subrange(word.len() as int, s.len() as int))
    } else {
        None
    }
}

/// The register that `s` begins with, and what is left of `s`: an `x`, then
/// a number from 0 to 31 without a minus sign.
pub open spec fn spec_register(s: Seq<char>) -> Option<(u8, Seq<char>)> {
    if s.len() > 0 && s[0] == 'x' {
        match spec_number_internal(s.drop_first(), true) {
            Some(((v, negative), rest)) => if negative || v > 31 {
                None
            } else {
                Some((v as u8, rest))
            },
            None => None,
        }
    } else {
        None
    }
}

/// The immediate that `s` begins with, and what is left of `s`: a number
/// that fits `length` bits.
pub open spec fn spec_number(s: Seq<char>, length: u32) -> Option<(i32, Seq<char>)> {
    match spec_number_internal(s, true) {
        Some(((v, negative), rest)) => if fits(v, negative, length) {
            Some((v, rest))
        } else {
            None
        },
        None => None,
    }
}

fn digit(c: char) -> (r: Option<i64>)
    ensures
        r is Some == is_digit(c),
        r matches Some(d) ==> d == digit_of(c) && 0 <= d <= 9,
{
    if c >= '0' && c <= '9' {
        Some((c as u32 - 48) as i64)
    } else {
        None
    }
}

/// The least of `a` and `b`.
pub open spec fn least(a: int, b: int) -> int {
    if a <= b {
        a
    } else {
        b
    }
}

/// Reads `text[from..to]` as decimal digits. The result is exact below
/// `cap` and is `cap` for every larger number.
fn parse_digits(text: &Vec<char>, from: usize, to: usize, cap: i64) -> (r: Option<i64>)
    requires
        from <= to <= text.len(),
        0 < cap <= 0x1_0000_0000,
    ensures
        match digits_value(text@.subrange(from as int, to as int)) {
            Some(v) => r == Some(least(v, cap as int) as i64) && v >= 0,
            None => r is None,
        },
{
    let ghost s = text@.subrange(from as int, to as int);
    if from == to {
        return None;
    }
    let mut acc: i64 = 0;
    let mut i: usize = from;
    while i < to
        invariant
            from <= i <= to <= text.len(),
            0 < cap <= 0x1_0000_0000,
            s == text@.subrange(from as int, to as int),
            all_digits(text@.subrange(from as int, i as int)),
            acc == least(digits_acc(text@.subrange(from as int, i as int)), cap as int),
            digits_acc(text@.subrange(from as int, i as int)) >= 0,
        decreases to - i,
    {
        let ghost before = text@.subrange(from as int, i as int);
        let ghost now = text@.subrange(from as int, i + 1);
        match digit(text[i]) {
            None => {
                assert(!is_digit(s[i - from]));
                return None;
            },
            Some(d) => {
                assert(now.drop_last() =~= before);
                assert(now.last() == text@[i as int]);
                acc = acc * 10 + d;
                if acc > cap {
                    acc = cap;
                }
            },
        }
        i += 1;
    }
    assert(text@.subrange(from as int, i as int) =~= s);
    Some(acc)
}

/// Reads `text[from..to]` as a decimal number with an optional sign.
fn parse_i32(text: &Vec<char>, from: usize, to: usize) -> (r: Option<i32>)
    requires
        from <= to <= text.len(),
    ensures
        r == i32_value(text@.subrange(from as int, to as int)),
{
    let ghost s = text@.subrange(from as int, to as int);
    let signed = from < to && (text[from] == '-' || text[from] == '+');
    let negative = from < to && text[from] == '-';
    let first: usize = if signed {
        from + 1
    } else {
        from
    };
    assert(text@.subrange(first as int, to as int) =~= if signed {
        s.subrange(1, s.len() as int)
    } else {
        s
    });
    let size = parse_digits(text, first, to, 0x8000_0001)?;
    if negative {
        if size > 0x8000_0000 {
            None
        } else {
            Some((-size) as i32)
        }
    } else if size > 0x7fff_ffff {
        None
    } else {
        Some(size as i32)
    }
}

/// Reads `text` as a decimal number without a sign, or with a plus sign.
pub fn parse_u32(text: &Vec<char>) -> (r: Option<u32>)
    ensures
        r == u32_value(text@),
{
    let to = text.len();
    let first: usize = if 0 < to && text[0] == '+' {
        1
    } else {
        0
    };
    assert(text@.subrange(0, to as int) =~= text@);
    let size = parse_digits(text, first, to, 0x1_0000_0000)?;
    if size > 0xffff_ffff {
        None
    } else {
        Some(size as u32)
    }
}

// ---- The parser ----
/// A reader of operands: it holds what is left of a line.
pub struct ArgParser {
    text: Vec<char>,
    at: usize,
}

impl View for ArgParser {
    type V = Seq<char>;

    /// What is left to read.
    closed spec fn view(&self) -> Seq<char> {
        self.text@.subrange(self.at as int, self.text@.len() as int)
    }
}

/// The characters of `text`.
fn chars_of(text: &str) -> (v: Vec<char>)
    ensures
        v@ == text@,
{
    let n = text.unicode_len();
    let mut v: Vec<char> = Vec::new();
    let mut i: usize = 0;
    while i < n
        invariant
            n == text@.len(),
            i <= n,
            v@ == text@.subrange(0, i as int),
        decreases n - i,
    {
        v.push(text.get_char(i));
        i += 1;
        assert(v@ =~= text@.subrange(0, i as int));
    }
    assert(v@ =~= text@);
    v
}

impl ArgParser {
    #[verifier::type_invariant]
    spec fn in_text(&self) -> bool {
        self.at <= self.text@.len()
    }

    /// A reader of `s`.
    pub fn new(s: &str) -> (r: Self)
        ensures
            r@ == s@,
    {
        let r = Self { text: chars_of(s), at: 0 };
        assert(r@ =~= s@);
        r
    }

    /// Whether nothing is left to read.
    pub fn is_empty(&self) -> (b: bool)
        ensures
            b == (self@.len() == 0),
    {
        proof {
            use_type_invariant(self);
        }
        self.at == self.text.len()
    }

    /// Reads a register, and leaves what follows it. Where there is none,
    /// nothing is left to read.
    pub fn register(&mut self) -> (r: Option<u8>)
        ensures
            match spec_register(old(self)@) {
                Some((v, rest)) => r == Some(v) && final(self)@ == rest,
                None => r is None && final(self)@.len() == 0,
            },
    {
        proof {
            use_type_invariant(&*self);
        }
        if self.at == self.text.len() || self.text[self.at] != 'x' {
            self.at = self.text.len();
            return None;
        }
        self.at = self.at + 1;
        assert(self@ =~= old(self)@.drop_first());
        match self.number_internal(true) {
            Some((v, n)) => {
                if n || v > 31 {
                    proof {
                        use_type_invariant(&*self);
                    }
                    self.at = self.text.len();
                    None
                } else {
                    Some(v as u8)
                }
            },
            None => None,
        }
    }

    /// Reads an immediate for a field of `length` bits, and leaves what
    /// follows it. Where there is none, nothing is left to read.
    pub fn number(&mut self, length: u32) -> (r: Option<i32>)
        ensures
            match spec_number(old(self)@, length) {
                Some((v, rest)) => r == Some(v) && final(self)@ == rest,
                None => r is None && final(self)@.len() == 0,
            },
    {
        match self.number_internal(true) {
            Some((number, negative)) => {
                let limit: i64 = if length >= 32 {
                    0x1_0000_0000
                } else {
                    1i64 << length
                };
                assert(0 < limit <= 0x1_0000_0000) by (bit_vector)
                    requires
                        limit == if length >= 32 {
                            0x1_0000_0000
                        } else {
                            1i64 << length
                        },
                ;
                let fitting = if negative {
                    number < 0 && -limit <= number as i64
                } else {
                    (number as i64) < limit
                };
                if fitting {
                    Some(number)
                } else {
                    proof {
                        use_type_invariant(&*self);
                    }
                    self.at = self.text.len();
                    None
                }
            },
            None => None,
        }
    }

    /// Reads `word`, which must come next. Where it does not, nothing is
    /// left to read.
    pub fn expect(&mut self, word: &str) -> (r: Option<()>)
        ensures
            match spec_expect(old(self)@, word@) {
                Some(rest) => r is Some && final(self)@ == rest,
                None => r is None && final(self)@.len() == 0,
            },
    {
        proof {
            use_type_invariant(&*self);
        }
        let ghost s = self@;
        let n = word.unicode_len();
        let start = self.at;
        let len = self.text.len();
        if n > len - start {
            self.at = len;
            return None;
        }
        let mut i: usize = 0;
        while i < n
            invariant
                n == word@.len(),
                start + n <= len,
                len == self.text@.len(),
                s == old(self)@,
                s == self.text@.subrange(start as int, len as int),
                i <= n,
                forall|j: int| 0 <= j < i ==> s[j] == word@[j],
            decreases n - i,
        {
            if self.text[start + i] != word.get_char(i) {
                assert(s[i as int] == self.text@[start + i]);
                assert(s.subrange(0, n as int)[i as int] != word@[i as int]);
                self.at = len;
                return None;
            }
            assert(s[i as int] == self.text@[start + i]);
            i += 1;
        }
        assert(s.subrange(0, n as int) =~= word@);
        self.at = start + n;
        assert(self@ =~= s.subrange(n as int, s.len() as int));
        Some(())
    }

    /// Reads a number and tells whether it was written with a minus sign;
    /// what ended it stays to be read. Where there is none, nothing is left
    /// to read.
    fn number_internal(&mut self, special: bool) -> (r: Option<(i32, bool)>)
        ensures
            match spec_number_internal(old(self)@, special) {
                Some((v, rest)) => r == Some(v) && final(self)@ == rest,
                None => r is None && final(self)@.len() == 0,
            },
    {
        proof {
            use_type_invariant(&*self);
        }
        let ghost s = self@;
        let start = self.at;
        let len = self.text.len();
        let mut end = start;
        assert(s.subrange(0, s.len() as int) =~= s);
        while end < len && !(self.text[end] == ',' || (special && (self.text[end] == '('
            || self.text[end] == ')')))
            invariant
                start <= end <= len,
                len == self.text@.len(),
                s == self.text@.subrange(start as int, len as int),
                token_len(s, special) == (end - start) + token_len(
                    s.subrange(end - start, s.len() as int),
                    special,
                ),
            decreases len - end,
        {
            let ghost here = s.subrange(end - start, s.len() as int);
            assert(here[0] == self.text@[end as int]);
            assert(here.drop_first() =~= s.subrange(end + 1 - start, s.len() as int));
            end += 1;
        }
        proof {
            let here = s.subrange(end - start, s.len() as int);
            if end < len {
                assert(here[0] == self.text@[end as int]);
            }
            assert(token_len(here, special) == 0);
            assert(s.subrange(0, end - start) =~= self.text@.subrange(start as int, end as int));
        }
        let value = parse_i32(&self.text, start, end);
        let negative = start < end && self.text[start] == '-';
        self.at = end;
        assert(self@ =~= s.subrange(end - start, s.len() as int));
        match value {
            Some(v) => Some((v, negative)),
            None => {
                self.at = len;
                None
            },
        }
    }
}

// ---- Mnemonics ----
/// How the operands of an instruction are written.
#[derive(Clone, Copy, Debug, PartialEq, Eq, Structural)]
pub enum Form {
    /// `rd, rs1, imm`
    OpImm,
    /// `rd, imm`
    Upper,
    /// `rd, rs1, rs2`
    Op,
    /// `rd, imm`
    Jal,
    /// `rd, imm(rs1)`
    JalR,
    /// `rs1, rs2, imm`
    Branch,
    /// `rd, imm(rs1)`
    Load,
    /// `rs2, imm(rs1)`
    Store,
    /// no operands
    System,
    /// `pred, succ`
    Fence,
}

/// What a mnemonic stands for.
#[derive(Clone, Copy, Debug, PartialEq, Eq, Structural)]
pub struct Entry {
    pub form: Form,
    pub opcode: u32,
    pub funct3: u8,
    /// `funct7`; for `System`, the immediate.
    pub funct7: u8,
}

/// The number of characters of `s` before its first space.
pub open spec fn word_len(s: Seq<char>) -> nat
    decreases s.len(),
{
    if s.len() == 0 || s[0] == ' ' {
        0
    } else {
        1 + word_len(s.drop_first())
    }
}

/// The mnemonic of a line: what stands before its first space.
pub open spec fn mnemonic_of(line: Seq<char>) -> Seq<char> {
    line.subrange(0, word_len(line) as int)
}

/// The operands of a line: what stands after its first space.
pub open spec fn operands_of(line: Seq<char>) -> Seq<char> {
    if word_len(line) < line.len() {
        line.subrange(word_len(line) as int + 1, line.len() as int)
    } else {
        Seq::empty()
    }
}

fn is_word(text: &Vec<char>, end: usize, word: &str) -> (b: bool)
    requires
        end <= text.len(),
    ensures
        b == (text@.subrange(0, end as int) == word@),
{
    let n = word.unicode_len();
    if end != n {
        return false;
    }
    let mut i: usize = 0;
    while i < n
        invariant
            n == word@.len(),
            end == n,
            end <= text.len(),
            i <= n,
            forall|j: int| 0 <= j < i ==> text@[j] == word@[j],
        decreases n - i,
    {
        if text[i] != word.get_char(i) {
            assert(text@.subrange(0, end as int)[i as int] != word@[i as int]);
            return false;
        }
        i += 1;
    }
    assert(text@.subrange(0, end as int) =~= word@);
    true
}

/// The mnemonics of the base instruction set.
pub open spec fn entry_rv32i(name: Seq<char>) -> Option<Entry> {
    if name == "addi"@ {
        Some(Entry { form: Form::OpImm, opcode: OPCODE_OPIMM, funct3: 0, funct7: 0 })
    } else if name == "slti"@ {
        Some(Entry { form: Form::OpImm, opcode: OPCODE_OPIMM, funct3: 2, funct7: 0 })
    } else if name == "sltiu"@ {
        Some(Entry { form: Form::OpImm, opcode: OPCODE_OPIMM, funct3: 3, funct7: 0 })
    } else if name == "xori"@ {
        Some(Entry { form: Form::OpImm, opcode: OPCODE_OPIMM, funct3: 4, funct7: 0 })
    } else if name == "ori"@ {
        Some(Entry { form: Form::OpImm, opcode: OPCODE_OPIMM, funct3: 6, funct7: 0 })
    } else if name == "andi"@ {
        Some(Entry { form: Form::OpImm, opcode: OPCODE_OPIMM, funct3: 7, funct7: 0 })
    } else if name == "lui"@ {
        Some(Entry { form: Form::Upper, opcode: OPCODE_LUI, funct3: 0, funct7: 0 })
    } else if name == "auipc"@ {
        Some(Entry { form: Form::Upper, opcode: OPCODE_AUIPC, funct3: 0, funct7: 0 })
    } else if name == "add"@ {
        Some(Entry { form: Form::Op, opcode: OPCODE_OP, funct3: 0, funct7: 0 })
    } else if name == "sub"@ {
        Some(Entry { form: Form::Op, opcode: OPCODE_OP, funct3: 0, funct7: 32 })
    } else if name == "sll"@ {
        Some(Entry { form: Form::Op, opcode: OPCODE_OP, funct3: 1, funct7: 0 })
    } else if name == "slt"@ {
        Some(Entry { form: Form::Op, opcode: OPCODE_OP, funct3: 2, funct7: 0 })
    } else if name == "sltu"@ {
        Some(Entry { form: Form::Op, opcode: OPCODE_OP, funct3: 3, funct7: 0 })
    } else if name == "xor"@ {
        Some(Entry { form: Form::Op, opcode: OPCODE_OP, funct3: 4, funct7: 0 })
    } else if name == "srl"@ {
        Some(Entry { form: Form::Op, opcode: OPCODE_OP, funct3: 5, funct7: 0 })
    } else if name == "sra"@ {
        Some(Entry { form: Form::Op, opcode: OPCODE_OP, funct3: 5, funct7: 32 })
    } else if name == "or"@ {
        Some(Entry { form: Form::Op, opcode: OPCODE_OP, funct3: 6, funct7: 0 })
    } else if name == "and"@ {
        Some(Entry { form: Form::Op, opcode: OPCODE_OP, funct3: 7, funct7: 0 })
    } else if name == "jal"@ {
        Some(Entry { form: Form::Jal, opcode: OPCODE_JAL, funct3: 0, funct7: 0 })
    } else if name == "jalr"@ {
        Some(Entry { form: Form::JalR, opcode: OPCODE_JALR, funct3: 0, funct7: 0 })
    } else if name == "beq"@ {
        Some(Entry { form: Form::Branch, opcode: OPCODE_BRANCH, funct3: 0, funct7: 0 })
    } else if name == "bne"@ {
        Some(Entry { form: Form::Branch, opcode: OPCODE_BRANCH, funct3: 1, funct7: 0 })
    } else if name == "blt"@ {
        Some(Entry { form: Form::Branch, opcode: OPCODE_BRANCH, funct3: 4, funct7: 0 })
    } else if name == "bge"@ {
        Some(Entry { form: Form::Branch, opcode: OPCODE_BRANCH, funct3: 5, funct7: 0 })
    } else if name == "bltu"@ {
        Some(Entry { form: Form::Branch, opcode: OPCODE_BRANCH, funct3: 6, funct7: 0 })
    } else if name == "bgeu"@ {
        Some(Entry { form: Form::Branch, opcode: OPCODE_BRANCH, funct3: 7, funct7: 0 })
    } else if name == "lb"@ {
        Some(Entry { form: Form::Load, opcode: OPCODE_LOAD, funct3: 0, funct7: 0 })
    } else if name == "lh"@ {
        Some(Entry { form: Form::Load, opcode: OPCODE_LOAD, funct3: 1, funct7: 0 })
    } else if name == "lw"@ {
        Some(Entry { form: Form::Load, opcode: OPCODE_LOAD, funct3: 2, funct7: 0 })
    } else if name == "lbu"@ {
        Some(Entry { form: Form::Load, opcode: OPCODE_LOAD, funct3: 4, funct7: 0 })
    } else if name == "lhu"@ {
        Some(Entry { form: Form::Load, opcode: OPCODE_LOAD, funct3: 5, funct7: 0 })
    } else if name == "sb"@ {
        Some(Entry { form: Form::Store, opcode: OPCODE_STORE, funct3: 0, funct7: 0 })
    } else if name == "sh"@ {
        Some(Entry { form: Form::Store, opcode: OPCODE_STORE, funct3: 1, funct7: 0 })
    } else if name == "sw"@ {
        Some(Entry { form: Form::Store, opcode: OPCODE_STORE, funct3: 2, funct7: 0 })
    } else if name == "ecall"@ {
        Some(Entry { form: Form::System, opcode: OPCODE_SYSTEM, funct3: 0, funct7: 0 })
    } else if name == "ebreak"@ {
        Some(Entry { form: Form::System, opcode: OPCODE_SYSTEM, funct3: 0, funct7: 1 })
    } else if name == "fence"@ {
        Some(Entry { form: Form::Fence, opcode: OPCODE_MISCMEM, funct3: 0, funct7: 0 })
    } else {
        None
    }
}

/// The mnemonics of the M extension.
pub open spec fn entry_rv32m(name: Seq<char>) -> Option<Entry> {
    if name == "mul"@ {
        Some(Entry { form: Form::Op, opcode: OPCODE_OP, funct3: 0, funct7: 1 })
    } else if name == "mulh"@ {
        Some(Entry { form: Form::Op, opcode: OPCODE_OP, funct3: 1, funct7: 1 })
    } else if name == "mulhu"@ {
        Some(Entry { form: Form::Op, opcode: OPCODE_OP, funct3: 2, funct7: 1 })
    } else if name == "mulhsu"@ {
        Some(Entry { form: Form::Op, opcode: OPCODE_OP, funct3: 3, funct7: 1 })
    } else if name == "div"@ {
        Some(Entry { form: Form::Op, opcode: OPCODE_OP, funct3: 4, funct7: 1 })
    } else if name == "divu"@ {
        Some(Entry { form: Form::Op, opcode: OPCODE_OP, funct3: 5, funct7: 1 })
    } else if name == "rem"@ {
        Some(Entry { form: Form::Op, opcode: OPCODE_OP, funct3: 6, funct7: 1 })
    } else if name == "remu"@ {
        Some(Entry { form: Form::Op, opcode: OPCODE_OP, funct3: 7, funct7: 1 })
    } else {
        None
    }
}

fn lookup_rv32i(text: &Vec<char>, end: usize) -> (r: Option<Entry>)
    requires
        end <= text.len(),
    ensures
        r == entry_rv32i(text@.subrange(0, end as int)),
{
    if is_word(text, end, "addi") {
        Some(Entry { form: Form::OpImm, opcode: OPCODE_OPIMM, funct3: 0, funct7: 0 })
    } else if is_word(text, end, "slti") {
        Some(Entry { form: Form::OpImm, opcode: OPCODE_OPIMM, funct3: 2, funct7: 0 })
    } else if is_word(text, end, "sltiu") {
        Some(Entry { form: Form::OpImm, opcode: OPCODE_OPIMM, funct3: 3, funct7: 0 })
    } else if is_word(text, end, "xori") {
        Some(Entry { form: Form::OpImm, opcode: OPCODE_OPIMM, funct3: 4, funct7: 0 })
    } else if is_word(text, end, "ori") {
        Some(Entry { form: Form::OpImm, opcode: OPCODE_OPIMM, funct3: 6, funct7: 0 })
    } else if is_word(text, end, "andi") {
        Some(Entry { form: Form::OpImm, opcode: OPCODE_OPIMM, funct3: 7, funct7: 0 })
    } else if is_word(text, end, "lui") {
        Some(Entry { form: Form::Upper, opcode: OPCODE_LUI, funct3: 0, funct7: 0 })
    } else if is_word(text, end, "auipc") {
        Some(Entry { form: Form::Upper, opcode: OPCODE_AUIPC, funct3: 0, funct7: 0 })
    } else if is_word(text, end, "add") {
        Some(Entry { form: Form::Op, opcode: OPCODE_OP, funct3: 0, funct7: 0 })
    } else if is_word(text, end, "sub") {
        Some(Entry { form: Form::Op, opcode: OPCODE_OP, funct3: 0, funct7: 32 })
    } else if is_word(text, end, "sll") {
        Some(Entry { form: Form::Op, opcode: OPCODE_OP, funct3: 1, funct7: 0 })
    } else if is_word(text, end, "slt") {
        Some(Entry { form: Form::Op, opcode: OPCODE_OP, funct3: 2, funct7: 0 })
    } else if is_word(text, end, "sltu") {
        Some(Entry { form: Form::Op, opcode: OPCODE_OP, funct3: 3, funct7: 0 })
    } else if is_word(text, end, "xor") {
        Some(Entry { form: Form::Op, opcode: OPCODE_OP, funct3: 4, funct7: 0 })
    } else if is_word(text, end, "srl") {
        Some(Entry { form: Form::Op, opcode: OPCODE_OP, funct3: 5, funct7: 0 })
    } else if is_word(text, end, "sra") {
        Some(Entry { form: Form::Op, opcode: OPCODE_OP, funct3: 5, funct7: 32 })
    } else if is_word(text, end, "or") {
        Some(Entry { form: Form::Op, opcode: OPCODE_OP, funct3: 6, funct7: 0 })
    } else if is_word(text, end, "and") {
        Some(Entry { form: Form::Op, opcode: OPCODE_OP, funct3: 7, funct7: 0 })
    } else if is_word(text, end, "jal") {
        Some(Entry { form: Form::Jal, opcode: OPCODE_JAL, funct3: 0, funct7: 0 })
    } else if is_word(text, end, "jalr") {
        Some(Entry { form: Form::JalR, opcode: OPCODE_JALR, funct3: 0, funct7: 0 })
    } else if is_word(text, end, "beq") {
        Some(Entry { form: Form::Branch, opcode: OPCODE_BRANCH, funct3: 0, funct7: 0 })
    } else if is_word(text, end, "bne") {
        Some(Entry { form: Form::Branch, opcode: OPCODE_BRANCH, funct3: 1, funct7: 0 })
    } else if is_word(text, end, "blt") {
        Some(Entry { form: Form::Branch, opcode: OPCODE_BRANCH, funct3: 4, funct7: 0 })
    } else if is_word(text, end, "bge") {
        Some(Entry { form: Form::Branch, opcode: OPCODE_BRANCH, funct3: 5, funct7: 0 })
    } else if is_word(text, end, "bltu") {
        Some(Entry { form: Form::Branch, opcode: OPCODE_BRANCH, funct3: 6, funct7: 0 })
    } else if is_word(text, end, "bgeu") {
        Some(Entry { form: Form::Branch, opcode: OPCODE_BRANCH, funct3: 7, funct7: 0 })
    } else if is_word(text, end, "lb") {
        Some(Entry { form: Form::Load, opcode: OPCODE_LOAD, funct3: 0, funct7: 0 })
    } else if is_word(text, end, "lh") {
        Some(Entry { form: Form::Load, opcode: OPCODE_LOAD, funct3: 1, funct7: 0 })
    } else if is_word(text, end, "lw") {
        Some(Entry { form: Form::Load, opcode: OPCODE_LOAD, funct3: 2, funct7: 0 })
    } else if is_word(text, end, "lbu") {
        Some(Entry { form: Form::Load, opcode: OPCODE_LOAD, funct3: 4, funct7: 0 })
    } else if is_word(text, end, "lhu") {
        Some(Entry { form: Form::Load, opcode: OPCODE_LOAD, funct3: 5, funct7: 0 })
    } else if is_word(text, end, "sb") {
        Some(Entry { form: Form::Store, opcode: OPCODE_STORE, funct3: 0, funct7: 0 })
    } else if is_word(text, end, "sh") {
        Some(Entry { form: Form::Store, opcode: OPCODE_STORE, funct3: 1, funct7: 0 })
    } else if is_word(text, end, "sw") {
        Some(Entry { form: Form::Store, opcode: OPCODE_STORE, funct3: 2, funct7: 0 })
    } else if is_word(text, end, "ecall") {
        Some(Entry { form: Form::System, opcode: OPCODE_SYSTEM, funct3: 0, funct7: 0 })
    } else if is_word(text, end, "ebreak") {
        Some(Entry { form: Form::System, opcode: OPCODE_SYSTEM, funct3: 0, funct7: 1 })
    } else if is_word(text, end, "fence") {
        Some(Entry { form: Form::Fence, opcode: OPCODE_MISCMEM, funct3: 0, funct7: 0 })
    } else {
        None
    }
}

fn lookup_rv32m(text: &Vec<char>, end: usize) -> (r: Option<Entry>)
    requires
        end <= text.len(),
    ensures
        r == entry_rv32m(text@.subrange(0, end as int)),
{
    if is_word(text, end, "mul") {
        Some(Entry { form: Form::Op, opcode: OPCODE_OP, funct3: 0, funct7: 1 })
    } else if is_word(text, end, "mulh") {
        Some(Entry { form: Form::Op, opcode: OPCODE_OP, funct3: 1, funct7: 1 })
    } else if is_word(text, end, "mulhu") {
        Some(Entry { form: Form::Op, opcode: OPCODE_OP, funct3: 2, funct7: 1 })
    } else if is_word(text, end, "mulhsu") {
        Some(Entry { form: Form::Op, opcode: OPCODE_OP, funct3: 3, funct7: 1 })
    } else if is_word(text, end, "div") {
        Some(Entry { form: Form::Op, opcode: OPCODE_OP, funct3: 4, funct7: 1 })
    } else if is_word(text, end, "divu") {
        Some(Entry { form: Form::Op, opcode: OPCODE_OP, funct3: 5, funct7: 1 })
    } else if is_word(text, end, "rem") {
        Some(Entry { form: Form::Op, opcode: OPCODE_OP, funct3: 6, funct7: 1 })
    } else if is_word(text, end, "remu") {
        Some(Entry { form: Form::Op, opcode: OPCODE_OP, funct3: 7, funct7: 1 })
    } else {
        None
    }
}

// ---- Lines ----
/// The word where nothing is left of the line, nothing where something is.
pub open spec fn finish(rest: Seq<char>, word: u32) -> Option<u32> {
    if rest.len() == 0 {
        Some(word)
    } else {
        None
    }
}

/// The bits of a `fence`: the predecessor mask above the successor mask.
pub open spec fn fence_bits(pred: i32, succ: i32) -> i32 {
    ((pred as u32) << 4 | (succ as u32)) as i32
}

/// What is left of `s` after a register and the comma and space behind it.
pub open spec fn spec_register_then(s: Seq<char>) -> Option<(u8, Seq<char>)> {
    match spec_register(s) {
        Some((r, rest)) => match spec_expect(rest, ", "@) {
            Some(after) => Some((r, after)),
            None => None,
        },
        None => None,
    }
}

/// An offset and its base register, `<imm>(x<reg>)`, and what is left of
/// `s`.
pub open spec fn spec_offset(s: Seq<char>) -> Option<((i32, u8), Seq<char>)> {
    match spec_number(s, 12) {
        Some((imm, s1)) => match spec_expect(s1, "("@) {
            Some(s2) => match spec_register(s2) {
                Some((rs1, s3)) => match spec_expect(s3, ")"@) {
                    Some(s4) => Some(((imm, rs1), s4)),
                    None => None,
                },
                None => None,
            },
            None => None,
        },
        None => None,
    }
}

/// The instruction word that the operands in `s` give with `e`.
pub open spec fn spec_operands(e: Entry, s: Seq<char>) -> Option<u32> {
    match e.form {
        Form::OpImm => match spec_register_then(s) {
            Some((rd, s1)) => match spec_register_then(s1) {
                Some((rs1, s2)) => match spec_number(s2, 12) {
                    Some((imm, s3)) => finish(
                        s3,
                        (IType { imm, rs1, funct3: e.funct3, rd }).spec_encode() | e.opcode,
                    ),
                    None => None,
                },
                None => None,
            },
            None => None,
        },
        Form::Upper => match spec_register_then(s) {
            Some((rd, s1)) => match spec_number(s1, 20) {
                Some((imm, s2)) => finish(s2, (UType { imm, rd }).spec_encode() | e.opcode),
                None => None,
            },
            None => None,
        },
        Form::Op => match spec_register_then(s) {
            Some((rd, s1)) => match spec_register_then(s1) {
                Some((rs1, s2)) => match spec_register(s2) {
                    Some((rs2, s3)) => finish(
                        s3,
                        (RType {
                            funct7: e.funct7,
                            rs2,
                            rs1,
                            funct3: e.funct3,
                            rd,
                        }).spec_encode() | e.opcode,
                    ),
                    None => None,
                },
                None => None,
            },
            None => None,
        },
        Form::Jal => match spec_register_then(s) {
            Some((rd, s1)) => match spec_number(s1, 21) {
                Some((imm, s2)) => finish(s2, (JType { imm, rd }).spec_encode() | e.opcode),
                None => None,
            },
            None => None,
        },
        Form::JalR | Form::Load => match spec_register_then(s) {
            Some((rd, s1)) => match spec_offset(s1) {
                Some(((imm, rs1), s2)) => finish(
                    s2,
                    (IType { imm, rs1, funct3: e.funct3, rd }).spec_encode() | e.opcode,
                ),
                None => None,
            },
            None => None,
        },
        Form::Branch => match spec_register_then(s) {
            Some((rs1, s1)) => match spec_register_then(s1) {
                Some((rs2, s2)) => match spec_number(s2, 13) {
                    Some((imm, s3)) => finish(
                        s3,
                        (BType { imm, rs2, rs1, funct3: e.funct3 }).spec_encode() | e.opcode,
                    ),
                    None => None,
                },
                None => None,
            },
            None => None,
        },
        Form::Store => match spec_register_then(s) {
            Some((rs2, s1)) => match spec_offset(s1) {
                Some(((imm, rs1), s2)) => finish(
                    s2,
                    (SType { imm, rs2, rs1, funct3: e.funct3 }).spec_encode() | e.opcode,
                ),
                None => None,
            },
            None => None,
        },
        Form::System => finish(
            s,
            (IType {
                imm: e.funct7 as i32,
                rs1: 0,
                funct3: e.funct3,
                rd: 0,
            }).spec_encode() | e.opcode,
        ),
        Form::Fence => match spec_number(s, 4) {
            Some((pred, s1)) => match spec_expect(s1, ", "@) {
                Some(s2) => match spec_number(s2, 4) {
                    Some((succ, s3)) => finish(
                        s3,
                        (IType {
                            imm: fence_bits(pred, succ),
                            rs1: 0,
                            funct3: e.funct3,
                            rd: 0,
                        }).spec_encode() | e.opcode,
                    ),
                    None => None,
                },
                None => None,
            },
            None => None,
        },
    }
}

/// The instruction word that a line of the base instruction set spells.
pub open spec fn spec_encode_rv32i(line: Seq<char>) -> Option<u32> {
    match entry_rv32i(mnemonic_of(line)) {
        Some(e) => spec_operands(e, operands_of(line)),
        None => None,
    }
}

/// The instruction word that a line of the M extension spells.
pub open spec fn spec_encode_rv32m(line: Seq<char>) -> Option<u32> {
    match entry_rv32m(mnemonic_of(line)) {
        Some(e) => spec_operands(e, operands_of(line)),
        None => None,
    }
}

/// The instruction word that a line spells: of the base instruction set, or
/// else of the M extension.
pub open spec fn spec_encode_instruction(line: Seq<char>) -> Option<u32> {
    match spec_encode_rv32i(line) {
        Some(w) => Some(w),
        None => spec_encode_rv32m(line),
    }
}

fn done(parser: &ArgParser, word: u32) -> (r: Option<u32>)
    ensures
        r == finish(parser@, word),
{
    if parser.is_empty() {
        Some(word)
    } else {
        None
    }
}

/// Reads a register and the comma and space behind it.
fn register_then(parser: &mut ArgParser) -> (r: Option<u8>)
    ensures
        match spec_register_then(old(parser)@) {
            Some((v, rest)) => r == Some(v) && final(parser)@ == rest,
            None => r is None,
        },
{
    let v = parser.register()?;
    parser.expect(", ")?;
    Some(v)
}

/// Reads an offset and its base register, `<imm>(x<reg>)`.
fn offset(parser: &mut ArgParser) -> (r: Option<(i32, u8)>)
    ensures
        match spec_offset(old(parser)@) {
            Some((v, rest)) => r == Some(v) && final(parser)@ == rest,
            None => r is None,
        },
{
    let imm = parser.number(12)?;
    parser.expect("(")?;
    let rs1 = parser.register()?;
    parser.expect(")")?;
    Some((imm, rs1))
}

fn operands(e: &Entry, parser: &mut ArgParser) -> (r: Option<u32>)
    ensures
        r == spec_operands(*e, old(parser)@),
{
    match e.form {
        Form::OpImm => {
            let rd = register_then(parser)?;
            let rs1 = register_then(parser)?;
            let imm = parser.number(12)?;
            done(parser, (IType { imm, rs1, funct3: e.funct3, rd }).encode() | e.opcode)
        },
        Form::Upper => {
            let rd = register_then(parser)?;
            let imm = parser.number(20)?;
            done(parser, (UType { imm, rd }).encode() | e.opcode)
        },
        Form::Op => {
            let rd = register_then(parser)?;
            let rs1 = register_then(parser)?;
            let rs2 = parser.register()?;
            done(
                parser,
                (RType { funct7: e.funct7, rs2, rs1, funct3: e.funct3, rd }).encode() | e.opcode,
            )
        },
        Form::Jal => {
            let rd = register_then(parser)?;
            let imm = parser.number(21)?;
            done(parser, (JType { imm, rd }).encode() | e.opcode)
        },
        Form::JalR | Form::Load => {
            let rd = register_then(parser)?;
            let (imm, rs1) = offset(parser)?;
            done(parser, (IType { imm, rs1, funct3: e.funct3, rd }).encode() | e.opcode)
        },
        Form::Branch => {
            let rs1 = register_then(parser)?;
            let rs2 = register_then(parser)?;
            let imm = parser.number(13)?;
            done(parser, (BType { imm, rs2, rs1, funct3: e.funct3 }).encode() | e.opcode)
        },
        Form::Store => {
            let rs2 = register_then(parser)?;
            let (imm, rs1) = offset(parser)?;
            done(parser, (SType { imm, rs2, rs1, funct3: e.funct3 }).encode() | e.opcode)
        },
        Form::System => {
            done(
                parser,
                (IType {
                    imm: e.funct7 as i32,
                    rs1: 0,
                    funct3: e.funct3,
                    rd: 0,
                }).encode() | e.opcode,
            )
        },
        Form::Fence => {
            let pred = parser.number(4)?;
            parser.expect(", ")?;
            let succ = parser.number(4)?;
            let imm = ((pred as u32) << 4 | (succ as u32)) as i32;
            done(parser, (IType { imm, rs1: 0, funct3: e.funct3, rd: 0 }).encode() | e.opcode)
        },
    }
}

/// A copy of `chars`.
fn copy_of(chars: &Vec<char>) -> (v: Vec<char>)
    ensures
        v@ == chars@,
{
    let n = chars.len();
    let mut v: Vec<char> = Vec::new();
    let mut i: usize = 0;
    while i < n
        invariant
            n == chars@.len(),
            i <= n,
            v@ == chars@.subrange(0, i as int),
        decreases n - i,
    {
        v.push(chars[i]);
        i += 1;
        assert(v@ =~= chars@.subrange(0, i as int));
    }
    assert(v@ =~= chars@);
    v
}

/// Where the mnemonic of a line ends: at its first space.
fn split(chars: &Vec<char>) -> (cut: usize)
    ensures
        cut == word_len(chars@),
        cut <= chars.len(),
{
    let len = chars.len();
    let mut cut: usize = 0;
    assert(chars@.subrange(0, len as int) =~= chars@);
    while cut < len && chars[cut] != ' '
        invariant
            cut <= len,
            len == chars@.len(),
            word_len(chars@) == cut + word_len(chars@.subrange(cut as int, len as int)),
        decreases len - cut,
    {
        let ghost here = chars@.subrange(cut as int, len as int);
        assert(here[0] == chars@[cut as int]);
        assert(here.drop_first() =~= chars@.subrange(cut + 1, len as int));
        cut += 1;
    }
    proof {
        let here = chars@.subrange(cut as int, len as int);
        if cut < len {
            assert(here[0] == chars@[cut as int]);
        }
        assert(chars@.subrange(0, len as int) =~= chars@);
    }
    cut
}

/// A reader of the operands of a line.
fn operand_parser(chars: Vec<char>, cut: usize) -> (p: ArgParser)
    requires
        cut == word_len(chars@),
        cut <= chars.len(),
    ensures
        p@ == operands_of(chars@),
{
    let at = if cut < chars.len() {
        cut + 1
    } else {
        cut
    };
    let p = ArgParser { text: chars, at };
    assert(p@ =~= operands_of(chars@));
    p
}

// ---- Encode ----
/// Reads a line as an instruction word: one of the base instruction set,
/// or else one of the M extension. `None` where the line is neither.
pub fn encode_instruction(text: &str) -> (r: Option<u32>)
    ensures
        r == spec_encode_instruction(text@),
{
    encode_line(&chars_of(text))
}

/// `encode_instruction` on a line that is held as characters.
pub fn encode_line(line: &Vec<char>) -> (r: Option<u32>)
    ensures
        r == spec_encode_instruction(line@),
{
    match line_rv32i(line) {
        Some(word) => Some(word),
        None => line_rv32m(line),
    }
}

/// Reads a line as a word of the base instruction set.
pub fn encode_rv32i(text: &str) -> (r: Option<u32>)
    ensures
        r == spec_encode_rv32i(text@),
{
    line_rv32i(&chars_of(text))
}

/// Reads a line as a word of the M extension.
pub fn encode_rv32m(text: &str) -> (r: Option<u32>)
    ensures
        r == spec_encode_rv32m(text@),
{
    line_rv32m(&chars_of(text))
}

fn line_rv32i(line: &Vec<char>) -> (r: Option<u32>)
    ensures
        r == spec_encode_rv32i(line@),
{
    let cut = split(line);
    let entry = lookup_rv32i(line, cut)?;
    let mut parser = operand_parser(copy_of(line), cut);
    operands(&entry, &mut parser)
}

fn line_rv32m(line: &Vec<char>) -> (r: Option<u32>)
    ensures
        r == spec_encode_rv32m(line@),
{
    let cut = split(line);
    let entry = lookup_rv32m(line, cut)?;
    let mut parser = operand_parser(copy_of(line), cut);
    operands(&entry, &mut parser)
}

} // verus!

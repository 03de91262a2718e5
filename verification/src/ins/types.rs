//! The six instruction shapes.
//!
//! Each shape reads the bits 31..7 of an instruction word as a fixed set of
//! fields; the opcode in bits 6..0 belongs to no shape. `decode` reads a word,
//! `encode` writes the fields back into bits 31..7 and leaves the opcode bits
//! clear for the caller to fill in. An immediate is sign-extended when it is
//! decoded and cut to its width when it is encoded.

use crate::util::field;
use crate::util::place;
use crate::util::sign_extend;
use crate::util::sign_extend_spec;
use vstd::prelude::*;

verus! {

/// Selects the bits of an instruction word that a shape covers.
pub const SHAPE_MASK: u32 = 0xffff_ff80;

// ---- R ----
/// Register-register layout: `funct7 | rs2 | rs1 | funct3 | rd`.
#[derive(Clone, Copy, Debug, PartialEq, Eq, Structural)]
pub struct RType {
    pub funct7: u8,
    pub rs2: u8,
    pub rs1: u8,
    pub funct3: u8,
    pub rd: u8,
}

impl RType {
    /// Every field fits its bit width.
    pub open spec fn wf(&self) -> bool {
        &&& self.funct7 < 128
        &&& self.rs2 < 32
        &&& self.rs1 < 32
        &&& self.funct3 < 8
        &&& self.rd < 32
    }

    /// The fields that the bits of `ins` spell.
    pub open spec fn spec_decode(ins: u32) -> RType {
        RType {
            funct7: field(ins, 25, 7) as u8,
            rs2: field(ins, 20, 5) as u8,
            rs1: field(ins, 15, 5) as u8,
            funct3: field(ins, 12, 3) as u8,
            rd: field(ins, 7, 5) as u8,
        }
    }

    /// The fields as bits 31..7 of a word.
    pub open spec fn spec_encode(&self) -> u32 {
        ((self.funct7 as u32) << 25) | ((self.rs2 as u32) << 20) | ((self.rs1 as u32) << 15)
            | ((self.funct3 as u32) << 12) | ((self.rd as u32) << 7)
    }

    /// Reads the fields of a word; its opcode is not looked at.
    pub fn decode(ins: u32) -> (r: Self)
        ensures
            r == Self::spec_decode(ins),
            r.wf(),
    {
        proof {
            Self::lemma_decode(ins);
        }
        Self {
            funct7: (ins >> 25) as u8,
            rs2: ((ins >> 20) & 0b11111) as u8,
            rs1: ((ins >> 15) & 0b11111) as u8,
            funct3: ((ins >> 12) & 0b111) as u8,
            rd: ((ins >> 7) & 0b11111) as u8,
        }
    }

    /// Writes the fields into bits 31..7 of a word whose bits 6..0 are clear.
    pub fn encode(&self) -> (w: u32)
        ensures
            w == self.spec_encode(),
    {
        ((self.funct7 as u32) << 25) | ((self.rs2 as u32) << 20) | ((self.rs1 as u32) << 15)
            | ((self.funct3 as u32) << 12) | ((self.rd as u32) << 7)
    }

    /// What `decode` computes is what the layout says, and every field of it
    /// fits its width.
    pub proof fn lemma_decode(ins: u32)
        by (bit_vector)
        ensures
            (ins >> 25) as u8 == field(ins, 25, 7) as u8,
            (field(ins, 25, 7) as u8) < 128,
            ((ins >> 20) & 0b11111) as u8 == field(ins, 20, 5) as u8,
            (field(ins, 20, 5) as u8) < 32,
            ((ins >> 15) & 0b11111) as u8 == field(ins, 15, 5) as u8,
            (field(ins, 15, 5) as u8) < 32,
            ((ins >> 12) & 0b111) as u8 == field(ins, 12, 3) as u8,
            (field(ins, 12, 3) as u8) < 8,
            ((ins >> 7) & 0b11111) as u8 == field(ins, 7, 5) as u8,
            (field(ins, 7, 5) as u8) < 32,
    {
    }

    /// Every decoded word is well formed.
    pub proof fn lemma_decode_wf(ins: u32)
        ensures
            Self::spec_decode(ins).wf(),
    {
        Self::lemma_decode(ins);
    }

    /// Decoding what was encoded gives the fields back, where each fits its
    /// width.
    pub proof fn law_decode_encode(s: RType)
        requires
            s.wf(),
        ensures
            Self::spec_decode(s.spec_encode()) == s,
    {
        Self::law_decode_encode_under(s, 0);
    }

    /// With an opcode in the bits that the shape leaves clear, the fields
    /// other than the immediate decode as they were encoded, where each fits
    /// its width, and the opcode reads back; the immediate does so where it
    /// is well formed too.
    pub proof fn law_fields_decode(s: RType, opcode: u32)
        requires
            s.funct7 < 128,
            s.rs2 < 32,
            s.rs1 < 32,
            s.funct3 < 8,
            s.rd < 32,
            opcode < 128,
        ensures
            Self::spec_decode(s.spec_encode() | opcode).funct7 == s.funct7,
            Self::spec_decode(s.spec_encode() | opcode).rs2 == s.rs2,
            Self::spec_decode(s.spec_encode() | opcode).rs1 == s.rs1,
            Self::spec_decode(s.spec_encode() | opcode).funct3 == s.funct3,
            Self::spec_decode(s.spec_encode() | opcode).rd == s.rd,
            (s.spec_encode() | opcode) & 0b1111111 == opcode,
            opcode == 0 ==> s.spec_encode() | opcode == s.spec_encode(),
    {
        let funct7 = s.funct7;
        let rs2 = s.rs2;
        let rs1 = s.rs1;
        let funct3 = s.funct3;
        let rd = s.rd;
        let plain: u32 = s.spec_encode();
        let w: u32 = plain | opcode;
        assert({
            &&& field(w, 25, 7) as u8 == funct7
            &&& field(w, 20, 5) as u8 == rs2
            &&& field(w, 15, 5) as u8 == rs1
            &&& field(w, 12, 3) as u8 == funct3
            &&& field(w, 7, 5) as u8 == rd
            &&& w & 0b1111111 == opcode
            &&& (opcode == 0 ==> w == plain)
        }) by (bit_vector)
            requires
                funct7 < 128,
                rs2 < 32,
                rs1 < 32,
                funct3 < 8,
                rd < 32,
                opcode < 128,
                plain == ((funct7 as u32) << 25) | ((rs2 as u32) << 20) | ((rs1 as u32) << 15)
                    | ((funct3 as u32) << 12) | ((rd as u32) << 7),
                w == plain | opcode,
        ;
    }

    /// The same for a well-formed shape: all of it decodes as it was
    /// encoded.
    pub proof fn law_decode_encode_under(s: RType, opcode: u32)
        requires
            s.wf(),
            opcode < 128,
        ensures
            Self::spec_decode(s.spec_encode() | opcode) == s,
            (s.spec_encode() | opcode) & 0b1111111 == opcode,
            opcode == 0 ==> s.spec_encode() | opcode == s.spec_encode(),
    {
        Self::law_fields_decode(s, opcode);
    }

    /// Encoding what was decoded gives back every bit of the word but its
    /// opcode.
    pub proof fn law_encode_decode(ins: u32)
        ensures
            Self::spec_decode(ins).spec_encode() == ins & SHAPE_MASK,
    {
        assert({
            (((field(ins, 25, 7) as u8) as u32) << 25)
                | (((field(ins, 20, 5) as u8) as u32) << 20)
                | (((field(ins, 15, 5) as u8) as u32) << 15)
                | (((field(ins, 12, 3) as u8) as u32) << 12)
                | (((field(ins, 7, 5) as u8) as u32) << 7)
        } == ins & 0xffff_ff80) by (bit_vector);
    }
}

// ---- I ----
/// Immediate layout: a 12-bit signed immediate in bits 31..20, then
/// `rs1 | funct3 | rd`.
#[derive(Clone, Copy, Debug, PartialEq, Eq, Structural)]
pub struct IType {
    pub imm: i32,
    pub rs1: u8,
    pub funct3: u8,
    pub rd: u8,
}

impl IType {
    /// Every field fits its bit width.
    pub open spec fn wf(&self) -> bool {
        &&& -2048 <= self.imm < 2048
        &&& self.rs1 < 32
        &&& self.funct3 < 8
        &&& self.rd < 32
    }

    /// The immediate that the bits of `ins` spell.
    pub open spec fn imm_of(ins: u32) -> i32 {
        sign_extend_spec(field(ins, 20, 12), 12)
    }

    /// The bits of an instruction word that spell `imm`.
    pub open spec fn imm_bits(imm: i32) -> u32 {
        place(imm as u32, 20, 12)
    }

    /// The immediate as `decode` gathers it, before its sign is extended.
    pub open spec fn gathered(ins: u32) -> u32 {
        ins >> 20
    }

    /// The fields that the bits of `ins` spell.
    pub open spec fn spec_decode(ins: u32) -> IType {
        IType {
            imm: Self::imm_of(ins),
            rs1: field(ins, 15, 5) as u8,
            funct3: field(ins, 12, 3) as u8,
            rd: field(ins, 7, 5) as u8,
        }
    }

    /// The fields as bits 31..7 of a word.
    pub open spec fn spec_encode(&self) -> u32 {
        Self::imm_bits(self.imm) | ((self.rs1 as u32) << 15) | ((self.funct3 as u32) << 12)
            | ((self.rd as u32) << 7)
    }

    /// Reads the fields of a word; its opcode is not looked at.
    pub fn decode(ins: u32) -> (r: Self)
        ensures
            r == Self::spec_decode(ins),
            r.wf(),
    {
        let raw: u32 = ins >> 20;
        let imm = sign_extend(raw, 12);
        proof {
            Self::lemma_decode(ins);
        }
        Self {
            imm,
            rs1: ((ins >> 15) & 0b11111) as u8,
            funct3: ((ins >> 12) & 0b111) as u8,
            rd: ((ins >> 7) & 0b11111) as u8,
        }
    }

    /// Writes the fields into bits 31..7 of a word whose bits 6..0 are clear.
    pub fn encode(&self) -> (w: u32)
        ensures
            w == self.spec_encode(),
    {
        let value: i32 = self.imm;
        let imm: u32 = value as u32;
        let bits: u32 = imm << 20;
        assert(bits == Self::imm_bits(value)) by (bit_vector)
            requires
                imm == value as u32,
                bits == imm << 20,
        ;
        bits | ((self.rs1 as u32) << 15) | ((self.funct3 as u32) << 12) | ((self.rd as u32) << 7)
    }

    /// What `decode` computes is what the layout says, and every field of it
    /// fits its width.
    pub proof fn lemma_decode(ins: u32)
        by (bit_vector)
        ensures
            sign_extend_spec(Self::gathered(ins), 12) == Self::imm_of(ins),
            -2048 <= Self::imm_of(ins) < 2048,
            ((ins >> 15) & 0b11111) as u8 == field(ins, 15, 5) as u8,
            (field(ins, 15, 5) as u8) < 32,
            ((ins >> 12) & 0b111) as u8 == field(ins, 12, 3) as u8,
            (field(ins, 12, 3) as u8) < 8,
            ((ins >> 7) & 0b11111) as u8 == field(ins, 7, 5) as u8,
            (field(ins, 7, 5) as u8) < 32,
    {
    }

    /// Every decoded word is well formed.
    pub proof fn lemma_decode_wf(ins: u32)
        ensures
            Self::spec_decode(ins).wf(),
    {
        Self::lemma_decode(ins);
    }

    /// Decoding what was encoded gives the fields back, where each fits its
    /// width.
    pub proof fn law_decode_encode(s: IType)
        requires
            s.wf(),
        ensures
            Self::spec_decode(s.spec_encode()) == s,
    {
        Self::law_decode_encode_under(s, 0);
    }

    /// With an opcode in the bits that the shape leaves clear, the fields
    /// other than the immediate decode as they were encoded, where each fits
    /// its width, and the opcode reads back; the immediate does so where it
    /// is well formed too.
    pub proof fn law_fields_decode(s: IType, opcode: u32)
        requires
            s.rs1 < 32,
            s.funct3 < 8,
            s.rd < 32,
            opcode < 128,
        ensures
            Self::spec_decode(s.spec_encode() | opcode).rs1 == s.rs1,
            Self::spec_decode(s.spec_encode() | opcode).funct3 == s.funct3,
            Self::spec_decode(s.spec_encode() | opcode).rd == s.rd,
            (s.spec_encode() | opcode) & 0b1111111 == opcode,
            opcode == 0 ==> s.spec_encode() | opcode == s.spec_encode(),
            s.wf() ==> Self::spec_decode(s.spec_encode() | opcode).imm == s.imm,
    {
        let imm = s.imm;
        let rs1 = s.rs1;
        let funct3 = s.funct3;
        let rd = s.rd;
        let plain: u32 = s.spec_encode();
        let w: u32 = plain | opcode;
        assert({
            &&& field(w, 15, 5) as u8 == rs1
            &&& field(w, 12, 3) as u8 == funct3
            &&& field(w, 7, 5) as u8 == rd
            &&& w & 0b1111111 == opcode
            &&& (opcode == 0 ==> w == plain)
            &&& (-2048 <= imm < 2048 ==> Self::imm_of(w) == imm)
        }) by (bit_vector)
            requires
                rs1 < 32,
                funct3 < 8,
                rd < 32,
                opcode < 128,
                plain == Self::imm_bits(imm) | ((rs1 as u32) << 15) | ((funct3 as u32) << 12)
                    | ((rd as u32) << 7),
                w == plain | opcode,
        ;
    }

    /// The same for a well-formed shape: all of it decodes as it was
    /// encoded.
    pub proof fn law_decode_encode_under(s: IType, opcode: u32)
        requires
            s.wf(),
            opcode < 128,
        ensures
            Self::spec_decode(s.spec_encode() | opcode) == s,
            (s.spec_encode() | opcode) & 0b1111111 == opcode,
            opcode == 0 ==> s.spec_encode() | opcode == s.spec_encode(),
    {
        Self::law_fields_decode(s, opcode);
    }

    /// Encoding what was decoded gives back every bit of the word but its
    /// opcode.
    pub proof fn law_encode_decode(ins: u32)
        ensures
            Self::spec_decode(ins).spec_encode() == ins & SHAPE_MASK,
    {
        assert({
            Self::imm_bits(Self::imm_of(ins)) | (((field(ins, 15, 5) as u8) as u32) << 15)
                | (((field(ins, 12, 3) as u8) as u32) << 12)
                | (((field(ins, 7, 5) as u8) as u32) << 7)
        } == ins & 0xffff_ff80) by (bit_vector);
    }
}

// ---- U ----
/// Upper-immediate layout: a 20-bit signed immediate in bits 31..12, then
/// `rd`. `imm` holds the immediate right-aligned and sign-extended; `upper`
/// gives it as it stands in the word, in bits 31..12 over twelve zero bits,
/// which is how the instructions of this shape use it.
#[derive(Clone, Copy, Debug, PartialEq, Eq, Structural)]
pub struct UType {
    pub imm: i32,
    pub rd: u8,
}

impl UType {
    /// The immediate moved up to bits 31..12.
    pub open spec fn spec_upper(&self) -> i32 {
        ((self.imm as u32) << 12) as i32
    }

    /// The immediate moved up to bits 31..12.
    pub fn upper(&self) -> (v: i32)
        ensures
            v == self.spec_upper(),
    {
        ((self.imm as u32) << 12) as i32
    }

    /// For a well-formed shape, moving the immediate up is multiplying it by
    /// 4096; and the upper immediate of a decoded word is the word without
    /// its low twelve bits.
    pub proof fn law_upper(s: UType, ins: u32)
        requires
            s.wf(),
        ensures
            s.spec_upper() == s.imm * 4096,
            Self::spec_decode(ins).spec_upper() == (ins & 0xffff_f000) as i32,
    {
        let imm = s.imm;
        assert({
            &&& ((imm as u32) << 12) as i32 == imm * 4096
            &&& ((Self::imm_of(ins) as u32) << 12) as i32 == (ins & 0xffff_f000) as i32
        }) by (bit_vector)
            requires
                -0x8_0000 <= imm < 0x8_0000,
        ;
    }

    /// Every field fits its bit width.
    pub open spec fn wf(&self) -> bool {
        &&& -0x8_0000 <= self.imm < 0x8_0000
        &&& self.rd < 32
    }

    /// The immediate that the bits of `ins` spell.
    pub open spec fn imm_of(ins: u32) -> i32 {
        sign_extend_spec(field(ins, 12, 20), 20)
    }

    /// The bits of an instruction word that spell `imm`.
    pub open spec fn imm_bits(imm: i32) -> u32 {
        place(imm as u32, 12, 20)
    }

    /// The immediate as `decode` gathers it, before its sign is extended.
    pub open spec fn gathered(ins: u32) -> u32 {
        ins >> 12
    }

    /// The fields that the bits of `ins` spell.
    pub open spec fn spec_decode(ins: u32) -> UType {
        UType {
            imm: Self::imm_of(ins),
            rd: field(ins, 7, 5) as u8,
        }
    }

    /// The fields as bits 31..7 of a word.
    pub open spec fn spec_encode(&self) -> u32 {
        Self::imm_bits(self.imm) | ((self.rd as u32) << 7)
    }

    /// Reads the fields of a word; its opcode is not looked at.
    pub fn decode(ins: u32) -> (r: Self)
        ensures
            r == Self::spec_decode(ins),
            r.wf(),
    {
        let raw: u32 = ins >> 12;
        let imm = sign_extend(raw, 20);
        proof {
            Self::lemma_decode(ins);
        }
        Self {
            imm,
            rd: ((ins >> 7) & 0b11111) as u8,
        }
    }

    /// Writes the fields into bits 31..7 of a word whose bits 6..0 are clear.
    pub fn encode(&self) -> (w: u32)
        ensures
            w == self.spec_encode(),
    {
        let value: i32 = self.imm;
        let imm: u32 = value as u32;
        let bits: u32 = imm << 12;
        assert(bits == Self::imm_bits(value)) by (bit_vector)
            requires
                imm == value as u32,
                bits == imm << 12,
        ;
        bits | ((self.rd as u32) << 7)
    }

    /// What `decode` computes is what the layout says, and every field of it
    /// fits its width.
    pub proof fn lemma_decode(ins: u32)
        by (bit_vector)
        ensures
            sign_extend_spec(Self::gathered(ins), 20) == Self::imm_of(ins),
            -0x8_0000 <= Self::imm_of(ins) < 0x8_0000,
            ((ins >> 7) & 0b11111) as u8 == field(ins, 7, 5) as u8,
            (field(ins, 7, 5) as u8) < 32,
    {
    }

    /// Every decoded word is well formed.
    pub proof fn lemma_decode_wf(ins: u32)
        ensures
            Self::spec_decode(ins).wf(),
    {
        Self::lemma_decode(ins);
    }

    /// Decoding what was encoded gives the fields back, where each fits its
    /// width.
    pub proof fn law_decode_encode(s: UType)
        requires
            s.wf(),
        ensures
            Self::spec_decode(s.spec_encode()) == s,
    {
        Self::law_decode_encode_under(s, 0);
    }

    /// With an opcode in the bits that the shape leaves clear, the fields
    /// other than the immediate decode as they were encoded, where each fits
    /// its width, and the opcode reads back; the immediate does so where it
    /// is well formed too.
    pub proof fn law_fields_decode(s: UType, opcode: u32)
        requires
            s.rd < 32,
            opcode < 128,
        ensures
            Self::spec_decode(s.spec_encode() | opcode).rd == s.rd,
            (s.spec_encode() | opcode) & 0b1111111 == opcode,
            opcode == 0 ==> s.spec_encode() | opcode == s.spec_encode(),
            s.wf() ==> Self::spec_decode(s.spec_encode() | opcode).imm == s.imm,
    {
        let imm = s.imm;
        let rd = s.rd;
        let plain: u32 = s.spec_encode();
        let w: u32 = plain | opcode;
        assert({
            &&& field(w, 7, 5) as u8 == rd
            &&& w & 0b1111111 == opcode
            &&& (opcode == 0 ==> w == plain)
            &&& (-0x8_0000 <= imm < 0x8_0000 ==> Self::imm_of(w) == imm)
        }) by (bit_vector)
            requires
                rd < 32,
                opcode < 128,
                plain == Self::imm_bits(imm) | ((rd as u32) << 7),
                w == plain | opcode,
        ;
    }

    /// The same for a well-formed shape: all of it decodes as it was
    /// encoded.
    pub proof fn law_decode_encode_under(s: UType, opcode: u32)
        requires
            s.wf(),
            opcode < 128,
        ensures
            Self::spec_decode(s.spec_encode() | opcode) == s,
            (s.spec_encode() | opcode) & 0b1111111 == opcode,
            opcode == 0 ==> s.spec_encode() | opcode == s.spec_encode(),
    {
        Self::law_fields_decode(s, opcode);
    }

    /// Encoding what was decoded gives back every bit of the word but its
    /// opcode.
    pub proof fn law_encode_decode(ins: u32)
        ensures
            Self::spec_decode(ins).spec_encode() == ins & SHAPE_MASK,
    {
        assert({
            Self::imm_bits(Self::imm_of(ins)) | (((field(ins, 7, 5) as u8) as u32) << 7)
        } == ins & 0xffff_ff80) by (bit_vector);
    }
}

// ---- S ----
/// Store layout: a 12-bit signed immediate whose bits 11..5 sit in bits
/// 31..25 and whose bits 4..0 sit in bits 11..7, then `rs2 | rs1 | funct3`.
#[derive(Clone, Copy, Debug, PartialEq, Eq, Structural)]
pub struct SType {
    pub imm: i32,
    pub rs2: u8,
    pub rs1: u8,
    pub funct3: u8,
}

impl SType {
    /// Every field fits its bit width.
    pub open spec fn wf(&self) -> bool {
        &&& -2048 <= self.imm < 2048
        &&& self.rs2 < 32
        &&& self.rs1 < 32
        &&& self.funct3 < 8
    }

    /// The immediate that the bits of `ins` spell.
    pub open spec fn imm_of(ins: u32) -> i32 {
        sign_extend_spec(
            (field(ins, 25, 7) << 5) | field(ins, 7, 5),
            12,
        )
    }

    /// The bits of an instruction word that spell `imm`.
    pub open spec fn imm_bits(imm: i32) -> u32 {
        place((imm as u32) >> 5, 25, 7) | place(imm as u32, 7, 5)
    }

    /// The immediate as `decode` gathers it, before its sign is extended.
    pub open spec fn gathered(ins: u32) -> u32 {
        ((ins >> 20) & 0xfe0) | ((ins >> 7) & 0x1f)
    }

    /// The fields that the bits of `ins` spell.
    pub open spec fn spec_decode(ins: u32) -> SType {
        SType {
            imm: Self::imm_of(ins),
            rs2: field(ins, 20, 5) as u8,
            rs1: field(ins, 15, 5) as u8,
            funct3: field(ins, 12, 3) as u8,
        }
    }

    /// The fields as bits 31..7 of a word.
    pub open spec fn spec_encode(&self) -> u32 {
        Self::imm_bits(self.imm) | ((self.rs2 as u32) << 20) | ((self.rs1 as u32) << 15)
            | ((self.funct3 as u32) << 12)
    }

    /// Reads the fields of a word; its opcode is not looked at.
    pub fn decode(ins: u32) -> (r: Self)
        ensures
            r == Self::spec_decode(ins),
            r.wf(),
    {
        let imm11_5: u32 = (ins >> 20) & 0xfe0;
        let imm4_0: u32 = (ins >> 7) & 0x1f;
        let imm = sign_extend(imm11_5 | imm4_0, 12);
        proof {
            Self::lemma_decode(ins);
        }
        Self {
            imm,
            rs2: ((ins >> 20) & 0b11111) as u8,
            rs1: ((ins >> 15) & 0b11111) as u8,
            funct3: ((ins >> 12) & 0b111) as u8,
        }
    }

    /// Writes the fields into bits 31..7 of a word whose bits 6..0 are clear.
    pub fn encode(&self) -> (w: u32)
        ensures
            w == self.spec_encode(),
    {
        let value: i32 = self.imm;
        let imm: u32 = value as u32;
        let bits: u32 = ((imm & 0xfe0) << 20) | ((imm & 0x1f) << 7);
        assert(bits == Self::imm_bits(value)) by (bit_vector)
            requires
                imm == value as u32,
                bits == ((imm & 0xfe0) << 20) | ((imm & 0x1f) << 7),
        ;
        bits | ((self.rs2 as u32) << 20) | ((self.rs1 as u32) << 15)
            | ((self.funct3 as u32) << 12)
    }

    /// What `decode` computes is what the layout says, and every field of it
    /// fits its width.
    pub proof fn lemma_decode(ins: u32)
        by (bit_vector)
        ensures
            sign_extend_spec(Self::gathered(ins), 12) == Self::imm_of(ins),
            -2048 <= Self::imm_of(ins) < 2048,
            ((ins >> 20) & 0b11111) as u8 == field(ins, 20, 5) as u8,
            (field(ins, 20, 5) as u8) < 32,
            ((ins >> 15) & 0b11111) as u8 == field(ins, 15, 5) as u8,
            (field(ins, 15, 5) as u8) < 32,
            ((ins >> 12) & 0b111) as u8 == field(ins, 12, 3) as u8,
            (field(ins, 12, 3) as u8) < 8,
    {
    }

    /// Every decoded word is well formed.
    pub proof fn lemma_decode_wf(ins: u32)
        ensures
            Self::spec_decode(ins).wf(),
    {
        Self::lemma_decode(ins);
    }

    /// Decoding what was encoded gives the fields back, where each fits its
    /// width.
    pub proof fn law_decode_encode(s: SType)
        requires
            s.wf(),
        ensures
            Self::spec_decode(s.spec_encode()) == s,
    {
        Self::law_decode_encode_under(s, 0);
    }

    /// With an opcode in the bits that the shape leaves clear, the fields
    /// other than the immediate decode as they were encoded, where each fits
    /// its width, and the opcode reads back; the immediate does so where it
    /// is well formed too.
    pub proof fn law_fields_decode(s: SType, opcode: u32)
        requires
            s.rs2 < 32,
            s.rs1 < 32,
            s.funct3 < 8,
            opcode < 128,
        ensures
            Self::spec_decode(s.spec_encode() | opcode).rs2 == s.rs2,
            Self::spec_decode(s.spec_encode() | opcode).rs1 == s.rs1,
            Self::spec_decode(s.spec_encode() | opcode).funct3 == s.funct3,
            (s.spec_encode() | opcode) & 0b1111111 == opcode,
            opcode == 0 ==> s.spec_encode() | opcode == s.spec_encode(),
            s.wf() ==> Self::spec_decode(s.spec_encode() | opcode).imm == s.imm,
    {
        let imm = s.imm;
        let rs2 = s.rs2;
        let rs1 = s.rs1;
        let funct3 = s.funct3;
        let plain: u32 = s.spec_encode();
        let w: u32 = plain | opcode;
        assert({
            &&& field(w, 20, 5) as u8 == rs2
            &&& field(w, 15, 5) as u8 == rs1
            &&& field(w, 12, 3) as u8 == funct3
            &&& w & 0b1111111 == opcode
            &&& (opcode == 0 ==> w == plain)
            &&& (-2048 <= imm < 2048 ==> Self::imm_of(w) == imm)
        }) by (bit_vector)
            requires
                rs2 < 32,
                rs1 < 32,
                funct3 < 8,
                opcode < 128,
                plain == Self::imm_bits(imm) | ((rs2 as u32) << 20) | ((rs1 as u32) << 15)
                    | ((funct3 as u32) << 12),
                w == plain | opcode,
        ;
    }

    /// The same for a well-formed shape: all of it decodes as it was
    /// encoded.
    pub proof fn law_decode_encode_under(s: SType, opcode: u32)
        requires
            s.wf(),
            opcode < 128,
        ensures
            Self::spec_decode(s.spec_encode() | opcode) == s,
            (s.spec_encode() | opcode) & 0b1111111 == opcode,
            opcode == 0 ==> s.spec_encode() | opcode == s.spec_encode(),
    {
        Self::law_fields_decode(s, opcode);
    }

    /// Encoding what was decoded gives back every bit of the word but its
    /// opcode.
    pub proof fn law_encode_decode(ins: u32)
        ensures
            Self::spec_decode(ins).spec_encode() == ins & SHAPE_MASK,
    {
        assert({
            Self::imm_bits(Self::imm_of(ins)) | (((field(ins, 20, 5) as u8) as u32) << 20)
                | (((field(ins, 15, 5) as u8) as u32) << 15)
                | (((field(ins, 12, 3) as u8) as u32) << 12)
        } == ins & 0xffff_ff80) by (bit_vector);
    }
}

// ---- B ----
/// Branch layout: a 13-bit signed, even immediate whose bit 12 sits in bit
/// 31, bit 11 in bit 7, bits 10..5 in bits 30..25 and bits 4..1 in bits
/// 11..8, then `rs2 | rs1 | funct3`.
#[derive(Clone, Copy, Debug, PartialEq, Eq, Structural)]
pub struct BType {
    pub imm: i32,
    pub rs2: u8,
    pub rs1: u8,
    pub funct3: u8,
}

impl BType {
    /// Every field fits its bit width, and the immediate is even.
    pub open spec fn wf(&self) -> bool {
        &&& -4096 <= self.imm < 4096
        &&& self.imm & 1 == 0
        &&& self.rs2 < 32
        &&& self.rs1 < 32
        &&& self.funct3 < 8
    }

    /// The immediate that the bits of `ins` spell.
    pub open spec fn imm_of(ins: u32) -> i32 {
        sign_extend_spec(
            (field(ins, 31, 1) << 12) | (field(ins, 7, 1) << 11) | (field(ins, 25, 6) << 5)
                | (field(ins, 8, 4) << 1),
            13,
        )
    }

    /// The bits of an instruction word that spell `imm`.
    pub open spec fn imm_bits(imm: i32) -> u32 {
        place((imm as u32) >> 12, 31, 1) | place((imm as u32) >> 11, 7, 1)
            | place((imm as u32) >> 5, 25, 6) | place((imm as u32) >> 1, 8, 4)
    }

    /// The immediate as `decode` gathers it, before its sign is extended.
    pub open spec fn gathered(ins: u32) -> u32 {
        ((ins >> 19) & 0x1000) | ((ins << 4) & 0x800) | ((ins >> 20) & 0x7e0)
            | ((ins >> 7) & 0x1e)
    }

    /// The fields that the bits of `ins` spell.
    pub open spec fn spec_decode(ins: u32) -> BType {
        BType {
            imm: Self::imm_of(ins),
            rs2: field(ins, 20, 5) as u8,
            rs1: field(ins, 15, 5) as u8,
            funct3: field(ins, 12, 3) as u8,
        }
    }

    /// The fields as bits 31..7 of a word.
    pub open spec fn spec_encode(&self) -> u32 {
        Self::imm_bits(self.imm) | ((self.rs2 as u32) << 20) | ((self.rs1 as u32) << 15)
            | ((self.funct3 as u32) << 12)
    }

    /// Reads the fields of a word; its opcode is not looked at.
    pub fn decode(ins: u32) -> (r: Self)
        ensures
            r == Self::spec_decode(ins),
            r.wf(),
    {
        let imm12: u32 = (ins >> 19) & 0x1000;
        let imm11: u32 = (ins << 4) & 0x800;
        let imm10_5: u32 = (ins >> 20) & 0x7e0;
        let imm4_1: u32 = (ins >> 7) & 0x1e;
        let imm = sign_extend(imm12 | imm11 | imm10_5 | imm4_1, 13);
        proof {
            Self::lemma_decode(ins);
        }
        Self {
            imm,
            rs2: ((ins >> 20) & 0b11111) as u8,
            rs1: ((ins >> 15) & 0b11111) as u8,
            funct3: ((ins >> 12) & 0b111) as u8,
        }
    }

    /// Writes the fields into bits 31..7 of a word whose bits 6..0 are clear.
    pub fn encode(&self) -> (w: u32)
        ensures
            w == self.spec_encode(),
    {
        let value: i32 = self.imm;
        let imm: u32 = value as u32;
        let bits: u32 = ((imm & 0x1000) << 19) | ((imm & 0x800) >> 4) | ((imm & 0x7e0) << 20)
            | ((imm & 0x1e) << 7);
        assert(bits == Self::imm_bits(value)) by (bit_vector)
            requires
                imm == value as u32,
                bits == ((imm & 0x1000) << 19) | ((imm & 0x800) >> 4) | ((imm & 0x7e0) << 20)
                    | ((imm & 0x1e) << 7),
        ;
        bits | ((self.rs2 as u32) << 20) | ((self.rs1 as u32) << 15)
            | ((self.funct3 as u32) << 12)
    }

    /// What `decode` computes is what the layout says, and every field of it
    /// fits its width.
    pub proof fn lemma_decode(ins: u32)
        by (bit_vector)
        ensures
            sign_extend_spec(Self::gathered(ins), 13) == Self::imm_of(ins),
            -4096 <= Self::imm_of(ins) < 4096,
            Self::imm_of(ins) & 1 == 0,
            ((ins >> 20) & 0b11111) as u8 == field(ins, 20, 5) as u8,
            (field(ins, 20, 5) as u8) < 32,
            ((ins >> 15) & 0b11111) as u8 == field(ins, 15, 5) as u8,
            (field(ins, 15, 5) as u8) < 32,
            ((ins >> 12) & 0b111) as u8 == field(ins, 12, 3) as u8,
            (field(ins, 12, 3) as u8) < 8,
    {
    }

    /// Every decoded word is well formed.
    pub proof fn lemma_decode_wf(ins: u32)
        ensures
            Self::spec_decode(ins).wf(),
    {
        Self::lemma_decode(ins);
    }

    /// Decoding what was encoded gives the fields back, where each fits its
    /// width and the immediate is even.
    pub proof fn law_decode_encode(s: BType)
        requires
            s.wf(),
        ensures
            Self::spec_decode(s.spec_encode()) == s,
    {
        Self::law_decode_encode_under(s, 0);
    }

    /// With an opcode in the bits that the shape leaves clear, the fields
    /// other than the immediate decode as they were encoded, where each fits
    /// its width, and the opcode reads back; the immediate does so where it
    /// is well formed too.
    pub proof fn law_fields_decode(s: BType, opcode: u32)
        requires
            s.rs2 < 32,
            s.rs1 < 32,
            s.funct3 < 8,
            opcode < 128,
        ensures
            Self::spec_decode(s.spec_encode() | opcode).rs2 == s.rs2,
            Self::spec_decode(s.spec_encode() | opcode).rs1 == s.rs1,
            Self::spec_decode(s.spec_encode() | opcode).funct3 == s.funct3,
            (s.spec_encode() | opcode) & 0b1111111 == opcode,
            opcode == 0 ==> s.spec_encode() | opcode == s.spec_encode(),
            s.wf() ==> Self::spec_decode(s.spec_encode() | opcode).imm == s.imm,
    {
        let imm = s.imm;
        let rs2 = s.rs2;
        let rs1 = s.rs1;
        let funct3 = s.funct3;
        let plain: u32 = s.spec_encode();
        let w: u32 = plain | opcode;
        assert({
            &&& field(w, 20, 5) as u8 == rs2
            &&& field(w, 15, 5) as u8 == rs1
            &&& field(w, 12, 3) as u8 == funct3
            &&& w & 0b1111111 == opcode
            &&& (opcode == 0 ==> w == plain)
            &&& (-4096 <= imm < 4096 && imm & 1 == 0 ==> Self::imm_of(w) == imm)
        }) by (bit_vector)
            requires
                rs2 < 32,
                rs1 < 32,
                funct3 < 8,
                opcode < 128,
                plain == Self::imm_bits(imm) | ((rs2 as u32) << 20) | ((rs1 as u32) << 15)
                    | ((funct3 as u32) << 12),
                w == plain | opcode,
        ;
    }

    /// The same for a well-formed shape: all of it decodes as it was
    /// encoded.
    pub proof fn law_decode_encode_under(s: BType, opcode: u32)
        requires
            s.wf(),
            opcode < 128,
        ensures
            Self::spec_decode(s.spec_encode() | opcode) == s,
            (s.spec_encode() | opcode) & 0b1111111 == opcode,
            opcode == 0 ==> s.spec_encode() | opcode == s.spec_encode(),
    {
        Self::law_fields_decode(s, opcode);
    }

    /// Encoding what was decoded gives back every bit of the word but its
    /// opcode.
    pub proof fn law_encode_decode(ins: u32)
        ensures
            Self::spec_decode(ins).spec_encode() == ins & SHAPE_MASK,
    {
        assert({
            Self::imm_bits(Self::imm_of(ins)) | (((field(ins, 20, 5) as u8) as u32) << 20)
                | (((field(ins, 15, 5) as u8) as u32) << 15)
                | (((field(ins, 12, 3) as u8) as u32) << 12)
        } == ins & 0xffff_ff80) by (bit_vector);
    }
}

// ---- J ----
/// Jump layout: a 21-bit signed, even immediate whose bit 20 sits in bit 31,
/// bits 19..12 in bits 19..12, bit 11 in bit 20 and bits 10..1 in bits
/// 30..21, then `rd`.
#[derive(Clone, Copy, Debug, PartialEq, Eq, Structural)]
pub struct JType {
    pub imm: i32,
    pub rd: u8,
}

impl JType {
    /// Every field fits its bit width, and the immediate is even.
    pub open spec fn wf(&self) -> bool {
        &&& -0x10_0000 <= self.imm < 0x10_0000
        &&& self.imm & 1 == 0
        &&& self.rd < 32
    }

    /// The immediate that the bits of `ins` spell.
    pub open spec fn imm_of(ins: u32) -> i32 {
        sign_extend_spec(
            (field(ins, 31, 1) << 20) | (field(ins, 12, 8) << 12) | (field(ins, 20, 1) << 11)
                | (field(ins, 21, 10) << 1),
            21,
        )
    }

    /// The bits of an instruction word that spell `imm`.
    pub open spec fn imm_bits(imm: i32) -> u32 {
        place((imm as u32) >> 20, 31, 1) | place((imm as u32) >> 12, 12, 8)
            | place((imm as u32) >> 11, 20, 1) | place((imm as u32) >> 1, 21, 10)
    }

    /// The immediate as `decode` gathers it, before its sign is extended.
    pub open spec fn gathered(ins: u32) -> u32 {
        ((ins >> 11) & 0x10_0000) | (ins & 0xf_f000) | ((ins >> 9) & 0x800)
            | ((ins >> 20) & 0x7fe)
    }

    /// The fields that the bits of `ins` spell.
    pub open spec fn spec_decode(ins: u32) -> JType {
        JType {
            imm: Self::imm_of(ins),
            rd: field(ins, 7, 5) as u8,
        }
    }

    /// The fields as bits 31..7 of a word.
    pub open spec fn spec_encode(&self) -> u32 {
        Self::imm_bits(self.imm) | ((self.rd as u32) << 7)
    }

    /// Reads the fields of a word; its opcode is not looked at.
    pub fn decode(ins: u32) -> (r: Self)
        ensures
            r == Self::spec_decode(ins),
            r.wf(),
    {
        let imm20: u32 = (ins >> 11) & 0x10_0000;
        let imm19_12: u32 = ins & 0xf_f000;
        let imm11: u32 = (ins >> 9) & 0x800;
        let imm10_1: u32 = (ins >> 20) & 0x7fe;
        let imm = sign_extend(imm20 | imm19_12 | imm11 | imm10_1, 21);
        proof {
            Self::lemma_decode(ins);
        }
        Self {
            imm,
            rd: ((ins >> 7) & 0b11111) as u8,
        }
    }

    /// Writes the fields into bits 31..7 of a word whose bits 6..0 are clear.
    pub fn encode(&self) -> (w: u32)
        ensures
            w == self.spec_encode(),
    {
        let value: i32 = self.imm;
        let imm: u32 = value as u32;
        let bits: u32 = ((imm & 0x10_0000) << 11) | (imm & 0xf_f000) | ((imm & 0x800) << 9)
            | ((imm & 0x7fe) << 20);
        assert(bits == Self::imm_bits(value)) by (bit_vector)
            requires
                imm == value as u32,
                bits == ((imm & 0x10_0000) << 11) | (imm & 0xf_f000) | ((imm & 0x800) << 9)
                    | ((imm & 0x7fe) << 20),
        ;
        bits | ((self.rd as u32) << 7)
    }

    /// What `decode` computes is what the layout says, and every field of it
    /// fits its width.
    pub proof fn lemma_decode(ins: u32)
        by (bit_vector)
        ensures
            sign_extend_spec(Self::gathered(ins), 21) == Self::imm_of(ins),
            -0x10_0000 <= Self::imm_of(ins) < 0x10_0000,
            Self::imm_of(ins) & 1 == 0,
            ((ins >> 7) & 0b11111) as u8 == field(ins, 7, 5) as u8,
            (field(ins, 7, 5) as u8) < 32,
    {
    }

    /// Every decoded word is well formed.
    pub proof fn lemma_decode_wf(ins: u32)
        ensures
            Self::spec_decode(ins).wf(),
    {
        Self::lemma_decode(ins);
    }

    /// Decoding what was encoded gives the fields back, where each fits its
    /// width and the immediate is even.
    pub proof fn law_decode_encode(s: JType)
        requires
            s.wf(),
        ensures
            Self::spec_decode(s.spec_encode()) == s,
    {
        Self::law_decode_encode_under(s, 0);
    }

    /// With an opcode in the bits that the shape leaves clear, the fields
    /// other than the immediate decode as they were encoded, where each fits
    /// its width, and the opcode reads back; the immediate does so where it
    /// is well formed too.
    pub proof fn law_fields_decode(s: JType, opcode: u32)
        requires
            s.rd < 32,
            opcode < 128,
        ensures
            Self::spec_decode(s.spec_encode() | opcode).rd == s.rd,
            (s.spec_encode() | opcode) & 0b1111111 == opcode,
            opcode == 0 ==> s.spec_encode() | opcode == s.spec_encode(),
            s.wf() ==> Self::spec_decode(s.spec_encode() | opcode).imm == s.imm,
    {
        let imm = s.imm;
        let rd = s.rd;
        let plain: u32 = s.spec_encode();
        let w: u32 = plain | opcode;
        assert({
            &&& field(w, 7, 5) as u8 == rd
            &&& w & 0b1111111 == opcode
            &&& (opcode == 0 ==> w == plain)
            &&& (-0x10_0000 <= imm < 0x10_0000 && imm & 1 == 0 ==> Self::imm_of(w) == imm)
        }) by (bit_vector)
            requires
                rd < 32,
                opcode < 128,
                plain == Self::imm_bits(imm) | ((rd as u32) << 7),
                w == plain | opcode,
        ;
    }

    /// The same for a well-formed shape: all of it decodes as it was
    /// encoded.
    pub proof fn law_decode_encode_under(s: JType, opcode: u32)
        requires
            s.wf(),
            opcode < 128,
        ensures
            Self::spec_decode(s.spec_encode() | opcode) == s,
            (s.spec_encode() | opcode) & 0b1111111 == opcode,
            opcode == 0 ==> s.spec_encode() | opcode == s.spec_encode(),
    {
        Self::law_fields_decode(s, opcode);
    }

    /// Encoding what was decoded gives back every bit of the word but its
    /// opcode.
    pub proof fn law_encode_decode(ins: u32)
        ensures
            Self::spec_decode(ins).spec_encode() == ins & SHAPE_MASK,
    {
        assert({
            Self::imm_bits(Self::imm_of(ins)) | (((field(ins, 7, 5) as u8) as u32) << 7)
        } == ins & 0xffff_ff80) by (bit_vector);
    }
}

} // verus!

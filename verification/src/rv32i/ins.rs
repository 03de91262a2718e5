//! The instructions of the base set, each with the shape it is read in.

use crate::ins::BType;
use crate::ins::IType;
use crate::ins::JType;
use crate::ins::RType;
use crate::ins::SType;
use crate::ins::UType;
use crate::ins::types::SHAPE_MASK;
use crate::ins::OPCODE_AUIPC;
use crate::ins::OPCODE_BRANCH;
use crate::ins::OPCODE_JAL;
use crate::ins::OPCODE_JALR;
use crate::ins::OPCODE_LOAD;
use crate::ins::OPCODE_LUI;
use crate::ins::OPCODE_MASK;
use crate::ins::OPCODE_OP;
use crate::ins::OPCODE_OPIMM;
use crate::ins::OPCODE_STORE;
use vstd::prelude::*;

verus! {

/// An instruction of the base set that carries operands, read in the shape
/// of its opcode.
#[derive(Clone, Copy, Debug, PartialEq, Eq, Structural)]
pub enum Instruction {
    OpImm(IType),
    Lui(UType),
    AuiPc(UType),
    Op(RType),
    Jal(JType),
    JalR(IType),
    Branch(BType),
    Load(IType),
    Store(SType),
}

impl Instruction {
    /// The opcode that selects this variant.
    pub open spec fn opcode(&self) -> u32 {
        match self {
            Instruction::OpImm(_) => OPCODE_OPIMM,
            Instruction::Lui(_) => OPCODE_LUI,
            Instruction::AuiPc(_) => OPCODE_AUIPC,
            Instruction::Op(_) => OPCODE_OP,
            Instruction::Jal(_) => OPCODE_JAL,
            Instruction::JalR(_) => OPCODE_JALR,
            Instruction::Branch(_) => OPCODE_BRANCH,
            Instruction::Load(_) => OPCODE_LOAD,
            Instruction::Store(_) => OPCODE_STORE,
        }
    }

    /// The fields of the variant, as bits 31..7 of a word.
    pub open spec fn spec_fields(&self) -> u32 {
        match self {
            Instruction::OpImm(d) => d.spec_encode(),
            Instruction::Lui(d) => d.spec_encode(),
            Instruction::AuiPc(d) => d.spec_encode(),
            Instruction::Op(d) => d.spec_encode(),
            Instruction::Jal(d) => d.spec_encode(),
            Instruction::JalR(d) => d.spec_encode(),
            Instruction::Branch(d) => d.spec_encode(),
            Instruction::Load(d) => d.spec_encode(),
            Instruction::Store(d) => d.spec_encode(),
        }
    }

    /// The instruction word: the fields with the opcode below them.
    pub open spec fn spec_encode(&self) -> u32 {
        self.spec_fields() | self.opcode()
    }

    /// The instruction that a word spells, by its opcode.
    pub open spec fn spec_decode(data: u32) -> Option<Instruction> {
        let opcode = data & OPCODE_MASK;
        if opcode == OPCODE_OPIMM {
            Some(Instruction::OpImm(IType::spec_decode(data)))
        } else if opcode == OPCODE_LUI {
            Some(Instruction::Lui(UType::spec_decode(data)))
        } else if opcode == OPCODE_AUIPC {
            Some(Instruction::AuiPc(UType::spec_decode(data)))
        } else if opcode == OPCODE_OP {
            Some(Instruction::Op(RType::spec_decode(data)))
        } else if opcode == OPCODE_JAL {
            Some(Instruction::Jal(JType::spec_decode(data)))
        } else if opcode == OPCODE_JALR {
            Some(Instruction::JalR(IType::spec_decode(data)))
        } else if opcode == OPCODE_BRANCH {
            Some(Instruction::Branch(BType::spec_decode(data)))
        } else if opcode == OPCODE_LOAD {
            Some(Instruction::Load(IType::spec_decode(data)))
        } else if opcode == OPCODE_STORE {
            Some(Instruction::Store(SType::spec_decode(data)))
        } else {
            None
        }
    }

    /// Reads a word by its opcode; `None` where the opcode is none of the
    /// nine that carry operands.
    pub fn decode(data: u32) -> (r: Option<Self>)
        ensures
            r == Self::spec_decode(data),
    {
        let opcode = data & 0b1111111;
        if opcode == 0b0010011 {
            Some(Self::OpImm(IType::decode(data)))
        } else if opcode == 0b0110111 {
            Some(Self::Lui(UType::decode(data)))
        } else if opcode == 0b0010111 {
            Some(Self::AuiPc(UType::decode(data)))
        } else if opcode == 0b0110011 {
            Some(Self::Op(RType::decode(data)))
        } else if opcode == 0b1101111 {
            Some(Self::Jal(JType::decode(data)))
        } else if opcode == 0b1100111 {
            Some(Self::JalR(IType::decode(data)))
        } else if opcode == 0b1100011 {
            Some(Self::Branch(BType::decode(data)))
        } else if opcode == 0b0000011 {
            Some(Self::Load(IType::decode(data)))
        } else if opcode == 0b0100011 {
            Some(Self::Store(SType::decode(data)))
        } else {
            None
        }
    }

    /// Writes the instruction as a word.
    pub fn encode(&self) -> (w: u32)
        ensures
            w == self.spec_encode(),
    {
        match self {
            Instruction::OpImm(d) => d.encode() | OPCODE_OPIMM,
            Instruction::Lui(d) => d.encode() | OPCODE_LUI,
            Instruction::AuiPc(d) => d.encode() | OPCODE_AUIPC,
            Instruction::Op(d) => d.encode() | OPCODE_OP,
            Instruction::Jal(d) => d.encode() | OPCODE_JAL,
            Instruction::JalR(d) => d.encode() | OPCODE_JALR,
            Instruction::Branch(d) => d.encode() | OPCODE_BRANCH,
            Instruction::Load(d) => d.encode() | OPCODE_LOAD,
            Instruction::Store(d) => d.encode() | OPCODE_STORE,
        }
    }

    /// Every field of the instruction fits its width.
    pub open spec fn wf(&self) -> bool {
        match self {
            Instruction::OpImm(d) => d.wf(),
            Instruction::Lui(d) => d.wf(),
            Instruction::AuiPc(d) => d.wf(),
            Instruction::Op(d) => d.wf(),
            Instruction::Jal(d) => d.wf(),
            Instruction::JalR(d) => d.wf(),
            Instruction::Branch(d) => d.wf(),
            Instruction::Load(d) => d.wf(),
            Instruction::Store(d) => d.wf(),
        }
    }

    /// Every instruction whose fields fit their widths decodes from its
    /// encoding.
    pub proof fn law_decode_encode(i: Instruction)
        requires
            i.wf(),
        ensures
            Self::spec_decode(i.spec_encode()) == Some(i),
    {
        match i {
            Instruction::OpImm(d) => IType::law_decode_encode_under(d, OPCODE_OPIMM),
            Instruction::Lui(d) => UType::law_decode_encode_under(d, OPCODE_LUI),
            Instruction::AuiPc(d) => UType::law_decode_encode_under(d, OPCODE_AUIPC),
            Instruction::Op(d) => RType::law_decode_encode_under(d, OPCODE_OP),
            Instruction::Jal(d) => JType::law_decode_encode_under(d, OPCODE_JAL),
            Instruction::JalR(d) => IType::law_decode_encode_under(d, OPCODE_JALR),
            Instruction::Branch(d) => BType::law_decode_encode_under(d, OPCODE_BRANCH),
            Instruction::Load(d) => IType::law_decode_encode_under(d, OPCODE_LOAD),
            Instruction::Store(d) => SType::law_decode_encode_under(d, OPCODE_STORE),
        }
    }

    /// Every decoded instruction is well formed.
    pub proof fn lemma_decode_wf(data: u32)
        ensures
            Self::spec_decode(data) matches Some(i) ==> i.wf(),
    {
        IType::lemma_decode_wf(data);
        UType::lemma_decode_wf(data);
        RType::lemma_decode_wf(data);
        JType::lemma_decode_wf(data);
        BType::lemma_decode_wf(data);
        SType::lemma_decode_wf(data);
    }

    /// Every word that decodes is the encoding of what it decodes to.
    pub proof fn law_encode_decode(data: u32)
        requires
            Self::spec_decode(data) is Some,
        ensures
            Self::spec_decode(data).unwrap().spec_encode() == data,
    {
        let fields = Self::spec_decode(data).unwrap().spec_fields();
        let opcode = data & OPCODE_MASK;
        IType::law_encode_decode(data);
        UType::law_encode_decode(data);
        RType::law_encode_decode(data);
        JType::law_encode_decode(data);
        BType::law_encode_decode(data);
        SType::law_encode_decode(data);
        assert(fields == data & SHAPE_MASK);
        assert(fields | opcode == data) by (bit_vector)
            requires
                fields == data & 0xffff_ff80,
                opcode == data & 0b1111111,
        ;
    }
}

} // verus!

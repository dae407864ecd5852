//! Opcodes of the ALU and their numbering.
//!
//! Inside the library an operation is an `AluOpcode`.  On the wire an instruction
//! carries a number: the offset of the opcode's class plus the opcode's index in
//! that class.  The class offsets are configuration, held in `OpcodeOffsets`.

use vstd::prelude::*;

verus! {

/// The operations of the ALU.
#[derive(Clone, Copy, Debug, PartialEq, Eq, Structural)]
pub enum AluOpcode {
    /// Addition modulo the word size.
    Add,
    /// Subtraction modulo the word size.
    Sub,
    /// Limb-wise exclusive or.
    Xor,
    /// Limb-wise or.
    Or,
    /// Limb-wise and.
    And,
    /// Signed less-than.
    Slt,
    /// Unsigned less-than.
    Sltu,
}

/// The group of opcodes that one chip serves.  Each class is numbered from its
/// own offset.
#[derive(Clone, Copy, Debug, PartialEq, Eq, Structural)]
pub enum OpcodeClass {
    /// `Add`, `Sub`, `Xor`, `Or`, `And`.
    BaseAlu,
    /// `Slt`, `Sltu`.
    LessThan,
}

/// What can go wrong when an operation is named by number.
#[derive(Clone, Copy, Debug, PartialEq, Eq, Structural)]
pub enum AluError {
    /// The number names no operation of the ALU.
    InvalidOpcode { tag: usize },
}

/// Number of opcodes in the base class.
pub const BASE_ALU_OPCODES: usize = 5;

/// Number of opcodes in the comparison class.
pub const LESS_THAN_OPCODES: usize = 2;

impl AluOpcode {
    /// The class the opcode belongs to.
    pub open spec fn class_of(self) -> OpcodeClass {
        match self {
            AluOpcode::Slt | AluOpcode::Sltu => OpcodeClass::LessThan,
            _ => OpcodeClass::BaseAlu,
        }
    }

    /// The opcode's index within its class.
    pub open spec fn local_index_of(self) -> int {
        match self {
            AluOpcode::Add => 0,
            AluOpcode::Sub => 1,
            AluOpcode::Xor => 2,
            AluOpcode::Or => 3,
            AluOpcode::And => 4,
            AluOpcode::Slt => 0,
            AluOpcode::Sltu => 1,
        }
    }

    pub fn class(&self) -> (class: OpcodeClass)
        ensures
            class == self.class_of(),
    {
        match self {
            AluOpcode::Slt | AluOpcode::Sltu => OpcodeClass::LessThan,
            _ => OpcodeClass::BaseAlu,
        }
    }

    pub fn local_index(&self) -> (index: usize)
        ensures
            index == self.local_index_of(),
    {
        match self {
            AluOpcode::Add => 0,
            AluOpcode::Sub => 1,
            AluOpcode::Xor => 2,
            AluOpcode::Or => 3,
            AluOpcode::And => 4,
            AluOpcode::Slt => 0,
            AluOpcode::Sltu => 1,
        }
    }
}

/// Where each opcode class starts in the instruction set's numbering.
#[derive(Clone, Copy, Debug, PartialEq, Eq, Structural)]
pub struct OpcodeOffsets {
    /// Number of the first opcode of the base class.
    pub base_alu: usize,
    /// Number of the first opcode of the comparison class.
    pub less_than: usize,
}

impl OpcodeOffsets {
    /// Both classes fit in the number range and do not overlap.
    pub open spec fn wf(&self) -> bool {
        &&& self.base_alu + BASE_ALU_OPCODES <= usize::MAX
        &&& self.less_than + LESS_THAN_OPCODES <= usize::MAX
        &&& (self.base_alu + BASE_ALU_OPCODES <= self.less_than || self.less_than
            + LESS_THAN_OPCODES <= self.base_alu)
    }

    /// The offset of one class.
    pub open spec fn class_offset(&self, class: OpcodeClass) -> int {
        match class {
            OpcodeClass::BaseAlu => self.base_alu as int,
            OpcodeClass::LessThan => self.less_than as int,
        }
    }

    /// The number that stands for `opcode` in an instruction.
    pub open spec fn tag_of(&self, opcode: AluOpcode) -> int {
        self.class_offset(opcode.class_of()) + opcode.local_index_of()
    }

    /// Offsets for the two classes, if the classes fit and do not overlap.
    pub fn new(base_alu: usize, less_than: usize) -> (offsets: Option<OpcodeOffsets>)
        ensures
            offsets is Some <==> (OpcodeOffsets { base_alu, less_than }).wf(),
            offsets is Some ==> offsets->Some_0 == (OpcodeOffsets { base_alu, less_than }),
    {
        if base_alu > usize::MAX - BASE_ALU_OPCODES || less_than > usize::MAX
            - LESS_THAN_OPCODES {
            return None;
        }
        if base_alu + BASE_ALU_OPCODES <= less_than || less_than + LESS_THAN_OPCODES
            <= base_alu {
            Some(OpcodeOffsets { base_alu, less_than })
        } else {
            None
        }
    }

    /// The number that stands for `opcode` in an instruction.
    pub fn global_opcode(&self, opcode: AluOpcode) -> (tag: usize)
        requires
            self.wf(),
        ensures
            tag == self.tag_of(opcode),
    {
        match opcode.class() {
            OpcodeClass::BaseAlu => self.base_alu + opcode.local_index(),
            OpcodeClass::LessThan => self.less_than + opcode.local_index(),
        }
    }

    /// The operation that `tag` stands for.  Fails with `InvalidOpcode` exactly when
    /// no operation has that number.
    pub fn decode(&self, tag: usize) -> (decoded: Result<AluOpcode, AluError>)
        requires
            self.wf(),
        ensures
            match decoded {
                Ok(opcode) => self.tag_of(opcode) == tag,
                Err(error) => error == (AluError::InvalidOpcode { tag }) && forall|
                    opcode: AluOpcode,
                | self.tag_of(opcode) != tag,
            },
    {
        if self.base_alu <= tag && tag - self.base_alu < BASE_ALU_OPCODES {
            let index: usize = tag - self.base_alu;
            if index == 0 {
                Ok(AluOpcode::Add)
            } else if index == 1 {
                Ok(AluOpcode::Sub)
            } else if index == 2 {
                Ok(AluOpcode::Xor)
            } else if index == 3 {
                Ok(AluOpcode::Or)
            } else {
                Ok(AluOpcode::And)
            }
        } else if self.less_than <= tag && tag - self.less_than < LESS_THAN_OPCODES {
            if tag == self.less_than {
                Ok(AluOpcode::Slt)
            } else {
                Ok(AluOpcode::Sltu)
            }
        } else {
            Err(AluError::InvalidOpcode { tag })
        }
    }
}

/// No two operations share a number.
pub proof fn lemma_tag_of_injective(offsets: OpcodeOffsets, first: AluOpcode, second: AluOpcode)
    requires
        offsets.wf(),
        offsets.tag_of(first) == offsets.tag_of(second),
    ensures
        first == second,
{
}

} // verus!

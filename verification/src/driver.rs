//! Driving one instruction: resolving its operands, staging it, and judging what
//! the execution pipeline wrote back.
//!
//! The pipeline itself is not part of this library.  `set_and_execute` prepares
//! everything the pipeline needs and computes the result the ALU must produce.
//! `ExecutionPlan::steps` lists what to ask of the pipeline, in order; the last
//! step reads the destination, and `ExecutionPlan::check_read_back` compares what
//! was read with the result the ALU computes.

use crate::alu::{alu_result, run_alu};
use crate::immediate::{
    generate_rv32_is_type_immediate, imm_limbs, imm_literal, immediate_from_limbs,
    limbs_literal, IMM_FIELD_BOUND,
};
use crate::instruction::{
    rv32_rand_write_register_or_imm, stages, InstructionRecord, SecondOperand,
    StagedInstruction, StoreWrite, REGISTER_ADDRESS_SPACE,
};
use crate::opcode::{AluOpcode, OpcodeOffsets};
use crate::random::{random_coin, random_limb};
use rand::rngs::StdRng;
use vstd::prelude::*;

verus! {

/// Number of limbs in a 32-bit register.
pub const RV32_REGISTER_NUM_LIMBS: usize = 4;

/// Number of instructions that the harness reserves trace storage for.
pub const MAX_INS_CAPACITY: usize = 128;

/// A block of the register store to read once the instruction has run.
#[derive(Clone, Copy, Debug, PartialEq, Eq, Structural)]
pub struct StoreRead {
    /// The address space read from.
    pub address_space: usize,
    /// The first cell read.
    pub pointer: usize,
}

/// One thing to ask of the execution pipeline.
#[derive(Clone, Copy, Debug, PartialEq, Eq)]
pub enum PipelineStep {
    /// Write limbs into the store.
    Write(StoreWrite<4>),
    /// Run the instruction.
    Execute(InstructionRecord),
    /// Read the limbs at a location, to be judged by `check_read_back`.
    Read(StoreRead),
}

/// The operands of one instruction, once every choice left open by the caller
/// has been made.
#[derive(Clone, Copy, Debug, PartialEq, Eq)]
pub struct ResolvedOperands {
    /// The first operand.
    pub first: [u8; 4],
    /// The second operand, as the ALU sees it.
    pub second: [u8; 4],
    /// The literal that stands for the second operand in the instruction, if the
    /// second operand is an immediate.
    pub literal: Option<usize>,
}

/// Whether `resolved` respects what the caller fixed.
///
/// An operand that was given is kept.  A mode that was given is kept.  An
/// immediate that was given as limbs gets the low 24 bits of its word as literal;
/// one that was not given is the packing of some 12-bit field.
pub open spec fn resolves(
    resolved: ResolvedOperands,
    b: Option<[u8; 4]>,
    is_imm: Option<bool>,
    c: Option<[u8; 4]>,
) -> bool {
    &&& b matches Some(limbs) ==> resolved.first == limbs
    &&& is_imm matches Some(flag) ==> (resolved.literal is Some) == flag
    &&& match resolved.literal {
        Some(literal) => match c {
            Some(limbs) => resolved.second == limbs && literal == limbs_literal(limbs@),
            None => exists|field: int|
                0 <= field < IMM_FIELD_BOUND && literal == imm_literal(field) && resolved.second@
                    == #[trigger] imm_limbs(field),
        },
        None => c matches Some(limbs) ==> resolved.second == limbs,
    }
}

/// What the generator contributes to one instruction's operands.  Which of the
/// draws are used depends on what the caller fixed.
#[derive(Clone, Copy, Debug, PartialEq, Eq)]
pub struct OperandDraws {
    /// The first operand, used when none is given.
    pub first: [u8; 4],
    /// The mode, used when none is given: `true` for an immediate.
    pub immediate_mode: bool,
    /// A packed immediate, literal and limbs, used in immediate mode when no second
    /// operand is given.
    pub immediate: (usize, [u8; 4]),
    /// The second operand, used in register mode when none is given.
    pub second: [u8; 4],
}

/// Whether `resolved` is what the caller's choices and the draws determine.
///
/// What the caller gives is kept, what it leaves open is taken from the draws.  An
/// immediate that is given as limbs gets the low 24 bits of its word as literal.
pub open spec fn resolves_with(
    resolved: ResolvedOperands,
    b: Option<[u8; 4]>,
    is_imm: Option<bool>,
    c: Option<[u8; 4]>,
    draws: OperandDraws,
) -> bool {
    let immediate_mode = match is_imm {
        Some(flag) => flag,
        None => draws.immediate_mode,
    };
    &&& resolved.first == match b {
        Some(limbs) => limbs,
        None => draws.first,
    }
    &&& if immediate_mode {
        match c {
            Some(limbs) => resolved.second == limbs && resolved.literal == Some(
                limbs_literal(limbs@) as usize,
            ),
            None => resolved.second == draws.immediate.1 && resolved.literal == Some(
                draws.immediate.0,
            ),
        }
    } else {
        &&& resolved.literal is None
        &&& resolved.second == match c {
            Some(limbs) => limbs,
            None => draws.second,
        }
    }
}

/// Settles the operands from the caller's choices and the draws.
pub fn resolve_with_draws(
    b: Option<[u8; 4]>,
    is_imm: Option<bool>,
    c: Option<[u8; 4]>,
    draws: OperandDraws,
) -> (resolved: ResolvedOperands)
    ensures
        resolves_with(resolved, b, is_imm, c, draws),
{
    let first: [u8; 4] = match b {
        Some(limbs) => limbs,
        None => draws.first,
    };
    let immediate_mode: bool = match is_imm {
        Some(flag) => flag,
        None => draws.immediate_mode,
    };
    if immediate_mode {
        let packed: (usize, [u8; 4]) = match c {
            Some(limbs) => immediate_from_limbs(limbs),
            None => draws.immediate,
        };
        ResolvedOperands { first, second: packed.1, literal: Some(packed.0) }
    } else {
        let second: [u8; 4] = match c {
            Some(limbs) => limbs,
            None => draws.second,
        };
        ResolvedOperands { first, second, literal: None }
    }
}

/// Draws one operand, limb by limb.  Every word is a possible outcome.
fn random_limbs(rng: &mut StdRng) -> (limbs: [u8; 4]) {
    let mut limbs: [u8; 4] = [0u8;4];
    let mut i: usize = 0;
    while i < 4
        invariant
            i <= 4,
        decreases 4 - i,
    {
        limbs[i] = random_limb(rng);
        i += 1;
    }
    limbs
}

/// Decides what the caller left open: an operand that is not given is drawn, and
/// so is the choice between register and immediate.
///
/// The first operand and the mode are always drawn, given or not; an immediate is
/// drawn only where one is used, and so is a second register operand.
pub fn resolve_operands(
    rng: &mut StdRng,
    b: Option<[u8; 4]>,
    is_imm: Option<bool>,
    c: Option<[u8; 4]>,
) -> (resolved: ResolvedOperands)
    ensures
        resolves(resolved, b, is_imm, c),
{
    let first: [u8; 4] = random_limbs(rng);
    let immediate_mode: bool = random_coin(rng);
    let immediate_used: bool = match is_imm {
        Some(flag) => flag,
        None => immediate_mode,
    };
    let mut immediate: (usize, [u8; 4]) = (0, [0u8;4]);
    let mut second: [u8; 4] = [0u8;4];
    if immediate_used {
        if c.is_none() {
            immediate = generate_rv32_is_type_immediate(rng);
        }
    } else {
        second = random_limbs(rng);
    }
    resolve_with_draws(b, is_imm, c, OperandDraws { first, immediate_mode, immediate, second })
}

/// Everything that is settled about one instruction before it runs.
#[derive(Debug, PartialEq, Eq)]
pub struct ExecutionPlan {
    /// The operation.
    pub opcode: AluOpcode,
    /// The operands.
    pub operands: ResolvedOperands,
    /// The instruction and the writes that stage its operands.
    pub staged: StagedInstruction<4>,
    /// The result the ALU computes from the operands.
    pub expected: [u8; 4],
}

impl ExecutionPlan {
    /// The plan is consistent: the instruction carries the opcode's number, its
    /// operands are staged at locations that share no cell, its second operand is
    /// an immediate exactly when a literal was resolved, and the expected result
    /// is what the ALU computes.
    pub open spec fn wf(&self, offsets: OpcodeOffsets) -> bool {
        &&& stages(
            self.staged,
            self.operands.first,
            self.operands.second,
            offsets.tag_of(self.opcode) as usize,
            self.staged.instruction.locations(),
        )
        &&& self.staged.instruction.locations().wf(4)
        &&& match self.operands.literal {
            Some(value) => self.staged.instruction.second() == (SecondOperand::Immediate {
                value,
            }),
            None => self.staged.instruction.second() is Register,
        }
        &&& self.expected@ == alu_result(self.opcode, self.operands.first@, self.operands.second@)
    }

    /// Where the result is to be read once the instruction has run: the
    /// instruction's destination, in the register store.
    pub open spec fn result_location(&self) -> StoreRead {
        StoreRead {
            address_space: REGISTER_ADDRESS_SPACE,
            pointer: self.staged.instruction.destination,
        }
    }

    /// What to ask of the pipeline, in order: every staged write, then the
    /// instruction, then the read of the result.
    pub open spec fn script(&self) -> Seq<PipelineStep> {
        self.staged.writes@.map_values(|write: StoreWrite<4>| PipelineStep::Write(write)) + seq![
            PipelineStep::Execute(self.staged.instruction),
            PipelineStep::Read(self.result_location()),
        ]
    }

    /// Where the result is to be read once the instruction has run.
    pub fn read_back(&self) -> (read: StoreRead)
        ensures
            read == self.result_location(),
    {
        StoreRead {
            address_space: REGISTER_ADDRESS_SPACE,
            pointer: self.staged.instruction.destination,
        }
    }

    /// What to ask of the pipeline, in order.
    pub fn steps(&self) -> (steps: Vec<PipelineStep>)
        ensures
            steps@ == self.script(),
    {
        let mut steps: Vec<PipelineStep> = Vec::new();
        let mut i: usize = 0;
        while i < self.staged.writes.len()
            invariant
                i <= self.staged.writes.len(),
                steps@ == self.staged.writes@.take(i as int).map_values(
                    |write: StoreWrite<4>| PipelineStep::Write(write),
                ),
            decreases self.staged.writes.len() - i,
        {
            steps.push(PipelineStep::Write(self.staged.writes[i]));
            assert(steps@ =~= self.staged.writes@.take(i + 1).map_values(
                |write: StoreWrite<4>| PipelineStep::Write(write),
            ));
            i += 1;
        }
        assert(self.staged.writes@.take(i as int) =~= self.staged.writes@);
        steps.push(PipelineStep::Execute(self.staged.instruction));
        steps.push(PipelineStep::Read(self.read_back()));
        assert(steps@ =~= self.script());
        steps
    }

    /// Whether the limbs read back from the destination are the expected result,
    /// limb for limb.
    pub open spec fn matches_read_back(&self, read_back: [u32; 4]) -> bool {
        forall|i: int| 0 <= i < 4 ==> read_back@[i] == self.expected@[i] as u32
    }

    /// Compares the limbs read back from the destination with the expected result.
    /// Fails at the first limb that differs.
    pub fn check_read_back(&self, read_back: &[u32; 4]) -> (verdict: Result<(), ExecutionError>)
        ensures
            verdict is Ok <==> self.matches_read_back(*read_back),
            verdict matches Err(ExecutionError::ResultMismatch { limb, expected, found }) ==> {
                &&& limb < 4
                &&& expected == self.expected@[limb as int]
                &&& found == read_back@[limb as int]
                &&& found != expected as u32
                &&& forall|i: int| 0 <= i < limb ==> read_back@[i] == self.expected@[i] as u32
            },
    {
        let mut i: usize = 0;
        while i < 4
            invariant
                i <= 4,
                forall|k: int| 0 <= k < i ==> read_back@[k] == self.expected@[k] as u32,
            decreases 4 - i,
        {
            if read_back[i] != self.expected[i] as u32 {
                return Err(
                    ExecutionError::ResultMismatch {
                        limb: i,
                        expected: self.expected[i],
                        found: read_back[i],
                    },
                );
            }
            i += 1;
        }
        Ok(())
    }
}

/// The pipeline and the ALU disagree.
#[derive(Clone, Copy, Debug, PartialEq, Eq, Structural)]
pub enum ExecutionError {
    /// The destination holds `found` in limb `limb`, where the ALU computes
    /// `expected`.
    ResultMismatch { limb: usize, expected: u8, found: u32 },
}

/// Prepares one instruction for execution.
///
/// Operands and mode that the caller leaves open are drawn from `rng`; locations
/// are always drawn.  The plan that comes back holds the writes to perform, the
/// instruction to submit, and the result to expect at the destination.
pub fn set_and_execute(
    rng: &mut StdRng,
    offsets: &OpcodeOffsets,
    opcode: AluOpcode,
    b: Option<[u8; 4]>,
    is_imm: Option<bool>,
    c: Option<[u8; 4]>,
) -> (plan: ExecutionPlan)
    requires
        offsets.wf(),
    ensures
        plan.opcode == opcode,
        resolves(plan.operands, b, is_imm, c),
        plan.wf(*offsets),
{
    let operands: ResolvedOperands = resolve_operands(rng, b, is_imm, c);
    let staged = rv32_rand_write_register_or_imm(
        operands.first,
        operands.second,
        operands.literal,
        offsets.global_opcode(opcode),
        rng,
    );
    let expected: [u8; 4] = run_alu(opcode, &operands.first, &operands.second);
    ExecutionPlan { opcode, operands, staged: staged.0, expected }
}

/// A read-back that a consistent plan accepts is, limb for limb, what the ALU
/// computes from the plan's opcode and operands; and the ALU's own result is
/// always accepted.
pub proof fn lemma_accepted_read_back(
    plan: ExecutionPlan,
    offsets: OpcodeOffsets,
    read_back: [u32; 4],
)
    requires
        plan.wf(offsets),
    ensures
        plan.matches_read_back(read_back) <==> read_back@ == alu_result(
            plan.opcode,
            plan.operands.first@,
            plan.operands.second@,
        ).map_values(|limb: u8| limb as u32),
{
    let result = alu_result(plan.opcode, plan.operands.first@, plan.operands.second@);
    let widened = result.map_values(|limb: u8| limb as u32);
    if plan.matches_read_back(read_back) {
        assert(read_back@ =~= widened);
    }
    if read_back@ == widened {
        assert forall|i: int| 0 <= i < 4 implies read_back@[i] == plan.expected@[i] as u32 by {
            assert(widened[i] == result[i] as u32);
        }
    }
}

} // verus!

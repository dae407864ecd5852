//! Building one instruction: where its operands live in the register store, what
//! has to be written there before it runs, and the record that names it all.

use crate::random::{gen_pointer, MAX_MEMORY};
use rand::rngs::StdRng;
use vstd::arithmetic::div_mod::*;
use vstd::prelude::*;

verus! {

/// Address space of the register store.
pub const REGISTER_ADDRESS_SPACE: usize = 1;

/// Address space that marks an operand as an immediate.
pub const IMMEDIATE_ADDRESS_SPACE: usize = 0;

/// The second operand of an instruction: a register to read, or a literal carried
/// in the instruction itself.
#[derive(Clone, Copy, Debug, PartialEq, Eq, Structural)]
pub enum SecondOperand {
    /// The operand is read from the register store at `pointer`.
    Register { pointer: usize },
    /// The operand is the literal `value`.
    Immediate { value: usize },
}

/// One instruction as it is handed to the execution pipeline.
///
/// When `second_is_immediate` is set, `second_operand` holds the literal itself
/// and not a location.
#[derive(Clone, Copy, Debug, PartialEq, Eq, Structural)]
pub struct InstructionRecord {
    /// The opcode's number in the instruction set.
    pub opcode: usize,
    /// Where the result is written.
    pub destination: usize,
    /// Where the first operand is read.
    pub first_operand: usize,
    /// Where the second operand is read, or its literal value.
    pub second_operand: usize,
    /// Whether `second_operand` is a literal.
    pub second_is_immediate: bool,
    /// Whether the instruction is real, as opposed to a padding row.
    pub enabled: bool,
}

impl InstructionRecord {
    /// The second operand, told apart by the flag.
    pub open spec fn second(&self) -> SecondOperand {
        if self.second_is_immediate {
            SecondOperand::Immediate { value: self.second_operand }
        } else {
            SecondOperand::Register { pointer: self.second_operand }
        }
    }

    /// The five operand fields of the instruction word: destination, first operand,
    /// second operand, then the two address-space fields.  The first of those is 1
    /// for an enabled instruction; the second is 0 for an immediate and 1 for a
    /// register.
    pub open spec fn wire(&self) -> Seq<usize> {
        seq![
            self.destination,
            self.first_operand,
            self.second_operand,
            if self.enabled {
                REGISTER_ADDRESS_SPACE
            } else {
                0
            },
            if self.second_is_immediate {
                IMMEDIATE_ADDRESS_SPACE
            } else {
                REGISTER_ADDRESS_SPACE
            },
        ]
    }

    /// Assembles the record of an enabled instruction.
    pub fn assemble(
        opcode: usize,
        destination: usize,
        first_operand: usize,
        second: SecondOperand,
    ) -> (record: InstructionRecord)
        ensures
            record.opcode == opcode,
            record.destination == destination,
            record.first_operand == first_operand,
            record.second() == second,
            record.enabled,
    {
        match second {
            SecondOperand::Register { pointer } => InstructionRecord {
                opcode,
                destination,
                first_operand,
                second_operand: pointer,
                second_is_immediate: false,
                enabled: true,
            },
            SecondOperand::Immediate { value } => InstructionRecord {
                opcode,
                destination,
                first_operand,
                second_operand: value,
                second_is_immediate: true,
                enabled: true,
            },
        }
    }

    /// The second operand, told apart by the flag.
    pub fn second_operand_kind(&self) -> (second: SecondOperand)
        ensures
            second == self.second(),
    {
        if self.second_is_immediate {
            SecondOperand::Immediate { value: self.second_operand }
        } else {
            SecondOperand::Register { pointer: self.second_operand }
        }
    }

    /// The five operand fields of the instruction word.
    pub fn operands(&self) -> (fields: [usize; 5])
        ensures
            fields@ == self.wire(),
    {
        let enabled: usize = if self.enabled {
            REGISTER_ADDRESS_SPACE
        } else {
            0
        };
        let second_space: usize = if self.second_is_immediate {
            IMMEDIATE_ADDRESS_SPACE
        } else {
            REGISTER_ADDRESS_SPACE
        };
        let fields: [usize; 5] = [
            self.destination,
            self.first_operand,
            self.second_operand,
            enabled,
            second_space,
        ];
        fields
    }

    /// The locations the instruction touches.
    pub open spec fn locations(&self) -> OperandLocations {
        OperandLocations {
            destination: self.destination,
            first_operand: self.first_operand,
            second: self.second(),
        }
    }
}

/// A block of `len` cells at `pointer` is aligned to its length and lies inside
/// the store.
pub open spec fn slot_ok(pointer: int, len: int) -> bool {
    0 <= pointer && pointer % len == 0 && pointer + len <= MAX_MEMORY
}

/// Two blocks of `len` cells do not share a cell.
pub open spec fn slots_disjoint(a: int, b: int, len: int) -> bool {
    a + len <= b || b + len <= a
}

/// The block after the one at `pointer`, wrapping to the start of the store.
pub open spec fn next_slot(pointer: int, len: int) -> int {
    if pointer + 2 * len <= MAX_MEMORY {
        pointer + len
    } else {
        0
    }
}

/// The first block among `pointer` and its two successors that is neither of the
/// two taken blocks.
pub open spec fn free_slot_of(pointer: int, len: int, taken_a: int, taken_b: int) -> int {
    let second = next_slot(pointer, len);
    if pointer != taken_a && pointer != taken_b {
        pointer
    } else if second != taken_a && second != taken_b {
        second
    } else {
        next_slot(second, len)
    }
}

/// Aligned blocks of one length are either the same block or disjoint.
pub proof fn lemma_aligned_slots(a: int, b: int, len: int)
    requires
        len > 0,
        a % len == 0,
        b % len == 0,
        a != b,
    ensures
        slots_disjoint(a, b, len),
{
    lemma_fundamental_div_mod(a, len);
    lemma_fundamental_div_mod(b, len);
    let qa = a / len;
    let qb = b / len;
    if a < b {
        assert(len * qb >= len * qa + len) by (nonlinear_arith)
            requires
                len > 0,
                len * qa < len * qb,
        ;
    } else {
        assert(len * qa >= len * qb + len) by (nonlinear_arith)
            requires
                len > 0,
                len * qb < len * qa,
        ;
    }
}

/// The successor of a valid block is a valid block, different from it.
pub proof fn lemma_next_slot(pointer: int, len: int)
    requires
        len > 0,
        2 * len <= MAX_MEMORY,
        slot_ok(pointer, len),
    ensures
        slot_ok(next_slot(pointer, len), len),
        next_slot(pointer, len) != pointer,
{
    lemma_mod_add_multiples_vanish(pointer, len);
    lemma_small_mod(0, len as nat);
}

/// In a store with room for three blocks, `free_slot_of` finds a valid block that
/// shares no cell with either taken block, and keeps `pointer` when it is free.
pub proof fn lemma_free_slot(pointer: int, len: int, taken_a: int, taken_b: int)
    requires
        len > 0,
        3 * len <= MAX_MEMORY,
        slot_ok(pointer, len),
        slot_ok(taken_a, len),
        slot_ok(taken_b, len),
    ensures
        slot_ok(free_slot_of(pointer, len, taken_a, taken_b), len),
        slots_disjoint(free_slot_of(pointer, len, taken_a, taken_b), taken_a, len),
        slots_disjoint(free_slot_of(pointer, len, taken_a, taken_b), taken_b, len),
        pointer != taken_a && pointer != taken_b ==> free_slot_of(pointer, len, taken_a, taken_b)
            == pointer,
{
    let second = next_slot(pointer, len);
    let third = next_slot(second, len);
    lemma_next_slot(pointer, len);
    lemma_next_slot(second, len);
    let found = free_slot_of(pointer, len, taken_a, taken_b);
    lemma_aligned_slots(found, taken_a, len);
    lemma_aligned_slots(found, taken_b, len);
}

/// Where one instruction reads and writes.
#[derive(Clone, Copy, Debug, PartialEq, Eq, Structural)]
pub struct OperandLocations {
    /// Where the result is written.
    pub destination: usize,
    /// Where the first operand is read.
    pub first_operand: usize,
    /// The second operand: where it is read, or its literal.
    pub second: SecondOperand,
}

impl OperandLocations {
    /// Every location is a valid block of `len` cells, and no two of them share a
    /// cell.
    pub open spec fn wf(&self, len: int) -> bool {
        &&& slot_ok(self.destination as int, len)
        &&& slot_ok(self.first_operand as int, len)
        &&& slots_disjoint(self.destination as int, self.first_operand as int, len)
        &&& match self.second {
            SecondOperand::Register { pointer } => {
                &&& slot_ok(pointer as int, len)
                &&& slots_disjoint(pointer as int, self.first_operand as int, len)
                &&& slots_disjoint(pointer as int, self.destination as int, len)
            },
            SecondOperand::Immediate { value } => true,
        }
    }
}

/// The locations that `allocate_locations` settles on, given the pointers drawn.
/// The first operand keeps its pointer; the second operand, then the destination,
/// move to the next free block if theirs is taken.
pub open spec fn allocated(
    len: int,
    drawn_first: usize,
    drawn_second: SecondOperand,
    drawn_destination: usize,
) -> OperandLocations {
    let first = drawn_first as int;
    match drawn_second {
        SecondOperand::Register { pointer } => {
            let second = free_slot_of(pointer as int, len, first, first);
            OperandLocations {
                destination: free_slot_of(drawn_destination as int, len, first, second) as usize,
                first_operand: drawn_first,
                second: SecondOperand::Register { pointer: second as usize },
            }
        },
        SecondOperand::Immediate { value } => OperandLocations {
            destination: free_slot_of(drawn_destination as int, len, first, first) as usize,
            first_operand: drawn_first,
            second: drawn_second,
        },
    }
}

/// The first block among `pointer` and its two successors that is neither of the
/// two taken blocks.
fn free_slot(pointer: usize, len: usize, taken_a: usize, taken_b: usize) -> (slot: usize)
    requires
        len > 0,
        3 * len <= MAX_MEMORY,
        slot_ok(pointer as int, len as int),
        slot_ok(taken_a as int, len as int),
        slot_ok(taken_b as int, len as int),
    ensures
        slot == free_slot_of(pointer as int, len as int, taken_a as int, taken_b as int),
        slot_ok(slot as int, len as int),
        slots_disjoint(slot as int, taken_a as int, len as int),
        slots_disjoint(slot as int, taken_b as int, len as int),
{
    proof {
        lemma_free_slot(pointer as int, len as int, taken_a as int, taken_b as int);
    }
    if pointer != taken_a && pointer != taken_b {
        return pointer;
    }
    let second: usize = if pointer + 2 * len <= MAX_MEMORY {
        pointer + len
    } else {
        0
    };
    if second != taken_a && second != taken_b {
        return second;
    }
    if second + 2 * len <= MAX_MEMORY {
        second + len
    } else {
        0
    }
}

/// Settles the locations of one instruction from the pointers drawn for it, so
/// that no two operands share a cell.
pub fn allocate_locations(
    len: usize,
    drawn_first: usize,
    drawn_second: SecondOperand,
    drawn_destination: usize,
) -> (locations: OperandLocations)
    requires
        len > 0,
        3 * len <= MAX_MEMORY,
        slot_ok(drawn_first as int, len as int),
        slot_ok(drawn_destination as int, len as int),
        drawn_second matches SecondOperand::Register { pointer } ==> slot_ok(
            pointer as int,
            len as int,
        ),
    ensures
        locations == allocated(len as int, drawn_first, drawn_second, drawn_destination),
        locations.wf(len as int),
{
    match drawn_second {
        SecondOperand::Register { pointer } => {
            let second: usize = free_slot(pointer, len, drawn_first, drawn_first);
            let destination: usize = free_slot(drawn_destination, len, drawn_first, second);
            OperandLocations {
                destination,
                first_operand: drawn_first,
                second: SecondOperand::Register { pointer: second },
            }
        },
        SecondOperand::Immediate { value } => {
            let destination: usize = free_slot(drawn_destination, len, drawn_first, drawn_first);
            OperandLocations { destination, first_operand: drawn_first, second: drawn_second }
        },
    }
}

/// One write into the register store that has to happen before the instruction
/// runs.
#[derive(Clone, Copy, Debug, PartialEq, Eq)]
pub struct StoreWrite<const NUM_LIMBS: usize> {
    /// The address space written to.
    pub address_space: usize,
    /// The first cell written.
    pub pointer: usize,
    /// The limbs written, least significant first.
    pub limbs: [u8; NUM_LIMBS],
}

/// An instruction together with the writes that stage its operands.
#[derive(Debug, PartialEq, Eq)]
pub struct StagedInstruction<const NUM_LIMBS: usize> {
    /// The instruction to execute.
    pub instruction: InstructionRecord,
    /// The writes to perform first, in order.
    pub writes: Vec<StoreWrite<NUM_LIMBS>>,
}

/// The writes that stage the operands: the first operand always, the second only
/// when it is read from a register.
pub open spec fn staged_writes<const NUM_LIMBS: usize>(
    first: [u8; NUM_LIMBS],
    second: [u8; NUM_LIMBS],
    locations: OperandLocations,
) -> Seq<StoreWrite<NUM_LIMBS>> {
    let first_write = StoreWrite {
        address_space: REGISTER_ADDRESS_SPACE,
        pointer: locations.first_operand,
        limbs: first,
    };
    match locations.second {
        SecondOperand::Register { pointer } => seq![
            first_write,
            StoreWrite { address_space: REGISTER_ADDRESS_SPACE, pointer, limbs: second },
        ],
        SecondOperand::Immediate { value } => seq![first_write],
    }
}

/// Whether `staged` is the instruction `opcode` at `locations`, with the writes
/// that put `first` and `second` in place.
pub open spec fn stages<const NUM_LIMBS: usize>(
    staged: StagedInstruction<NUM_LIMBS>,
    first: [u8; NUM_LIMBS],
    second: [u8; NUM_LIMBS],
    opcode: usize,
    locations: OperandLocations,
) -> bool {
    &&& staged.instruction.opcode == opcode
    &&& staged.instruction.enabled
    &&& staged.instruction.locations() == locations
    &&& staged.writes@ == staged_writes(first, second, locations)
}

/// Assembles the instruction `opcode` at `locations` and lists the writes that
/// put its operands in place.
pub fn stage_instruction<const NUM_LIMBS: usize>(
    first: [u8; NUM_LIMBS],
    second: [u8; NUM_LIMBS],
    opcode: usize,
    locations: OperandLocations,
) -> (staged: StagedInstruction<NUM_LIMBS>)
    ensures
        stages(staged, first, second, opcode, locations),
{
    let mut writes: Vec<StoreWrite<NUM_LIMBS>> = Vec::new();
    writes.push(
        StoreWrite {
            address_space: REGISTER_ADDRESS_SPACE,
            pointer: locations.first_operand,
            limbs: first,
        },
    );
    match locations.second {
        SecondOperand::Register { pointer } => {
            writes.push(
                StoreWrite { address_space: REGISTER_ADDRESS_SPACE, pointer, limbs: second },
            );
        },
        SecondOperand::Immediate { value } => {},
    }
    let instruction = InstructionRecord::assemble(
        opcode,
        locations.destination,
        locations.first_operand,
        locations.second,
    );
    assert(writes@ =~= staged_writes(first, second, locations));
    StagedInstruction { instruction, writes }
}

/// Draws locations for one instruction, and stages it: the first operand is
/// `rs1_writes`; the second is the literal `imm` if there is one, and else the
/// register contents `rs2_writes`.  Returns the staged instruction and its
/// destination.
///
/// Whatever pointers are drawn, the locations are valid blocks of `NUM_LIMBS`
/// cells that share no cell.
pub fn rv32_rand_write_register_or_imm<const NUM_LIMBS: usize>(
    rs1_writes: [u8; NUM_LIMBS],
    rs2_writes: [u8; NUM_LIMBS],
    imm: Option<usize>,
    opcode_with_offset: usize,
    rng: &mut StdRng,
) -> (staged: (StagedInstruction<NUM_LIMBS>, usize))
    requires
        0 < NUM_LIMBS,
        3 * NUM_LIMBS <= MAX_MEMORY,
    ensures
        stages(
            staged.0,
            rs1_writes,
            rs2_writes,
            opcode_with_offset,
            staged.0.instruction.locations(),
        ),
        staged.0.instruction.locations().wf(NUM_LIMBS as int),
        match imm {
            Some(value) => staged.0.instruction.second() == (SecondOperand::Immediate { value }),
            None => staged.0.instruction.second() is Register,
        },
        staged.1 == staged.0.instruction.destination,
{
    let rs1: usize = gen_pointer(rng, NUM_LIMBS);
    let rs2: SecondOperand = match imm {
        Some(value) => SecondOperand::Immediate { value },
        None => SecondOperand::Register { pointer: gen_pointer(rng, NUM_LIMBS) },
    };
    let rd: usize = gen_pointer(rng, NUM_LIMBS);
    let locations = allocate_locations(NUM_LIMBS, rs1, rs2, rd);
    let staged = stage_instruction(rs1_writes, rs2_writes, opcode_with_offset, locations);
    (staged, locations.destination)
}

} // verus!

use base_alu_core::alu::run_alu;
use base_alu_core::driver::{
    resolve_operands, resolve_with_draws, set_and_execute, ExecutionError, ExecutionPlan,
    OperandDraws, PipelineStep, ResolvedOperands, StoreRead, MAX_INS_CAPACITY,
    RV32_REGISTER_NUM_LIMBS,
};
use base_alu_core::immediate::rv32_is_type_immediate;
use base_alu_core::instruction::{
    InstructionRecord, SecondOperand, StagedInstruction, StoreWrite,
};
use base_alu_core::opcode::{AluOpcode, OpcodeOffsets};
use rand::rngs::StdRng;
use rand::SeedableRng;

fn offsets() -> OpcodeOffsets {
    OpcodeOffsets::new(0x200, 0x208).expect("the two classes do not overlap")
}

fn plan_expecting(expected: [u8; 4]) -> ExecutionPlan {
    ExecutionPlan {
        opcode: AluOpcode::Add,
        operands: ResolvedOperands { first: [0; 4], second: expected, literal: None },
        staged: StagedInstruction {
            instruction: InstructionRecord::assemble(
                0x200,
                8,
                0,
                SecondOperand::Register { pointer: 4 },
            ),
            writes: vec![
                StoreWrite { address_space: 1, pointer: 0, limbs: [0; 4] },
                StoreWrite { address_space: 1, pointer: 4, limbs: expected },
            ],
        },
        expected,
    }
}

fn draws(immediate_mode: bool) -> OperandDraws {
    OperandDraws {
        first: [0x11, 0x12, 0x13, 0x14],
        immediate_mode,
        immediate: (0xFF_F800, [0x00, 0xF8, 0xFF, 0xFF]),
        second: [0x21, 0x22, 0x23, 0x24],
    }
}

#[test]
fn open_choices_are_taken_from_the_draws() {
    assert_eq!(
        resolve_with_draws(None, None, None, draws(false)),
        ResolvedOperands {
            first: [0x11, 0x12, 0x13, 0x14],
            second: [0x21, 0x22, 0x23, 0x24],
            literal: None,
        }
    );
    assert_eq!(
        resolve_with_draws(None, None, None, draws(true)),
        ResolvedOperands {
            first: [0x11, 0x12, 0x13, 0x14],
            second: [0x00, 0xF8, 0xFF, 0xFF],
            literal: Some(0xFF_F800),
        }
    );
}

#[test]
fn a_given_mode_overrules_the_drawn_one() {
    assert_eq!(
        resolve_with_draws(None, Some(true), None, draws(false)).literal,
        Some(0xFF_F800)
    );
    assert_eq!(resolve_with_draws(None, Some(false), None, draws(true)).literal, None);
    assert_eq!(
        resolve_with_draws(None, Some(false), None, draws(true)).second,
        [0x21, 0x22, 0x23, 0x24]
    );
}

#[test]
fn given_operands_overrule_the_drawn_ones() {
    let b = [1, 2, 3, 4];
    let c = [5, 6, 7, 0x88];
    assert_eq!(
        resolve_with_draws(Some(b), None, Some(c), draws(false)),
        ResolvedOperands { first: b, second: c, literal: None }
    );
    assert_eq!(
        resolve_with_draws(Some(b), None, Some(c), draws(true)),
        ResolvedOperands { first: b, second: c, literal: Some(0x07_0605) }
    );
    assert_eq!(
        resolve_with_draws(Some(b), Some(true), None, draws(false)),
        ResolvedOperands {
            first: b,
            second: [0x00, 0xF8, 0xFF, 0xFF],
            literal: Some(0xFF_F800)
        }
    );
    assert_eq!(
        resolve_with_draws(None, Some(false), Some(c), draws(true)),
        ResolvedOperands { first: [0x11, 0x12, 0x13, 0x14], second: c, literal: None }
    );
}

#[test]
fn the_result_is_read_at_the_destination() {
    let plan = plan_expecting([1, 2, 3, 4]);
    assert_eq!(plan.read_back(), StoreRead { address_space: 1, pointer: 8 });
    let mut rng = StdRng::seed_from_u64(12);
    let plan = set_and_execute(&mut rng, &offsets(), AluOpcode::Or, None, None, None);
    assert_eq!(
        plan.read_back(),
        StoreRead { address_space: 1, pointer: plan.staged.instruction.destination }
    );
}

#[test]
fn register_width_is_that_of_the_instruction_set() {
    assert_eq!(MAX_INS_CAPACITY, 128);
    assert_eq!(
        RV32_REGISTER_NUM_LIMBS,
        openvm_circuit::arch::instructions::riscv::RV32_REGISTER_NUM_LIMBS
    );
}

#[test]
fn given_operands_in_register_mode_are_kept() {
    let mut rng = StdRng::seed_from_u64(1);
    let b = [0x78, 0x56, 0x34, 0x12];
    let c = [0xF0, 0xDE, 0xBC, 0x00];
    let plan = set_and_execute(&mut rng, &offsets(), AluOpcode::Add, Some(b), Some(false), Some(c));
    assert_eq!(plan.opcode, AluOpcode::Add);
    assert_eq!(plan.operands, ResolvedOperands { first: b, second: c, literal: None });
    assert_eq!(plan.expected, [0x68, 0x35, 0xF1, 0x12]);
    let record = plan.staged.instruction;
    assert_eq!(record.opcode, 0x200);
    assert!(record.enabled);
    assert!(!record.second_is_immediate);
    assert_eq!(
        plan.staged.writes,
        vec![
            StoreWrite { address_space: 1, pointer: record.first_operand, limbs: b },
            StoreWrite { address_space: 1, pointer: record.second_operand, limbs: c },
        ]
    );
    assert_ne!(record.first_operand, record.second_operand);
    assert_ne!(record.first_operand, record.destination);
    assert_ne!(record.second_operand, record.destination);
}

#[test]
fn given_operand_in_immediate_mode_gets_its_low_24_bits_as_literal() {
    let mut rng = StdRng::seed_from_u64(2);
    let b = [0x78, 0x56, 0x34, 0x12];
    let c = [0xF0, 0xDE, 0xBC, 0x00];
    let plan = set_and_execute(&mut rng, &offsets(), AluOpcode::Xor, Some(b), Some(true), Some(c));
    assert_eq!(
        plan.operands,
        ResolvedOperands { first: b, second: c, literal: Some(0xBC_DEF0) }
    );
    assert_eq!(plan.expected, run_alu(AluOpcode::Xor, &b, &c));
    let record = plan.staged.instruction;
    assert_eq!(record.opcode, 0x202);
    assert_eq!(
        record.operands(),
        [record.destination, record.first_operand, 0xBC_DEF0, 1, 0]
    );
    assert_eq!(
        plan.staged.writes,
        vec![StoreWrite { address_space: 1, pointer: record.first_operand, limbs: b }]
    );
}

#[test]
fn drawn_immediate_is_a_sign_extended_field() {
    let mut rng = StdRng::seed_from_u64(3);
    for _ in 0..300 {
        let plan = set_and_execute(&mut rng, &offsets(), AluOpcode::And, None, Some(true), None);
        let limbs = plan.operands.second;
        let value = i32::from_le_bytes(limbs);
        assert!((-2048..2048).contains(&value));
        let (literal, packed) = rv32_is_type_immediate(value as u32 & 0xFFF);
        assert_eq!(plan.operands.literal, Some(literal));
        assert_eq!(limbs, packed);
        assert_eq!(
            plan.staged.instruction.second_operand_kind(),
            SecondOperand::Immediate { value: literal }
        );
        assert_eq!(plan.staged.writes.len(), 1);
        assert_eq!(plan.staged.writes[0].limbs, plan.operands.first);
        assert_eq!(plan.expected, run_alu(AluOpcode::And, &plan.operands.first, &limbs));
    }
}

#[test]
fn everything_left_open_still_gives_a_consistent_plan() {
    let mut rng = StdRng::seed_from_u64(4);
    let opcodes = [
        AluOpcode::Add,
        AluOpcode::Sub,
        AluOpcode::Xor,
        AluOpcode::Or,
        AluOpcode::And,
        AluOpcode::Slt,
        AluOpcode::Sltu,
    ];
    let mut immediates = 0;
    let mut registers = 0;
    for round in 0..700 {
        let opcode = opcodes[round % opcodes.len()];
        let plan = set_and_execute(&mut rng, &offsets(), opcode, None, None, None);
        let record = plan.staged.instruction;
        assert_eq!(plan.opcode, opcode);
        assert_eq!(record.opcode, offsets().global_opcode(opcode));
        assert_eq!(
            plan.expected,
            run_alu(opcode, &plan.operands.first, &plan.operands.second)
        );
        assert_eq!(plan.staged.writes[0].pointer, record.first_operand);
        assert_eq!(plan.staged.writes[0].limbs, plan.operands.first);
        assert_ne!(record.first_operand, record.destination);
        match plan.operands.literal {
            Some(literal) => {
                immediates += 1;
                assert!(record.second_is_immediate);
                assert_eq!(record.second_operand, literal);
                assert_eq!(
                    literal,
                    (u32::from_le_bytes(plan.operands.second) & 0xFF_FFFF) as usize
                );
                assert_eq!(plan.staged.writes.len(), 1);
            }
            None => {
                registers += 1;
                assert!(!record.second_is_immediate);
                assert_eq!(plan.staged.writes.len(), 2);
                assert_eq!(plan.staged.writes[1].pointer, record.second_operand);
                assert_eq!(plan.staged.writes[1].limbs, plan.operands.second);
                assert_ne!(record.second_operand, record.first_operand);
                assert_ne!(record.second_operand, record.destination);
            }
        }
    }
    assert!(immediates > 100);
    assert!(registers > 100);
}

#[test]
fn comparison_opcodes_are_numbered_in_their_own_class() {
    let mut rng = StdRng::seed_from_u64(5);
    let plan = set_and_execute(
        &mut rng,
        &offsets(),
        AluOpcode::Sltu,
        Some([1, 0, 0, 0]),
        Some(false),
        Some([2, 0, 0, 0]),
    );
    assert_eq!(plan.staged.instruction.opcode, 0x209);
    assert_eq!(plan.expected, [1, 0, 0, 0]);
}

#[test]
fn resolving_keeps_what_is_given() {
    let mut rng = StdRng::seed_from_u64(6);
    let b = [1, 2, 3, 4];
    let c = [5, 6, 7, 8];
    for _ in 0..50 {
        assert_eq!(
            resolve_operands(&mut rng, Some(b), Some(false), Some(c)),
            ResolvedOperands { first: b, second: c, literal: None }
        );
        assert_eq!(
            resolve_operands(&mut rng, Some(b), Some(true), Some(c)),
            ResolvedOperands { first: b, second: c, literal: Some(0x07_0605) }
        );
        let open_mode = resolve_operands(&mut rng, Some(b), None, Some(c));
        assert_eq!(open_mode.first, b);
        assert_eq!(open_mode.second, c);
        assert!(open_mode.literal.is_none() || open_mode.literal == Some(0x07_0605));
        let open_first = resolve_operands(&mut rng, None, Some(false), Some(c));
        assert_eq!(open_first.second, c);
        assert_eq!(open_first.literal, None);
    }
}

#[test]
fn resolving_draws_what_is_left_open() {
    let mut rng = StdRng::seed_from_u64(8);
    let mut firsts: Vec<[u8; 4]> = Vec::new();
    let mut seconds: Vec<[u8; 4]> = Vec::new();
    for _ in 0..64 {
        let resolved = resolve_operands(&mut rng, None, Some(false), None);
        assert_eq!(resolved.literal, None);
        if !firsts.contains(&resolved.first) {
            firsts.push(resolved.first);
        }
        if !seconds.contains(&resolved.second) {
            seconds.push(resolved.second);
        }
    }
    assert!(firsts.len() > 32);
    assert!(seconds.len() > 32);
}

#[test]
fn planning_depends_only_on_the_seed() {
    let mut first = StdRng::seed_from_u64(9);
    let mut second = StdRng::seed_from_u64(9);
    for _ in 0..50 {
        assert_eq!(
            set_and_execute(&mut first, &offsets(), AluOpcode::Sub, None, None, None),
            set_and_execute(&mut second, &offsets(), AluOpcode::Sub, None, None, None)
        );
    }
}

#[test]
fn read_back_that_matches_is_accepted() {
    let plan = plan_expecting([0x68, 0x35, 0xF1, 0x12]);
    assert_eq!(plan.check_read_back(&[0x68, 0x35, 0xF1, 0x12]), Ok(()));
}

#[test]
fn read_back_that_differs_is_refused_at_the_first_limb() {
    let plan = plan_expecting([0x68, 0x35, 0xF1, 0x12]);
    assert_eq!(
        plan.check_read_back(&[0x68, 0x35, 0xF2, 0x12]),
        Err(ExecutionError::ResultMismatch { limb: 2, expected: 0xF1, found: 0xF2 })
    );
    assert_eq!(
        plan.check_read_back(&[0x69, 0x35, 0xF2, 0x13]),
        Err(ExecutionError::ResultMismatch { limb: 0, expected: 0x68, found: 0x69 })
    );
    assert_eq!(
        plan.check_read_back(&[0x68, 0x35, 0xF1, 0x112]),
        Err(ExecutionError::ResultMismatch { limb: 3, expected: 0x12, found: 0x112 })
    );
}

#[test]
fn a_plan_accepts_its_own_expected_result() {
    let mut rng = StdRng::seed_from_u64(10);
    for _ in 0..100 {
        let plan = set_and_execute(&mut rng, &offsets(), AluOpcode::Add, None, None, None);
        let read_back = plan.expected.map(u32::from);
        assert_eq!(plan.check_read_back(&read_back), Ok(()));
        let mut wrong = read_back;
        wrong[1] ^= 1;
        assert_eq!(
            plan.check_read_back(&wrong),
            Err(ExecutionError::ResultMismatch {
                limb: 1,
                expected: plan.expected[1],
                found: wrong[1]
            })
        );
    }
}

#[test]
fn steps_are_writes_then_the_instruction_then_the_read() {
    let plan = plan_expecting([9, 8, 7, 6]);
    assert_eq!(
        plan.steps(),
        vec![
            PipelineStep::Write(StoreWrite { address_space: 1, pointer: 0, limbs: [0; 4] }),
            PipelineStep::Write(StoreWrite { address_space: 1, pointer: 4, limbs: [9, 8, 7, 6] }),
            PipelineStep::Execute(plan.staged.instruction),
            PipelineStep::Read(StoreRead { address_space: 1, pointer: 8 }),
        ]
    );
    let mut rng = StdRng::seed_from_u64(13);
    let immediate = set_and_execute(
        &mut rng,
        &offsets(),
        AluOpcode::Add,
        Some([1, 0, 0, 0]),
        Some(true),
        Some([2, 0, 0, 0]),
    );
    let record = immediate.staged.instruction;
    assert_eq!(
        immediate.steps(),
        vec![
            PipelineStep::Write(StoreWrite {
                address_space: 1,
                pointer: record.first_operand,
                limbs: [1, 0, 0, 0]
            }),
            PipelineStep::Execute(record),
            PipelineStep::Read(StoreRead { address_space: 1, pointer: record.destination }),
        ]
    );
}

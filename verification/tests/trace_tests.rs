use base_alu_core::trace::{
    build_execution_record, bytes_contain, find_core_segment, BaseAluCoreColumns,
    CircuitLayout, ExecutionRecord, TraceError, TraceRow, TraceSegment, BASE_ALU_CORE_WIDTH,
    CORE_SEGMENT_TAG,
};
use openvm_rv32im_circuit::BaseAluCoreCols;
use std::borrow::Borrow;

const ALU_NAME: &str = "VmAirWrapper<Rv32BaseAluAdapterAir, BaseAluCoreAir<4, 8>>";

fn segment(name: &str, width: usize, values: Vec<u32>) -> TraceSegment {
    TraceSegment { name: name.to_string(), width, values }
}

fn layout(adapter_width: usize) -> CircuitLayout {
    CircuitLayout {
        width: adapter_width + BASE_ALU_CORE_WIDTH,
        adapter_width,
        core_width: BASE_ALU_CORE_WIDTH,
    }
}

fn counting(cells: usize) -> Vec<u32> {
    (0..cells as u32).map(|cell| 100 + cell).collect()
}

#[test]
fn core_width_is_that_of_the_circuit() {
    assert_eq!(BASE_ALU_CORE_WIDTH, BaseAluCoreCols::<u8, 4, 8>::width());
    assert_eq!(CORE_SEGMENT_TAG, "BaseAluCore");
}

#[test]
fn one_row_is_split_and_decoded() {
    let segments = vec![
        segment("ExecutionDummyAir", 3, vec![1, 2, 3]),
        segment(ALU_NAME, 20, counting(20)),
        segment("ProgramDummyAir", 2, vec![]),
    ];
    let record = build_execution_record(&segments, &layout(3), 1);
    assert_eq!(
        record,
        Ok(ExecutionRecord {
            rows: vec![TraceRow {
                adapter: vec![100, 101, 102],
                core: BaseAluCoreColumns {
                    a: [103, 104, 105, 106],
                    b: [107, 108, 109, 110],
                    c: [111, 112, 113, 114],
                    opcode_add_flag: 115,
                    opcode_sub_flag: 116,
                    opcode_xor_flag: 117,
                    opcode_or_flag: 118,
                    opcode_and_flag: 119,
                },
            }],
        })
    );
}

#[test]
fn columns_are_laid_out_as_in_the_circuit() {
    let cells = counting(BASE_ALU_CORE_WIDTH);
    let theirs: &BaseAluCoreCols<u32, 4, 8> = cells.as_slice().borrow();
    let segments = vec![segment(ALU_NAME, BASE_ALU_CORE_WIDTH, cells.clone())];
    let record = build_execution_record(&segments, &layout(0), 1).expect("the trace is sound");
    let ours = record.rows[0].core;
    assert_eq!(record.rows[0].adapter, Vec::<u32>::new());
    assert_eq!(ours.a, theirs.a);
    assert_eq!(ours.b, theirs.b);
    assert_eq!(ours.c, theirs.c);
    assert_eq!(ours.opcode_add_flag, theirs.opcode_add_flag);
    assert_eq!(ours.opcode_sub_flag, theirs.opcode_sub_flag);
    assert_eq!(ours.opcode_xor_flag, theirs.opcode_xor_flag);
    assert_eq!(ours.opcode_or_flag, theirs.opcode_or_flag);
    assert_eq!(ours.opcode_and_flag, theirs.opcode_and_flag);
}

#[test]
fn several_rows_come_out_in_order() {
    let width = 2 + BASE_ALU_CORE_WIDTH;
    let segments = vec![segment(ALU_NAME, width, counting(3 * width))];
    let record = build_execution_record(&segments, &layout(2), 3).expect("the trace is sound");
    assert_eq!(record.rows.len(), 3);
    for (i, row) in record.rows.iter().enumerate() {
        let start = 100 + (i * width) as u32;
        assert_eq!(row.adapter, vec![start, start + 1]);
        assert_eq!(row.core.a, [start + 2, start + 3, start + 4, start + 5]);
        assert_eq!(row.core.opcode_and_flag, start + 18);
        assert_eq!(row.adapter.len() + BASE_ALU_CORE_WIDTH, width);
    }
}

#[test]
fn a_width_that_drifted_is_refused() {
    let segments = vec![segment(ALU_NAME, 21, counting(21))];
    assert_eq!(
        build_execution_record(&segments, &layout(3), 1),
        Err(TraceError::WidthMismatch { declared: 20, found: 21 })
    );
    let segments = vec![segment(ALU_NAME, 19, counting(19))];
    assert_eq!(
        build_execution_record(&segments, &layout(3), 1),
        Err(TraceError::WidthMismatch { declared: 20, found: 19 })
    );
}

#[test]
fn declared_widths_that_do_not_add_up_are_refused() {
    let segments = vec![segment(ALU_NAME, 20, counting(20))];
    let short = CircuitLayout { width: 20, adapter_width: 2, core_width: 17 };
    assert_eq!(
        build_execution_record(&segments, &short, 1),
        Err(TraceError::LayoutMismatch { width: 20, adapter_width: 2, core_width: 17 })
    );
    let long = CircuitLayout { width: 20, adapter_width: 4, core_width: 17 };
    assert_eq!(
        build_execution_record(&segments, &long, 1),
        Err(TraceError::LayoutMismatch { width: 20, adapter_width: 4, core_width: 17 })
    );
    let overflowing = CircuitLayout { width: 20, adapter_width: usize::MAX, core_width: 21 };
    assert_eq!(
        build_execution_record(&segments, &overflowing, 1),
        Err(TraceError::LayoutMismatch {
            width: 20,
            adapter_width: usize::MAX,
            core_width: 21
        })
    );
}

#[test]
fn a_row_count_other_than_the_executed_count_is_refused() {
    let two_rows = vec![segment(ALU_NAME, 20, counting(40))];
    assert_eq!(
        build_execution_record(&two_rows, &layout(3), 1),
        Err(TraceError::HeightMismatch { executed: 1, found: 2 })
    );
    let no_rows = vec![segment(ALU_NAME, 20, vec![])];
    assert_eq!(
        build_execution_record(&no_rows, &layout(3), 1),
        Err(TraceError::HeightMismatch { executed: 1, found: 0 })
    );
    assert_eq!(
        build_execution_record(&no_rows, &layout(3), 0),
        Ok(ExecutionRecord { rows: vec![] })
    );
}

#[test]
fn a_missing_segment_is_refused() {
    let segments = vec![
        segment("ExecutionDummyAir", 20, counting(20)),
        segment("BaseAluCor", 20, counting(20)),
        segment("basealucore", 20, counting(20)),
    ];
    assert_eq!(
        build_execution_record(&segments, &layout(3), 1),
        Err(TraceError::SegmentMissing)
    );
    assert_eq!(
        build_execution_record(&vec![], &layout(3), 1),
        Err(TraceError::SegmentMissing)
    );
}

#[test]
fn cells_that_do_not_fill_a_row_are_refused() {
    let segments = vec![segment(ALU_NAME, 20, counting(30))];
    assert_eq!(
        build_execution_record(&segments, &layout(3), 1),
        Err(TraceError::PartialRow { width: 20, cells: 30 })
    );
}

#[test]
fn a_declared_core_width_of_another_circuit_is_refused() {
    let segments = vec![segment(ALU_NAME, 20, counting(20))];
    assert_eq!(
        build_execution_record(
            &segments,
            &CircuitLayout { width: 20, adapter_width: 4, core_width: 16 },
            1
        ),
        Err(TraceError::CoreWidthMismatch { declared: 16 })
    );
    let empty = vec![segment(ALU_NAME, 0, vec![])];
    let nothing = CircuitLayout { width: 0, adapter_width: 0, core_width: 0 };
    assert_eq!(
        build_execution_record(&empty, &nothing, 0),
        Err(TraceError::CoreWidthMismatch { declared: 0 })
    );
    let cells_without_columns = vec![segment(ALU_NAME, 0, vec![1])];
    assert_eq!(
        build_execution_record(&cells_without_columns, &nothing, 0),
        Err(TraceError::PartialRow { width: 0, cells: 1 })
    );
    assert_eq!(
        build_execution_record(&empty, &nothing, 1),
        Err(TraceError::HeightMismatch { executed: 1, found: 0 })
    );
}

#[test]
fn faults_are_reported_in_a_fixed_order() {
    let wrong_everywhere = CircuitLayout { width: 21, adapter_width: 1, core_width: 16 };
    let segments = vec![segment(ALU_NAME, 20, counting(30))];
    assert_eq!(
        build_execution_record(&segments, &wrong_everywhere, 3),
        Err(TraceError::WidthMismatch { declared: 21, found: 20 })
    );
    let right_width = CircuitLayout { width: 20, adapter_width: 1, core_width: 16 };
    assert_eq!(
        build_execution_record(&segments, &right_width, 3),
        Err(TraceError::PartialRow { width: 20, cells: 30 })
    );
    let whole = vec![segment(ALU_NAME, 20, counting(40))];
    assert_eq!(
        build_execution_record(&whole, &right_width, 3),
        Err(TraceError::HeightMismatch { executed: 3, found: 2 })
    );
    assert_eq!(
        build_execution_record(&whole, &right_width, 2),
        Err(TraceError::LayoutMismatch { width: 20, adapter_width: 1, core_width: 16 })
    );
    let adds_up = CircuitLayout { width: 20, adapter_width: 4, core_width: 16 };
    assert_eq!(
        build_execution_record(&whole, &adds_up, 2),
        Err(TraceError::CoreWidthMismatch { declared: 16 })
    );
}

#[test]
fn the_first_segment_that_carries_the_tag_is_taken() {
    let segments = vec![
        segment("VariableRange", 1, vec![0]),
        segment("first BaseAluCore", 20, counting(20)),
        segment("second BaseAluCore", 21, counting(21)),
    ];
    assert_eq!(find_core_segment(&segments), Some(1));
    assert!(build_execution_record(&segments, &layout(3), 1).is_ok());
    assert_eq!(
        build_execution_record(&segments, &layout(4), 1),
        Err(TraceError::WidthMismatch { declared: 21, found: 20 })
    );
    assert_eq!(find_core_segment(&vec![segment("VariableRange", 1, vec![0])]), None);
    assert_eq!(find_core_segment(&vec![]), None);
}

#[test]
fn byte_search_finds_a_run_anywhere() {
    assert!(bytes_contain(b"BaseAluCore", b"BaseAluCore"));
    assert!(bytes_contain(b"xxBaseAluCore", b"BaseAluCore"));
    assert!(bytes_contain(b"BaseAluCorexx", b"BaseAluCore"));
    assert!(bytes_contain(b"BaseBaseAluCore", b"BaseAluCore"));
    assert!(bytes_contain(b"abc", b""));
    assert!(bytes_contain(b"", b""));
    assert!(bytes_contain(b"aab", b"ab"));
    assert!(!bytes_contain(b"", b"a"));
    assert!(!bytes_contain(b"BaseAluCor", b"BaseAluCore"));
    assert!(!bytes_contain(b"BaseAlu Core", b"BaseAluCore"));
    assert!(!bytes_contain(b"abab", b"aba b"));
    assert!(!bytes_contain(b"ab", b"ba"));
}

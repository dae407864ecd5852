//! Extracting and validating the ALU's segment of a proving-context trace.
//!
//! After a batch of executions the proving pipeline holds one trace matrix per
//! circuit component.  `build_execution_record` finds the one that belongs to the
//! ALU core, checks its shape against the circuit's declared column layout and
//! against the number of instructions executed, and splits every row into the
//! adapter's columns and the core's named columns.

use vstd::prelude::*;
use vstd::utf8::encode_utf8;

verus! {

/// Number of columns of the ALU core: three operand groups and five opcode flags.
pub const BASE_ALU_CORE_WIDTH: usize = 17;

/// The text by which the ALU core's segment is recognised in a component's name.
pub const CORE_SEGMENT_TAG: &'static str = "BaseAluCore";

/// The trace matrix of one circuit component, as plain values: the component's
/// name, the number of columns, and the cells row by row.
#[derive(Debug, PartialEq, Eq)]
pub struct TraceSegment {
    /// The component's name.
    pub name: String,
    /// Number of columns.
    pub width: usize,
    /// The cells in row-major order, each a field element in canonical form.
    pub values: Vec<u32>,
}

impl TraceSegment {
    /// The name as bytes.
    pub open spec fn name_bytes(&self) -> Seq<u8> {
        encode_utf8(self.name@)
    }

    /// Whether the cells fill a whole number of rows.
    pub open spec fn whole_rows(&self) -> bool {
        if self.width == 0 {
            self.values@.len() == 0
        } else {
            self.values@.len() % (self.width as nat) == 0
        }
    }

    /// Number of rows.
    pub open spec fn height(&self) -> int {
        if self.width == 0 {
            0
        } else {
            self.values@.len() as int / self.width as int
        }
    }

    /// The cells of row `i`.
    pub open spec fn row(&self, i: int) -> Seq<u32> {
        self.values@.subrange(i * self.width, i * self.width + self.width)
    }

    /// Whether this is the ALU core's segment: its name contains the tag.
    pub open spec fn is_core(&self) -> bool {
        contains_bytes(self.name_bytes(), encode_utf8(CORE_SEGMENT_TAG@))
    }
}

/// The column layout that the circuit declares: the width of the whole row, and
/// the widths of its two parts.  The adapter's columns come first, the core's
/// columns follow.
#[derive(Clone, Copy, Debug, PartialEq, Eq, Structural)]
pub struct CircuitLayout {
    /// Number of columns of the whole row.
    pub width: usize,
    /// Number of columns of the adapter.
    pub adapter_width: usize,
    /// Number of columns of the core.
    pub core_width: usize,
}

impl CircuitLayout {
    /// The two parts make up the whole row.
    pub open spec fn adds_up(&self) -> bool {
        self.width == self.adapter_width + self.core_width
    }
}

/// The columns of the ALU core in one row: the result `a`, the operands `b` and
/// `c`, and one flag per opcode.
#[derive(Clone, Copy, Debug, PartialEq, Eq)]
pub struct BaseAluCoreColumns {
    pub a: [u32; 4],
    pub b: [u32; 4],
    pub c: [u32; 4],
    pub opcode_add_flag: u32,
    pub opcode_sub_flag: u32,
    pub opcode_xor_flag: u32,
    pub opcode_or_flag: u32,
    pub opcode_and_flag: u32,
}

impl BaseAluCoreColumns {
    /// The columns in their order in the row.
    pub open spec fn flat(&self) -> Seq<u32> {
        self.a@ + self.b@ + self.c@ + seq![
            self.opcode_add_flag,
            self.opcode_sub_flag,
            self.opcode_xor_flag,
            self.opcode_or_flag,
            self.opcode_and_flag,
        ]
    }
}

/// One row of the ALU's segment, split at the adapter's width.
#[derive(Debug, PartialEq, Eq)]
pub struct TraceRow {
    /// The adapter's columns.
    pub adapter: Vec<u32>,
    /// The core's columns.
    pub core: BaseAluCoreColumns,
}

impl TraceRow {
    /// The row as it stands in the trace.
    pub open spec fn flat(&self) -> Seq<u32> {
        self.adapter@ + self.core.flat()
    }
}

/// The rows of the ALU's segment, one per executed instruction.
#[derive(Debug, PartialEq, Eq)]
pub struct ExecutionRecord {
    pub rows: Vec<TraceRow>,
}

impl ExecutionRecord {
    /// Whether the record is the segment, row for row, split as `layout` says.
    pub open spec fn holds(&self, segment: TraceSegment, layout: CircuitLayout) -> bool {
        &&& self.rows@.len() == segment.height()
        &&& forall|i: int|
            0 <= i < self.rows@.len() ==> {
                &&& (#[trigger] self.rows@[i]).adapter@.len() == layout.adapter_width
                &&& self.rows@[i].core.flat().len() == layout.core_width
                &&& self.rows@[i].flat() == segment.row(i)
            }
    }
}

/// Why a trace is refused.
#[derive(Clone, Copy, Debug, PartialEq, Eq, Structural)]
pub enum TraceError {
    /// No component's name contains the tag of the ALU core.
    SegmentMissing,
    /// The segment's width is not the declared width of the row.
    WidthMismatch { declared: usize, found: usize },
    /// The segment's cells do not fill a whole number of rows.
    PartialRow { width: usize, cells: usize },
    /// The segment does not have one row per executed instruction.
    HeightMismatch { executed: usize, found: usize },
    /// The declared widths of adapter and core do not add up to the declared width
    /// of the row.
    LayoutMismatch { width: usize, adapter_width: usize, core_width: usize },
    /// The declared core width is not the number of columns of the ALU core.
    CoreWidthMismatch { declared: usize },
}

/// Whether `needle` occurs in `haystack` as a contiguous run.
pub open spec fn contains_bytes(haystack: Seq<u8>, needle: Seq<u8>) -> bool {
    exists|start: int| occurs_at(haystack, needle, start)
}

/// Whether `needle` occurs in `haystack` at `start`.
pub open spec fn occurs_at(haystack: Seq<u8>, needle: Seq<u8>, start: int) -> bool {
    0 <= start && start + needle.len() <= haystack.len() && haystack.subrange(
        start,
        start + needle.len(),
    ) == needle
}

/// The index of the first segment that is the ALU core's, if there is one.
pub open spec fn core_segment_index(segments: Seq<TraceSegment>) -> Option<int> {
    if exists|k: int| 0 <= k < segments.len() && (#[trigger] segments[k]).is_core() {
        Some(first_core_segment(segments))
    } else {
        None
    }
}

/// The least index of a segment that is the ALU core's.
pub open spec fn first_core_segment(segments: Seq<TraceSegment>) -> int {
    choose|k: int|
        0 <= k < segments.len() && (#[trigger] segments[k]).is_core() && forall|j: int|
            0 <= j < k ==> !(#[trigger] segments[j]).is_core()
}

/// The reason for which `segment` is refused, if it is.  The checks are made in
/// this order: the segment's width, whole rows, the number of rows, then the
/// declared layout itself.
pub open spec fn segment_fault(
    segment: TraceSegment,
    layout: CircuitLayout,
    executed: usize,
) -> Option<TraceError> {
    if segment.width != layout.width {
        Some(TraceError::WidthMismatch { declared: layout.width, found: segment.width })
    } else if !segment.whole_rows() {
        Some(TraceError::PartialRow { width: segment.width, cells: segment.values@.len() as usize })
    } else if segment.height() != executed {
        Some(TraceError::HeightMismatch { executed, found: segment.height() as usize })
    } else if !layout.adds_up() {
        Some(
            TraceError::LayoutMismatch {
                width: layout.width,
                adapter_width: layout.adapter_width,
                core_width: layout.core_width,
            },
        )
    } else if layout.core_width != BASE_ALU_CORE_WIDTH {
        Some(TraceError::CoreWidthMismatch { declared: layout.core_width })
    } else {
        None
    }
}

/// Whether `needle` occurs in `haystack` at `start`.
fn matches_at(haystack: &[u8], needle: &[u8], start: usize) -> (found: bool)
    requires
        start + needle.len() <= haystack.len(),
    ensures
        found == occurs_at(haystack@, needle@, start as int),
{
    let mut k: usize = 0;
    while k < needle.len()
        invariant
            k <= needle.len(),
            start + needle.len() <= haystack.len(),
            forall|j: int| 0 <= j < k ==> haystack@[start + j] == needle@[j],
        decreases needle@.len() - k,
    {
        if haystack[start + k] != needle[k] {
            return false;
        }
        k += 1;
    }
    assert(haystack@.subrange(start as int, start + needle@.len()) =~= needle@);
    true
}

/// Whether `needle` occurs in `haystack` as a contiguous run.
pub fn bytes_contain(haystack: &[u8], needle: &[u8]) -> (found: bool)
    ensures
        found == contains_bytes(haystack@, needle@),
{
    if needle.len() > haystack.len() {
        return false;
    }
    let last: usize = haystack.len() - needle.len();
    let mut start: usize = 0;
    loop
        invariant
            last == haystack@.len() - needle@.len(),
            start <= last,
            forall|s: int| 0 <= s < start ==> !occurs_at(haystack@, needle@, s),
        decreases last - start,
    {
        if matches_at(haystack, needle, start) {
            return true;
        }
        if start == last {
            return false;
        }
        start += 1;
    }
}

/// Finds the first segment whose name contains the tag of the ALU core.
pub fn find_core_segment(segments: &Vec<TraceSegment>) -> (found: Option<usize>)
    ensures
        match found {
            Some(k) => core_segment_index(segments@) == Some(k as int),
            None => core_segment_index(segments@) is None,
        },
        found matches Some(k) ==> k < segments@.len() && segments@[k as int].is_core()
            && forall|j: int| 0 <= j < k ==> !(#[trigger] segments@[j]).is_core(),
{
    let mut k: usize = 0;
    while k < segments.len()
        invariant
            k <= segments@.len(),
            forall|j: int| 0 <= j < k ==> !(#[trigger] segments@[j]).is_core(),
        decreases segments@.len() - k,
    {
        if bytes_contain(segments[k].name.as_str().as_bytes(), CORE_SEGMENT_TAG.as_bytes()) {
            proof {
                let first = first_core_segment(segments@);
                assert(first == k) by {
                    if first < k {
                        assert(!segments@[first].is_core());
                    } else if first > k {
                        assert(!segments@[k as int].is_core());
                    }
                }
            }
            return Some(k);
        }
        k += 1;
    }
    None
}

/// Reads the core's named columns from the 17 cells that start at `start`.
fn decode_core(values: &Vec<u32>, start: usize) -> (core: BaseAluCoreColumns)
    requires
        start + BASE_ALU_CORE_WIDTH <= values.len(),
    ensures
        core.flat() == values@.subrange(start as int, start + BASE_ALU_CORE_WIDTH),
{
    let core = BaseAluCoreColumns {
        a: [values[start], values[start + 1], values[start + 2], values[start + 3]],
        b: [values[start + 4], values[start + 5], values[start + 6], values[start + 7]],
        c: [values[start + 8], values[start + 9], values[start + 10], values[start + 11]],
        opcode_add_flag: values[start + 12],
        opcode_sub_flag: values[start + 13],
        opcode_xor_flag: values[start + 14],
        opcode_or_flag: values[start + 15],
        opcode_and_flag: values[start + 16],
    };
    assert(core.flat() =~= values@.subrange(start as int, start + BASE_ALU_CORE_WIDTH));
    core
}

/// Splits the row that starts at `start` into the adapter's cells and the core's
/// columns.
fn split_row(values: &Vec<u32>, start: usize, adapter_width: usize) -> (row: TraceRow)
    requires
        start + adapter_width + BASE_ALU_CORE_WIDTH <= values.len(),
    ensures
        row.adapter@.len() == adapter_width,
        row.core.flat().len() == BASE_ALU_CORE_WIDTH,
        row.flat() == values@.subrange(
            start as int,
            start + adapter_width + BASE_ALU_CORE_WIDTH,
        ),
{
    let mut adapter: Vec<u32> = Vec::new();
    let mut k: usize = 0;
    while k < adapter_width
        invariant
            k <= adapter_width,
            start + adapter_width + BASE_ALU_CORE_WIDTH <= values.len(),
            adapter@ == values@.subrange(start as int, start + k),
        decreases adapter_width - k,
    {
        adapter.push(values[start + k]);
        k += 1;
    }
    let core = decode_core(values, start + adapter_width);
    let row = TraceRow { adapter, core };
    assert(row.flat() =~= values@.subrange(
        start as int,
        start + adapter_width + BASE_ALU_CORE_WIDTH,
    ));
    row
}

/// Extracts the ALU's rows from the traces of a proving context.
///
/// `segments` are the traces of all components, `layout` is the column layout the
/// circuit declares, and `executed` is the number of instructions that were run.
/// The ALU's segment is the first whose name contains `CORE_SEGMENT_TAG`.  It is
/// refused unless its width is the declared width, its cells make exactly
/// `executed` rows, the declared widths of adapter and core add up to the declared
/// width, and the declared core width is that of the ALU core.
pub fn build_execution_record(
    segments: &Vec<TraceSegment>,
    layout: &CircuitLayout,
    executed: usize,
) -> (outcome: Result<ExecutionRecord, TraceError>)
    ensures
        match core_segment_index(segments@) {
            None => outcome == Err::<ExecutionRecord, TraceError>(TraceError::SegmentMissing),
            Some(k) => match segment_fault(segments@[k], *layout, executed) {
                Some(fault) => outcome == Err::<ExecutionRecord, TraceError>(fault),
                None => outcome is Ok && outcome->Ok_0.holds(segments@[k], *layout),
            },
        },
{
    let index: usize = match find_core_segment(segments) {
        Some(k) => k,
        None => {
            return Err(TraceError::SegmentMissing);
        },
    };
    let segment: &TraceSegment = &segments[index];
    let width: usize = segment.width;
    let cells: usize = segment.values.len();
    if width != layout.width {
        return Err(TraceError::WidthMismatch { declared: layout.width, found: width });
    }
    let height: usize = if width == 0 {
        0
    } else {
        cells / width
    };
    let whole: bool = if width == 0 {
        cells == 0
    } else {
        cells % width == 0
    };
    if !whole {
        return Err(TraceError::PartialRow { width, cells });
    }
    if height != executed {
        return Err(TraceError::HeightMismatch { executed, found: height });
    }
    if layout.adapter_width.checked_add(layout.core_width) != Some(width) {
        return Err(
            TraceError::LayoutMismatch {
                width,
                adapter_width: layout.adapter_width,
                core_width: layout.core_width,
            },
        );
    }
    if layout.core_width != BASE_ALU_CORE_WIDTH {
        return Err(TraceError::CoreWidthMismatch { declared: layout.core_width });
    }
    proof {
        vstd::arithmetic::div_mod::lemma_fundamental_div_mod(cells as int, width as int);
    }
    let mut rows: Vec<TraceRow> = Vec::new();
    let mut i: usize = 0;
    while i < height
        invariant
            i <= height,
            width > 0,
            width == layout.adapter_width + BASE_ALU_CORE_WIDTH,
            layout.core_width == BASE_ALU_CORE_WIDTH,
            cells == segment.values@.len(),
            cells == width * height,
            segment.width == width,
            rows@.len() == i,
            forall|j: int|
                0 <= j < i ==> {
                    &&& (#[trigger] rows@[j]).adapter@.len() == layout.adapter_width
                    &&& rows@[j].core.flat().len() == layout.core_width
                    &&& rows@[j].flat() == segment.row(j)
                },
        decreases height - i,
    {
        proof {
            assert(i * width + width <= width * height) by (nonlinear_arith)
                requires
                    i < height,
                    width > 0,
            ;
        }
        let row = split_row(&segment.values, i * width, layout.adapter_width);
        rows.push(row);
        i += 1;
    }
    Ok(ExecutionRecord { rows })
}

/// The layout is stable: whenever a trace is accepted, the ALU's segment has the
/// declared width, which is the adapter's and the core's declared widths together,
/// and so has every row of the record, which splits at the adapter's width into
/// the adapter's cells and the core's columns.
pub proof fn lemma_layout_stability(
    segments: Seq<TraceSegment>,
    layout: CircuitLayout,
    executed: usize,
    record: ExecutionRecord,
)
    requires
        core_segment_index(segments) is Some,
        segment_fault(segments[core_segment_index(segments)->Some_0], layout, executed) is None,
        record.holds(segments[core_segment_index(segments)->Some_0], layout),
    ensures
        segments[core_segment_index(segments)->Some_0].width == layout.width,
        layout.width == layout.adapter_width + layout.core_width,
        forall|i: int|
            0 <= i < record.rows@.len() ==> {
                &&& (#[trigger] record.rows@[i]).flat().len() == layout.adapter_width
                    + layout.core_width
                &&& record.rows@[i].adapter@ == record.rows@[i].flat().subrange(
                    0,
                    layout.adapter_width as int,
                )
                &&& record.rows@[i].core.flat() == record.rows@[i].flat().subrange(
                    layout.adapter_width as int,
                    layout.adapter_width + layout.core_width,
                )
            },
{
    assert forall|i: int| 0 <= i < record.rows@.len() implies {
        &&& (#[trigger] record.rows@[i]).flat().len() == layout.adapter_width + layout.core_width
        &&& record.rows@[i].adapter@ == record.rows@[i].flat().subrange(
            0,
            layout.adapter_width as int,
        )
        &&& record.rows@[i].core.flat() == record.rows@[i].flat().subrange(
            layout.adapter_width as int,
            layout.adapter_width + layout.core_width,
        )
    } by {
        let row = record.rows@[i];
        assert(row.adapter@ =~= row.flat().subrange(0, layout.adapter_width as int));
        assert(row.core.flat() =~= row.flat().subrange(
            layout.adapter_width as int,
            layout.adapter_width + layout.core_width,
        ));
    }
}

/// One row per instruction: whenever a trace is accepted, the record has exactly
/// as many rows as instructions were executed.  After a single instruction it has
/// exactly one.
pub proof fn lemma_one_row_per_instruction(
    segments: Seq<TraceSegment>,
    layout: CircuitLayout,
    executed: usize,
    record: ExecutionRecord,
)
    requires
        core_segment_index(segments) is Some,
        segment_fault(segments[core_segment_index(segments)->Some_0], layout, executed) is None,
        record.holds(segments[core_segment_index(segments)->Some_0], layout),
    ensures
        record.rows@.len() == executed,
        executed == 1 ==> record.rows@.len() == 1,
{
}

} // verus!

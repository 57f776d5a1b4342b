//! Plain data of the diagnostics panel: positions, severities, entries.
use vstd::prelude::*;

verus! {

/// A position in a buffer: zero-based row and column.
#[derive(Clone, Copy, Debug, PartialEq, Eq, Structural)]
pub struct Point {
    pub row: u32,
    pub column: u32,
}

/// A range of positions, resolved against the current buffer contents.
#[derive(Clone, Copy, Debug, PartialEq, Eq, Structural)]
pub struct PointRange {
    pub start: Point,
    pub end: Point,
}

/// The severity of a diagnostic, from the most to the least severe.
#[derive(Clone, Copy, Debug, PartialEq, Eq, Structural)]
pub enum Severity {
    Error,
    Warning,
    Information,
    Hint,
}

impl Severity {
    /// The language-server rank of a severity: a lower rank is more severe.
    pub open spec fn spec_rank(self) -> int {
        match self {
            Severity::Error => 1,
            Severity::Warning => 2,
            Severity::Information => 3,
            Severity::Hint => 4,
        }
    }

    pub fn rank(&self) -> (r: u8)
        ensures
            r as int == self.spec_rank(),
    {
        match self {
            Severity::Error => 1,
            Severity::Warning => 2,
            Severity::Information => 3,
            Severity::Hint => 4,
        }
    }
}

/// One diagnostic reported for a buffer.
#[derive(Clone, Debug)]
pub struct DiagnosticEntry {
    pub range: PointRange,
    pub message: String,
    pub severity: Severity,
    pub is_primary: bool,
    pub group_id: usize,
}

/// What identifies a diagnostic when deciding whether the displayed list is
/// out of date: everything but the group it belongs to.
pub struct EntryKey {
    pub message: Seq<char>,
    pub severity: Severity,
    pub is_primary: bool,
    pub range: PointRange,
}

impl DiagnosticEntry {
    pub open spec fn key(self) -> EntryKey {
        EntryKey {
            message: self.message@,
            severity: self.severity,
            is_primary: self.is_primary,
            range: self.range,
        }
    }

    /// A copy of the entry, field for field.
    pub fn duplicate(&self) -> (r: DiagnosticEntry)
        ensures
            r == *self,
    {
        DiagnosticEntry {
            range: self.range,
            message: self.message.clone(),
            severity: self.severity,
            is_primary: self.is_primary,
            group_id: self.group_id,
        }
    }
}

/// A copy of a list of entries, element for element.
pub fn duplicate_entries(v: &Vec<DiagnosticEntry>) -> (r: Vec<DiagnosticEntry>)
    ensures
        r@ == v@,
{
    let mut r: Vec<DiagnosticEntry> = Vec::new();
    let mut i: usize = 0;
    while i < v.len()
        invariant
            i <= v@.len(),
            r@ == v@.subrange(0, i as int),
        decreases v@.len() - i,
    {
        r.push(v[i].duplicate());
        i = i + 1;
    }
    assert(r@ =~= v@);
    r
}

/// The order of a position: by row, then by column.
pub open spec fn point_ord(p: Point) -> int {
    p.row * 0x1_0000_0000 + p.column
}

/// The order of a range: by start, then by end.
pub open spec fn range_ord(r: PointRange) -> int {
    point_ord(r.start) * 0x1_0000_0000_0000_0000 + point_ord(r.end)
}

/// Compares two positions: -1, 0 or 1 as `a` comes before, at or after `b`.
pub fn compare_points(a: Point, b: Point) -> (r: i8)
    ensures
        r == -1 <==> point_ord(a) < point_ord(b),
        r == 0 <==> point_ord(a) == point_ord(b),
        r == 1 <==> point_ord(a) > point_ord(b),
{
    if a.row < b.row {
        -1
    } else if a.row > b.row {
        1
    } else if a.column < b.column {
        -1
    } else if a.column > b.column {
        1
    } else {
        0
    }
}

/// Compares two ranges: by start, then by end.
pub fn compare_ranges(a: PointRange, b: PointRange) -> (r: i8)
    ensures
        r == -1 <==> range_ord(a) < range_ord(b),
        r == 0 <==> range_ord(a) == range_ord(b),
        r == 1 <==> range_ord(a) > range_ord(b),
{
    let c = compare_points(a.start, b.start);
    if c != 0 {
        c
    } else {
        compare_points(a.end, b.end)
    }
}

/// The text of a buffer as far as the panel needs it: the length, in
/// columns, of each of its lines.
pub struct BufferSnapshot {
    pub line_lens: Vec<u32>,
}

impl BufferSnapshot {
    /// A buffer has at least one line, and its rows fit in a `u32`.
    pub open spec fn wf(&self) -> bool {
        0 < self.line_lens@.len() <= u32::MAX
    }

    pub open spec fn max_row(&self) -> int {
        self.line_lens@.len() - 1
    }

    /// The position after the last character of the buffer.
    pub fn max_point(&self) -> (r: Point)
        requires
            self.wf(),
        ensures
            r.row == self.max_row(),
            r.column == self.line_lens@[self.max_row()],
    {
        let row = self.line_lens.len() - 1;
        Point { row: row as u32, column: self.line_lens[row] }
    }
}

/// A file of the project: the worktree it belongs to and its path there.
#[derive(Clone, Debug)]
pub struct ProjectPath {
    pub worktree_id: u64,
    pub path: String,
}

impl ProjectPath {
    /// A copy of the path, field for field.
    pub fn duplicate(&self) -> (r: ProjectPath)
        ensures
            r == *self,
    {
        ProjectPath { worktree_id: self.worktree_id, path: self.path.clone() }
    }

    /// Two project paths name the same file.
    pub open spec fn same_file(self, other: ProjectPath) -> bool {
        self.worktree_id == other.worktree_id && self.path@ == other.path@
    }

    /// Whether two project paths name the same file.
    pub fn is_same(&self, other: &ProjectPath) -> (r: bool)
        ensures
            r == self.same_file(*other),
    {
        self.worktree_id == other.worktree_id && self.path == other.path
    }
}

} // verus!

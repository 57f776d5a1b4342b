//! From the diagnostics of a buffer to what the panel shows: the diagnostic
//! blocks of the groups that pass the severity threshold, in range order, and
//! the excerpt regions around them.
use vstd::prelude::*;
use vstd::seq_lib::*;
use crate::model::{BufferSnapshot, DiagnosticEntry, Point, PointRange, Severity, range_ord,
    compare_ranges};

verus! {

broadcast use group_filter_ensures, group_to_multiset_ensures;

/// Lines of context shown above and below a diagnostic.
pub const CONTEXT_LINES: u32 = 2;

/// A region of a buffer shown by the panel: the diagnostic's own range and
/// the wider range of whole lines around it.
#[derive(Clone, Copy, Debug, PartialEq, Eq, Structural)]
pub struct ExcerptRange {
    pub context: PointRange,
    pub primary: PointRange,
}

/// A group is shown when one of its diagnostics is at least as severe as
/// `max`, that is when the group's most severe diagnostic passes.
pub open spec fn group_retained(entries: Seq<DiagnosticEntry>, group: usize, max: Severity) -> bool {
    exists|j: int|
        0 <= j < entries.len() && (#[trigger] entries[j]).group_id == group
            && entries[j].severity.spec_rank() <= max.spec_rank()
}

/// The entries of the groups that are shown, in the order given.
pub open spec fn retained(entries: Seq<DiagnosticEntry>, max: Severity) -> Seq<DiagnosticEntry> {
    entries.filter(|e: DiagnosticEntry| group_retained(entries, e.group_id, max))
}

pub open spec fn blocks_sorted(s: Seq<DiagnosticEntry>) -> bool {
    forall|i: int, j: int|
        0 <= i < j < s.len() ==> range_ord(#[trigger] s[i].range) <= range_ord(#[trigger] s[j].range)
}

/// The entries of `s` whose range orders as `k`, in the order of `s`.
pub open spec fn with_range_order(s: Seq<DiagnosticEntry>, k: int) -> Seq<DiagnosticEntry> {
    s.filter(|e: DiagnosticEntry| range_ord(e.range) == k)
}

/// Filtering past an element that is dropped: inserting it changes nothing.
proof fn lemma_filter_insert_dropped<A>(s: Seq<A>, i: int, x: A, p: spec_fn(A) -> bool)
    requires
        0 <= i <= s.len(),
        !p(x),
    ensures
        s.insert(i, x).filter(p) == s.filter(p),
    decreases s.len(),
{
    if i == s.len() {
        assert(s.insert(i, x) == s.push(x));
        s.lemma_filter_push(x, p);
    } else {
        let d = s.drop_last();
        lemma_filter_insert_dropped(d, i, x, p);
        assert(s.insert(i, x) == d.insert(i, x).push(s.last()));
        assert(s == d.push(s.last()));
        d.insert(i, x).lemma_filter_push(s.last(), p);
        d.lemma_filter_push(s.last(), p);
    }
}

/// Filtering past an element inserted after everything that is kept: it
/// comes last, if it is kept.
proof fn lemma_filter_insert_last<A>(s: Seq<A>, i: int, x: A, p: spec_fn(A) -> bool)
    requires
        0 <= i <= s.len(),
        forall|j: int| i <= j < s.len() ==> !p(#[trigger] s[j]),
    ensures
        s.insert(i, x).filter(p) == if p(x) { s.filter(p).push(x) } else { s.filter(p) },
    decreases s.len(),
{
    if !p(x) {
        lemma_filter_insert_dropped(s, i, x, p);
    } else if i == s.len() {
        assert(s.insert(i, x) == s.push(x));
        s.lemma_filter_push(x, p);
    } else {
        let d = s.drop_last();
        assert(!p(s[s.len() - 1]));
        lemma_filter_insert_last(d, i, x, p);
        assert(s.insert(i, x) == d.insert(i, x).push(s.last()));
        assert(s == d.push(s.last()));
        d.insert(i, x).lemma_filter_push(s.last(), p);
        d.lemma_filter_push(s.last(), p);
    }
}

/// Whether the group `group` has a diagnostic at least as severe as `max`.
fn group_is_retained(entries: &Vec<DiagnosticEntry>, group: usize, max: Severity) -> (r: bool)
    ensures
        r == group_retained(entries@, group, max),
{
    let max_rank = max.rank();
    let mut j: usize = 0;
    while j < entries.len()
        invariant
            j <= entries@.len(),
            max_rank == max.spec_rank(),
            forall|k: int| 0 <= k < j ==> !((#[trigger] entries@[k]).group_id == group
                && entries@[k].severity.spec_rank() <= max.spec_rank()),
        decreases entries@.len() - j,
    {
        if entries[j].group_id == group && entries[j].severity.rank() <= max_rank {
            return true;
        }
        j = j + 1;
    }
    false
}

/// Inserts `b` after every block whose range orders before or with its own.
fn insert_block(blocks: &mut Vec<DiagnosticEntry>, b: DiagnosticEntry)
    requires
        blocks_sorted(old(blocks)@),
    ensures
        blocks_sorted(final(blocks)@),
        final(blocks)@.to_multiset() == old(blocks)@.to_multiset().insert(b),
        (forall|k: int| 0 <= k < old(blocks)@.len()
            ==> range_ord(#[trigger] old(blocks)@[k].range) <= range_ord(b.range))
            ==> final(blocks)@ == old(blocks)@.push(b),
        forall|k: int| #[trigger] with_range_order(final(blocks)@, k) == if range_ord(b.range) == k {
            with_range_order(old(blocks)@, k).push(b)
        } else {
            with_range_order(old(blocks)@, k)
        },
{
    let mut i: usize = 0;
    while i < blocks.len() && compare_ranges(blocks[i].range, b.range) != 1
        invariant
            i <= blocks@.len(),
            blocks@ == old(blocks)@,
            forall|k: int| 0 <= k < i ==> range_ord(#[trigger] blocks@[k].range) <= range_ord(b.range),
        decreases blocks@.len() - i,
    {
        i = i + 1;
    }
    let ghost before = blocks@;
    proof {
        to_multiset_insert(before, i as int, b);
        if i < before.len() {
            assert(range_ord(b.range) < range_ord(before[i as int].range));
        }
    }
    blocks.insert(i, b);
    proof {
        let after = blocks@;
        assert(after == before.insert(i as int, b));
        assert forall|p: int, q: int| 0 <= p < q < after.len() implies
            range_ord(#[trigger] after[p].range) <= range_ord(#[trigger] after[q].range) by {
            if q < i {
            } else if q == i {
            } else if p < i {
                assert(after[q] == before[q - 1]);
            } else if p == i {
                assert(after[q] == before[q - 1]);
                assert(range_ord(before[i as int].range) <= range_ord(before[q - 1].range));
            } else {
                assert(after[p] == before[p - 1]);
                assert(after[q] == before[q - 1]);
            }
        }
        if i < before.len() {
            assert(range_ord(before[i as int].range) > range_ord(b.range));
        } else {
            assert(after =~= before.push(b));
        }
        assert forall|k: int| #[trigger] with_range_order(after, k) == if range_ord(b.range) == k {
            with_range_order(before, k).push(b)
        } else {
            with_range_order(before, k)
        } by {
            let p = |e: DiagnosticEntry| range_ord(e.range) == k;
            if range_ord(b.range) == k {
                assert forall|j: int| i <= j < before.len() implies !p(#[trigger] before[j]) by {
                    if j > i {
                        assert(range_ord(before[i as int].range) <= range_ord(before[j].range));
                    }
                }
                lemma_filter_insert_last(before, i as int, b, p);
            } else {
                lemma_filter_insert_dropped(before, i as int, b, p);
            }
        }
    }
}

/// The diagnostic blocks shown for `entries` when diagnostics at most as
/// severe as `max` are included: one block per entry of each group that
/// passes the threshold, ordered by range, and among equal ranges in the
/// order of `entries`.
pub fn diagnostic_blocks(entries: &Vec<DiagnosticEntry>, max: Severity) -> (r: Vec<DiagnosticEntry>)
    ensures
        blocks_sorted(r@),
        r@.to_multiset() == retained(entries@, max).to_multiset(),
        blocks_sorted(entries@) ==> r@ == retained(entries@, max),
        forall|k: int| #[trigger] with_range_order(r@, k) == with_range_order(retained(entries@, max), k),
{
    let ghost pred = |e: DiagnosticEntry| group_retained(entries@, e.group_id, max);
    let mut blocks: Vec<DiagnosticEntry> = Vec::new();
    let mut i: usize = 0;
    while i < entries.len()
        invariant
            i <= entries@.len(),
            pred == (|e: DiagnosticEntry| group_retained(entries@, e.group_id, max)),
            blocks_sorted(blocks@),
            blocks@.to_multiset() == entries@.take(i as int).filter(pred).to_multiset(),
            blocks_sorted(entries@) ==> blocks@ == entries@.take(i as int).filter(pred),
            forall|k: int| #[trigger] with_range_order(blocks@, k)
                == with_range_order(entries@.take(i as int).filter(pred), k),
        decreases entries@.len() - i,
    {
        let ghost prefix = entries@.take(i as int);
        assert(entries@.take(i as int + 1) == prefix.push(entries@[i as int]));
        let e = &entries[i];
        proof {
            prefix.lemma_filter_push(entries@[i as int], pred);
        }
        if group_is_retained(entries, e.group_id, max) {
            proof {
                to_multiset_build(prefix.filter(pred), entries@[i as int]);
                assert forall|k: int| #[trigger] with_range_order(prefix.filter(pred).push(entries@[i as int]), k)
                    == if range_ord(entries@[i as int].range) == k {
                        with_range_order(prefix.filter(pred), k).push(entries@[i as int])
                    } else {
                        with_range_order(prefix.filter(pred), k)
                    } by {
                    prefix.filter(pred).lemma_filter_push(entries@[i as int],
                        |e: DiagnosticEntry| range_ord(e.range) == k);
                }
            }
            proof {
                if blocks_sorted(entries@) {
                    assert forall|k: int| 0 <= k < blocks@.len() implies
                        range_ord(#[trigger] blocks@[k].range) <= range_ord(entries@[i as int].range) by {
                        let x = blocks@[k];
                        assert(prefix.filter(pred).contains(x));
                        prefix.lemma_filter_contains_rev(pred, x);
                        let m = choose|m: int| 0 <= m < prefix.len() && prefix[m] == x;
                        assert(entries@[m] == x);
                    }
                }
            }
            insert_block(&mut blocks, e.duplicate());
        }
        i = i + 1;
    }
    assert(entries@.take(entries@.len() as int) == entries@);
    blocks
}

/// The lines around `range` that an excerpt shows: from `CONTEXT_LINES`
/// rows above its start to `CONTEXT_LINES` rows below its end, whole lines,
/// within the buffer.
pub open spec fn context_for(range: PointRange, line_lens: Seq<u32>) -> PointRange {
    let max_row = line_lens.len() - 1;
    let above = if range.start.row >= CONTEXT_LINES { range.start.row - CONTEXT_LINES } else { 0 };
    let start_row = if above <= max_row { above } else { max_row };
    let below = range.end.row + CONTEXT_LINES;
    let end_row = if below <= max_row { below } else { max_row };
    PointRange {
        start: Point { row: start_row as u32, column: 0 },
        end: Point { row: end_row as u32, column: line_lens[end_row] },
    }
}

/// The excerpt region shown for a block at `range`.
pub open spec fn excerpt_for(range: PointRange, line_lens: Seq<u32>) -> ExcerptRange {
    ExcerptRange { context: context_for(range, line_lens), primary: range }
}

/// The order of excerpt regions: by context, then by primary range.
pub open spec fn excerpt_ord(e: ExcerptRange) -> int {
    range_ord(e.context) * 0x1_0000_0000_0000_0000_0000_0000_0000_0000 + range_ord(e.primary)
}

pub open spec fn excerpts_sorted(s: Seq<ExcerptRange>) -> bool {
    forall|i: int, j: int|
        0 <= i < j < s.len() ==> excerpt_ord(#[trigger] s[i]) <= excerpt_ord(#[trigger] s[j])
}

/// The excerpt regions of a list of blocks, one per block, in block order.
pub open spec fn excerpts_of(blocks: Seq<DiagnosticEntry>, line_lens: Seq<u32>) -> Seq<ExcerptRange> {
    blocks.map_values(|b: DiagnosticEntry| excerpt_for(b.range, line_lens))
}

/// The context lines of the excerpt shown around `range`.
pub fn context_range(range: PointRange, snapshot: &BufferSnapshot) -> (r: PointRange)
    requires
        snapshot.wf(),
    ensures
        r == context_for(range, snapshot.line_lens@),
{
    let max = snapshot.max_point();
    let above = range.start.row.saturating_sub(CONTEXT_LINES);
    let start_row = if above <= max.row { above } else { max.row };
    let end_row = if range.end.row <= max.row && max.row - range.end.row >= CONTEXT_LINES {
        range.end.row + CONTEXT_LINES
    } else {
        max.row
    };
    PointRange {
        start: Point { row: start_row, column: 0 },
        end: Point { row: end_row, column: snapshot.line_lens[end_row as usize] },
    }
}

/// Compares two excerpt regions: -1, 0 or 1 as `a` orders before, with or
/// after `b`.
fn compare_excerpts(a: ExcerptRange, b: ExcerptRange) -> (r: i8)
    ensures
        r == -1 <==> excerpt_ord(a) < excerpt_ord(b),
        r == 0 <==> excerpt_ord(a) == excerpt_ord(b),
        r == 1 <==> excerpt_ord(a) > excerpt_ord(b),
{
    let c = compare_ranges(a.context, b.context);
    if c != 0 {
        c
    } else {
        compare_ranges(a.primary, b.primary)
    }
}

/// Inserts `x` after every region that orders before or with it.
fn insert_excerpt(excerpts: &mut Vec<ExcerptRange>, x: ExcerptRange)
    requires
        excerpts_sorted(old(excerpts)@),
    ensures
        excerpts_sorted(final(excerpts)@),
        final(excerpts)@.to_multiset() == old(excerpts)@.to_multiset().insert(x),
{
    let mut i: usize = 0;
    while i < excerpts.len() && compare_excerpts(excerpts[i], x) != 1
        invariant
            i <= excerpts@.len(),
            excerpts@ == old(excerpts)@,
            forall|k: int| 0 <= k < i ==> excerpt_ord(#[trigger] excerpts@[k]) <= excerpt_ord(x),
        decreases excerpts@.len() - i,
    {
        i = i + 1;
    }
    let ghost before = excerpts@;
    proof {
        to_multiset_insert(before, i as int, x);
    }
    excerpts.insert(i, x);
    proof {
        let after = excerpts@;
        assert forall|p: int, q: int| 0 <= p < q < after.len() implies
            excerpt_ord(#[trigger] after[p]) <= excerpt_ord(#[trigger] after[q]) by {
            if q < i {
            } else if q == i {
            } else if p < i {
                assert(after[q] == before[q - 1]);
            } else if p == i {
                assert(after[q] == before[q - 1]);
                assert(excerpt_ord(before[i as int]) <= excerpt_ord(before[q - 1]));
            } else {
                assert(after[p] == before[p - 1]);
                assert(after[q] == before[q - 1]);
            }
        }
    }
}

/// The excerpt regions for `blocks`: one per block, its context around its
/// range, ordered by context and then by primary range.
pub fn excerpt_ranges(blocks: &Vec<DiagnosticEntry>, snapshot: &BufferSnapshot) -> (r: Vec<ExcerptRange>)
    requires
        snapshot.wf(),
    ensures
        excerpts_sorted(r@),
        r@.to_multiset() == excerpts_of(blocks@, snapshot.line_lens@).to_multiset(),
{
    let ghost f = |b: DiagnosticEntry| excerpt_for(b.range, snapshot.line_lens@);
    let mut excerpts: Vec<ExcerptRange> = Vec::new();
    let mut i: usize = 0;
    while i < blocks.len()
        invariant
            i <= blocks@.len(),
            snapshot.wf(),
            f == (|b: DiagnosticEntry| excerpt_for(b.range, snapshot.line_lens@)),
            excerpts_sorted(excerpts@),
            excerpts@.to_multiset() == blocks@.take(i as int).map_values(f).to_multiset(),
        decreases blocks@.len() - i,
    {
        let ghost prefix = blocks@.take(i as int);
        assert(blocks@.take(i as int + 1).map_values(f) =~= prefix.map_values(f).push(f(blocks@[i as int])));
        proof {
            to_multiset_build(prefix.map_values(f), f(blocks@[i as int]));
        }
        let range = blocks[i].range;
        let x = ExcerptRange { context: context_range(range, snapshot), primary: range };
        insert_excerpt(&mut excerpts, x);
        i = i + 1;
    }
    assert(blocks@.take(blocks@.len() as int) == blocks@);
    excerpts
}

} // verus!

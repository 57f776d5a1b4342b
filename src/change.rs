//! Deciding whether a newly fetched diagnostic list differs from the one on
//! display.
use vstd::prelude::*;
use crate::model::DiagnosticEntry;

verus! {

/// Two lists describe the same diagnostics: equal length and, position by
/// position, equal message, severity, primary flag and resolved range.
pub open spec fn same_diagnostics(a: Seq<DiagnosticEntry>, b: Seq<DiagnosticEntry>) -> bool {
    &&& a.len() == b.len()
    &&& forall|i: int| 0 <= i < a.len() ==> #[trigger] a[i].key() == b[i].key()
}

/// Whether `incoming` describes the same diagnostics as `current`, in order.
pub fn diagnostics_are_unchanged(current: &Vec<DiagnosticEntry>, incoming: &Vec<DiagnosticEntry>) -> (r: bool)
    ensures
        r == same_diagnostics(current@, incoming@),
{
    if current.len() != incoming.len() {
        return false;
    }
    let mut i: usize = 0;
    while i < current.len()
        invariant
            current@.len() == incoming@.len(),
            i <= current@.len(),
            forall|j: int| 0 <= j < i ==> #[trigger] current@[j].key() == incoming@[j].key(),
        decreases current@.len() - i,
    {
        let a = &current[i];
        let b = &incoming[i];
        if !(a.message == b.message && a.severity == b.severity && a.is_primary == b.is_primary
            && a.range == b.range) {
            assert(current@[i as int].key() != incoming@[i as int].key());
            return false;
        }
        i = i + 1;
    }
    true
}

/// Lists that agree, position by position, on message, severity, primary flag
/// and resolved range are reported unchanged, whatever their group ids.
pub proof fn equal_fields_are_unchanged(a: Seq<DiagnosticEntry>, b: Seq<DiagnosticEntry>)
    requires
        a.len() == b.len(),
        forall|i: int| 0 <= i < a.len() ==> {
            &&& #[trigger] a[i].message@ == b[i].message@
            &&& a[i].severity == b[i].severity
            &&& a[i].is_primary == b[i].is_primary
            &&& a[i].range == b[i].range
        },
    ensures
        same_diagnostics(a, b),
{
    assert forall|i: int| 0 <= i < a.len() implies #[trigger] a[i].key() == b[i].key() by {
        assert(a[i].message@ == b[i].message@);
    }
}

/// Two entries differ in message, severity, primary flag or resolved range.
pub open spec fn fields_differ(x: DiagnosticEntry, y: DiagnosticEntry) -> bool {
    ||| x.message@ != y.message@
    ||| x.severity != y.severity
    ||| x.is_primary != y.is_primary
    ||| x.range != y.range
}

/// Lists of different lengths, or that differ at some position in message,
/// severity, primary flag or resolved range, are reported changed.
pub proof fn differing_fields_are_changed(a: Seq<DiagnosticEntry>, b: Seq<DiagnosticEntry>)
    requires
        a.len() != b.len() || exists|i: int|
            0 <= i < a.len() && i < b.len() && #[trigger] fields_differ(a[i], b[i]),
    ensures
        !same_diagnostics(a, b),
{
    if a.len() == b.len() {
        let i = choose|i: int| 0 <= i < a.len() && i < b.len() && #[trigger] fields_differ(a[i], b[i]);
        assert(a[i].key().message != b[i].key().message || a[i].key().severity != b[i].key().severity
            || a[i].key().is_primary != b[i].key().is_primary || a[i].key().range != b[i].key().range);
    }
}

} // verus!

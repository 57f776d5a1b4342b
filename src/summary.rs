//! Error and warning counts of a file, and the text the panel shows from
//! them.
use vstd::prelude::*;
use vstd::seq_lib::*;
use crate::model::{DiagnosticEntry, Severity};

verus! {

broadcast use group_filter_ensures;

/// The number of errors and warnings of a file.
#[derive(Clone, Copy, Debug, PartialEq, Eq, Structural)]
pub struct DiagnosticSummary {
    pub error_count: usize,
    pub warning_count: usize,
}

/// Diagnostics that are counted as one of `severity`: the primary entry of a
/// group carries the group's count.
pub open spec fn counted(entries: Seq<DiagnosticEntry>, severity: Severity) -> Seq<DiagnosticEntry> {
    entries.filter(|e: DiagnosticEntry| e.is_primary && e.severity == severity)
}

impl DiagnosticSummary {
    pub fn new() -> (r: DiagnosticSummary)
        ensures
            r.error_count == 0,
            r.warning_count == 0,
    {
        DiagnosticSummary { error_count: 0, warning_count: 0 }
    }

    pub fn is_empty(&self) -> (r: bool)
        ensures
            r == (self.error_count == 0 && self.warning_count == 0),
    {
        self.error_count == 0 && self.warning_count == 0
    }

    /// The summary of a list of diagnostics: its primary errors and its
    /// primary warnings.
    pub fn of_entries(entries: &Vec<DiagnosticEntry>) -> (r: DiagnosticSummary)
        ensures
            r.error_count == counted(entries@, Severity::Error).len(),
            r.warning_count == counted(entries@, Severity::Warning).len(),
    {
        let ghost is_error = |e: DiagnosticEntry| e.is_primary && e.severity == Severity::Error;
        let ghost is_warning = |e: DiagnosticEntry| e.is_primary && e.severity == Severity::Warning;
        let mut errors: usize = 0;
        let mut warnings: usize = 0;
        let mut i: usize = 0;
        while i < entries.len()
            invariant
                i <= entries@.len(),
                is_error == (|e: DiagnosticEntry| e.is_primary && e.severity == Severity::Error),
                is_warning == (|e: DiagnosticEntry| e.is_primary && e.severity == Severity::Warning),
                errors == entries@.take(i as int).filter(is_error).len(),
                warnings == entries@.take(i as int).filter(is_warning).len(),
            decreases entries@.len() - i,
        {
            let ghost prefix = entries@.take(i as int);
            assert(entries@.take(i as int + 1) == prefix.push(entries@[i as int]));
            proof {
                prefix.lemma_filter_push(entries@[i as int], is_error);
                prefix.lemma_filter_push(entries@[i as int], is_warning);
            }
            let e = &entries[i];
            if e.is_primary {
                match e.severity {
                    Severity::Error => {
                        errors = errors + 1;
                    },
                    Severity::Warning => {
                        warnings = warnings + 1;
                    },
                    _ => {},
                }
            }
            i = i + 1;
        }
        assert(entries@.take(entries@.len() as int) == entries@);
        DiagnosticSummary { error_count: errors, warning_count: warnings }
    }
}

pub open spec fn digit_char(d: int) -> char {
    if d == 0 { '0' }
    else if d == 1 { '1' }
    else if d == 2 { '2' }
    else if d == 3 { '3' }
    else if d == 4 { '4' }
    else if d == 5 { '5' }
    else if d == 6 { '6' }
    else if d == 7 { '7' }
    else if d == 8 { '8' }
    else { '9' }
}

/// The decimal digits of `n`, without leading zeros.
pub open spec fn decimal(n: nat) -> Seq<char>
    decreases n,
{
    if n < 10 {
        seq![digit_char(n as int)]
    } else {
        decimal(n / 10) + seq![digit_char((n % 10) as int)]
    }
}

fn digit_str(d: usize) -> (r: &'static str)
    requires
        d < 10,
    ensures
        r@ == seq![digit_char(d as int)],
{
    proof {
        reveal_strlit("0");
        reveal_strlit("1");
        reveal_strlit("2");
        reveal_strlit("3");
        reveal_strlit("4");
        reveal_strlit("5");
        reveal_strlit("6");
        reveal_strlit("7");
        reveal_strlit("8");
        reveal_strlit("9");
    }
    let r = match d {
        0 => "0",
        1 => "1",
        2 => "2",
        3 => "3",
        4 => "4",
        5 => "5",
        6 => "6",
        7 => "7",
        8 => "8",
        _ => "9",
    };
    assert(r@ =~= seq![digit_char(d as int)]);
    r
}

/// Appends the decimal digits of `n` to `s`.
pub fn push_decimal(s: &mut String, n: usize)
    ensures
        final(s)@ == old(s)@ + decimal(n as nat),
    decreases n,
{
    if n >= 10 {
        push_decimal(s, n / 10);
    }
    s.append(digit_str(n % 10));
    assert(final(s)@ =~= old(s)@ + decimal(n as nat));
}

/// The message shown when no diagnostic is on display: no problems at all,
/// or no errors while warnings are hidden.
pub open spec fn empty_label(summary: DiagnosticSummary, file_name: Seq<char>) -> Seq<char> {
    if summary.warning_count == 0 {
        "No problems in "@ + file_name
    } else {
        "No errors in "@ + file_name
    }
}

/// The text of the control that reveals `n` hidden warnings.
pub open spec fn reveal_label(n: nat) -> Seq<char> {
    if n == 1 {
        "Show 1 warning"@
    } else {
        "Show "@ + decimal(n) + " warnings"@
    }
}

pub fn empty_label_text(summary: DiagnosticSummary, file_name: &str) -> (r: String)
    ensures
        r@ == empty_label(summary, file_name@),
{
    if summary.warning_count == 0 {
        String::from_str("No problems in ").concat(file_name)
    } else {
        String::from_str("No errors in ").concat(file_name)
    }
}

pub fn reveal_label_text(n: usize) -> (r: String)
    ensures
        r@ == reveal_label(n as nat),
{
    if n == 1 {
        String::from_str("Show 1 warning")
    } else {
        let mut s = String::from_str("Show ");
        push_decimal(&mut s, n);
        s.append(" warnings");
        s
    }
}

} // verus!

//! The diagnostics panel of one file. Its handlers decide, from the panel's
//! state and an event, the next state and what the host is to do: start a
//! timer, open the buffer, run or cancel checks, move the focus.
use vstd::prelude::*;
use vstd::seq_lib::*;
use crate::change::{diagnostics_are_unchanged, same_diagnostics};
use crate::debounce::{Debouncer, scheduled, fired};
use crate::excerpts::{ExcerptRange, excerpt_for, group_retained, with_range_order, diagnostic_blocks, excerpt_ranges, blocks_sorted,
    excerpts_sorted, retained, excerpts_of};
use crate::fetch::{CargoDiagnosticsFetchState, started, stopped};
use crate::model::{BufferSnapshot, DiagnosticEntry, Point, ProjectPath, Severity, duplicate_entries};
use crate::summary::{DiagnosticSummary, empty_label, empty_label_text, reveal_label, reveal_label_text};
use crate::toolbar::{ToolbarItemLocation, ToolbarStatus};

verus! {

/// An event of the project that the panel listens to.
pub enum ProjectEvent {
    DiskBasedDiagnosticsStarted { language_server_id: u64 },
    DiskBasedDiagnosticsFinished { language_server_id: u64 },
    DiagnosticsUpdated { path: ProjectPath, language_server_id: u64 },
    Other,
}

/// What the host does after a project event: redraw, and start the timers
/// of the refreshes that were scheduled, under their tokens.
#[derive(Clone, Copy, Debug, PartialEq, Eq, Structural)]
pub struct ProjectEventEffects {
    pub notify: bool,
    pub summary_refresh: Option<u64>,
    pub excerpts_refresh: Option<u64>,
}

/// An event of the embedded editor that the panel listens to.
#[derive(Clone, Copy, Debug, PartialEq, Eq, Structural)]
pub enum EditorEvent {
    Focused,
    Blurred,
    Other,
}

/// What the host does after an editor event.
#[derive(Clone, Copy, Debug, PartialEq, Eq, Structural)]
pub struct EditorEventEffects {
    pub focus_panel: bool,
    pub excerpts_refresh: Option<u64>,
}

/// How the diagnostics are brought up to date: by refreshing the excerpts
/// after the delay, or by running the external checks first.
#[derive(Clone, Copy, Debug, PartialEq, Eq, Structural)]
pub enum RefreshPlan {
    UpdateExcerpts { token: u64 },
    FetchChecks { token: u64 },
}

/// The end of an excerpt refresh.
#[derive(Clone, Copy, Debug, PartialEq, Eq, Structural)]
pub enum ExcerptsOutcome {
    /// A later refresh superseded this one: nothing changed.
    Superseded,
    /// The diagnostics are those on display: nothing else changed.
    Unchanged,
    /// The display was replaced. Where the panel showed nothing before, the
    /// cursor goes to `select`, and the editor takes the focus if the panel
    /// had it.
    Updated { select: Option<Point>, focus_editor: bool },
}

/// The marks of the panel's tab: a check when the file is clean, else the
/// counts that are not zero.
#[derive(Clone, Copy, Debug, PartialEq, Eq, Structural)]
pub struct TabBadges {
    pub clean: bool,
    pub errors: Option<usize>,
    pub warnings: Option<usize>,
}

/// What the panel shows: the editor with the excerpts, or a message and,
/// where warnings are hidden, a control that reveals them.
pub enum PanelContent {
    Editor,
    Empty { label: String, reveal_warnings: Option<String> },
}

/// What the deploy command does: nothing without an active file, bring an
/// open panel of the file to the front, or open a new one.
pub enum DeployAction {
    Nothing,
    Activate { index: usize },
    Open { path: ProjectPath, include_warnings: bool },
}

/// The least severe diagnostics shown: warnings when they are included,
/// else errors only.
pub open spec fn severity_threshold(include_warnings: bool) -> Severity {
    if include_warnings { Severity::Warning } else { Severity::Error }
}

pub struct BufferDiagnosticsEditor {
    /// The file whose diagnostics are shown.
    pub project_path: ProjectPath,
    /// The diagnostics on display, kept to tell whether a refresh brings
    /// anything new.
    pub diagnostics: Vec<DiagnosticEntry>,
    /// The diagnostic blocks on display.
    pub blocks: Vec<DiagnosticEntry>,
    /// The excerpt regions on display.
    pub excerpts: Vec<ExcerptRange>,
    /// The counts shown in the tab.
    pub summary: DiagnosticSummary,
    pub include_warnings: bool,
    /// The pending refresh of the excerpts.
    pub update_excerpts_task: Debouncer,
    /// The pending refresh of the counts.
    pub diagnostic_summary_task: Debouncer,
    pub cargo_diagnostics_fetch: CargoDiagnosticsFetchState,
    /// Diagnostics changed while the panel had the focus, and the excerpts
    /// have not been refreshed since.
    pub stale: bool,
}

/// Everything on display is the same in `a` and `b`.
pub open spec fn same_display(a: BufferDiagnosticsEditor, b: BufferDiagnosticsEditor) -> bool {
    &&& a.project_path == b.project_path
    &&& a.diagnostics@ == b.diagnostics@
    &&& a.blocks@ == b.blocks@
    &&& a.excerpts@ == b.excerpts@
    &&& a.summary == b.summary
    &&& a.include_warnings == b.include_warnings
}

/// The plan of `update_all_diagnostics`: refresh the excerpts when there is
/// nothing to check, or on the first launch when counts are known already;
/// otherwise run the checks.
pub open spec fn plans_excerpts(first_launch: bool, summary: DiagnosticSummary, sources: Seq<ProjectPath>) -> bool {
    sources.len() == 0 || (first_launch && !(summary.error_count == 0 && summary.warning_count == 0))
}

/// `blocks` and `excerpts` are what the panel shows for `entries`: the
/// blocks of the groups that pass the threshold, ordered by range and, among
/// equal ranges, in the order of `entries`; and one excerpt per block,
/// ordered by context and primary range.
pub open spec fn displays(
    blocks: Seq<DiagnosticEntry>,
    excerpts: Seq<ExcerptRange>,
    entries: Seq<DiagnosticEntry>,
    include_warnings: bool,
    line_lens: Seq<u32>,
) -> bool {
    let max = severity_threshold(include_warnings);
    &&& blocks_sorted(blocks)
    &&& blocks.to_multiset() == retained(entries, max).to_multiset()
    &&& blocks_sorted(entries) ==> blocks == retained(entries, max)
    &&& forall|k: int| #[trigger] with_range_order(blocks, k) == with_range_order(retained(entries, max), k)
    &&& excerpts_sorted(excerpts)
    &&& excerpts.to_multiset() == excerpts_of(blocks, line_lens).to_multiset()
}

proof fn lemma_same_multiset_contains<T>(a: Seq<T>, b: Seq<T>, x: T)
    requires
        a.to_multiset() == b.to_multiset(),
        a.contains(x),
    ensures
        b.contains(x),
{
    to_multiset_contains(a, x);
    to_multiset_contains(b, x);
}

/// Including warnings never hides a region: every excerpt region shown for
/// a list of diagnostics with errors only is shown as well once warnings
/// are included.
pub proof fn including_warnings_keeps_shown_regions(
    entries: Seq<DiagnosticEntry>,
    line_lens: Seq<u32>,
    errors_blocks: Seq<DiagnosticEntry>,
    errors_excerpts: Seq<ExcerptRange>,
    all_blocks: Seq<DiagnosticEntry>,
    all_excerpts: Seq<ExcerptRange>,
    region: ExcerptRange,
)
    requires
        displays(errors_blocks, errors_excerpts, entries, false, line_lens),
        displays(all_blocks, all_excerpts, entries, true, line_lens),
        errors_excerpts.contains(region),
    ensures
        all_excerpts.contains(region),
{
    broadcast use group_filter_ensures;

    let f = |b: DiagnosticEntry| excerpt_for(b.range, line_lens);
    let errors_pred = |e: DiagnosticEntry| group_retained(entries, e.group_id, Severity::Error);
    let all_pred = |e: DiagnosticEntry| group_retained(entries, e.group_id, Severity::Warning);
    lemma_same_multiset_contains(errors_excerpts, excerpts_of(errors_blocks, line_lens), region);
    let k = choose|k: int| 0 <= k < errors_blocks.len() && excerpts_of(errors_blocks, line_lens)[k] == region;
    let b = errors_blocks[k];
    assert(errors_blocks.contains(b));
    lemma_same_multiset_contains(errors_blocks, retained(entries, Severity::Error), b);
    entries.lemma_filter_contains_rev(errors_pred, b);
    let m = choose|m: int| 0 <= m < entries.len() && entries[m] == b;
    assert(errors_pred(b));
    assert(all_pred(entries[m]));
    assert(retained(entries, Severity::Warning).contains(b));
    lemma_same_multiset_contains(retained(entries, Severity::Warning), all_blocks, b);
    let n = choose|n: int| 0 <= n < all_blocks.len() && all_blocks[n] == b;
    assert(excerpts_of(all_blocks, line_lens)[n] == region);
    assert(excerpts_of(all_blocks, line_lens).contains(region));
    lemma_same_multiset_contains(excerpts_of(all_blocks, line_lens), all_excerpts, region);
}

/// `e` is `old` after `update_all_diagnostics(first_launch, sources)`
/// returned `plan`.
pub open spec fn refreshed_all(
    old: BufferDiagnosticsEditor,
    e: BufferDiagnosticsEditor,
    first_launch: bool,
    sources: Seq<ProjectPath>,
    plan: RefreshPlan,
) -> bool {
    &&& same_display(old, e)
    &&& e.stale == old.stale
    &&& e.diagnostic_summary_task == old.diagnostic_summary_task
    &&& if plans_excerpts(first_launch, old.summary, sources) {
        &&& plan matches RefreshPlan::UpdateExcerpts { token }
            && (e.update_excerpts_task, token) == scheduled(old.update_excerpts_task)
        &&& e.cargo_diagnostics_fetch@ == old.cargo_diagnostics_fetch@
    } else {
        &&& plan matches RefreshPlan::FetchChecks { token }
            && (e.cargo_diagnostics_fetch@, Some(token)) == started(old.cargo_diagnostics_fetch@, sources)
        &&& e.update_excerpts_task == old.update_excerpts_task
    }
}

impl BufferDiagnosticsEditor {
    pub open spec fn wf(&self) -> bool {
        &&& self.update_excerpts_task.wf()
        &&& self.diagnostic_summary_task.wf()
        &&& self.cargo_diagnostics_fetch@.wf()
    }

    /// A panel for `project_path`, showing nothing yet, brought up to date
    /// as on a first launch: `sources` are the files to check.
    pub fn new(
        project_path: ProjectPath,
        include_warnings: bool,
        summary: DiagnosticSummary,
        sources: Vec<ProjectPath>,
    ) -> (r: (BufferDiagnosticsEditor, RefreshPlan))
        ensures
            r.0.wf(),
            r.0.project_path == project_path,
            r.0.include_warnings == include_warnings,
            r.0.summary == summary,
            r.0.diagnostics@.len() == 0,
            r.0.blocks@.len() == 0,
            r.0.excerpts@.len() == 0,
            !r.0.stale,
            r.0.diagnostic_summary_task.pending is None,
            if plans_excerpts(true, summary, sources@) {
                &&& r.1 == RefreshPlan::UpdateExcerpts { token: 0 }
                &&& r.0.update_excerpts_task.pending == Some(0u64)
                &&& r.0.cargo_diagnostics_fetch@.running is None
            } else {
                &&& r.1 == RefreshPlan::FetchChecks { token: 0 }
                &&& r.0.update_excerpts_task.pending is None
                &&& r.0.cargo_diagnostics_fetch@.sources == sources@
                &&& r.0.cargo_diagnostics_fetch@.running == Some((0u64, Seq::new(sources@.len(), |i: int| true)))
            },
    {
        let mut editor = BufferDiagnosticsEditor {
            project_path,
            diagnostics: Vec::new(),
            blocks: Vec::new(),
            excerpts: Vec::new(),
            summary,
            include_warnings,
            update_excerpts_task: Debouncer::new(),
            diagnostic_summary_task: Debouncer::new(),
            cargo_diagnostics_fetch: CargoDiagnosticsFetchState::new(),
            stale: false,
        };
        let plan = editor.update_all_diagnostics(true, sources);
        (editor, plan)
    }

    /// Brings the diagnostics up to date: runs the checks of `sources`, or
    /// refreshes the excerpts where there is nothing to check or, on the
    /// first launch, where the counts are known already.
    pub fn update_all_diagnostics(&mut self, first_launch: bool, sources: Vec<ProjectPath>) -> (plan: RefreshPlan)
        requires
            old(self).wf(),
        ensures
            final(self).wf(),
            refreshed_all(*old(self), *final(self), first_launch, sources@, plan),
    {
        if sources.len() == 0 || (first_launch && !self.summary.is_empty()) {
            let token = self.update_all_excerpts();
            RefreshPlan::UpdateExcerpts { token }
        } else {
            // `sources` is not empty here, so a batch starts.
            let token = self.cargo_diagnostics_fetch.fetch(sources).unwrap();
            RefreshPlan::FetchChecks { token }
        }
    }

    /// Schedules a refresh of the excerpts, superseding the pending one;
    /// returns the token of its timer.
    pub fn update_stale_excerpts(&mut self) -> (token: u64)
        requires
            old(self).wf(),
        ensures
            final(self).wf(),
            (final(self).update_excerpts_task, token) == scheduled(old(self).update_excerpts_task),
            same_display(*old(self), *final(self)),
            final(self).stale == old(self).stale,
            final(self).diagnostic_summary_task == old(self).diagnostic_summary_task,
            final(self).cargo_diagnostics_fetch@ == old(self).cargo_diagnostics_fetch@,
    {
        self.update_excerpts_task.schedule()
    }

    /// Schedules a refresh of all the excerpts of the panel.
    pub fn update_all_excerpts(&mut self) -> (token: u64)
        requires
            old(self).wf(),
        ensures
            final(self).wf(),
            (final(self).update_excerpts_task, token) == scheduled(old(self).update_excerpts_task),
            same_display(*old(self), *final(self)),
            final(self).stale == old(self).stale,
            final(self).diagnostic_summary_task == old(self).diagnostic_summary_task,
            final(self).cargo_diagnostics_fetch@ == old(self).cargo_diagnostics_fetch@,
    {
        self.update_stale_excerpts()
    }

    /// A project event: a check starting redraws; one finishing refreshes
    /// the excerpts; an update of this file refreshes the counts and, unless
    /// the panel has the focus, the excerpts. While the panel has the focus
    /// the excerpts are left as they are, and marked stale.
    pub fn handle_project_event(&mut self, event: &ProjectEvent, focused: bool) -> (r: ProjectEventEffects)
        requires
            old(self).wf(),
        ensures
            final(self).wf(),
            same_display(*old(self), *final(self)),
            final(self).cargo_diagnostics_fetch@ == old(self).cargo_diagnostics_fetch@,
            match *event {
                ProjectEvent::DiskBasedDiagnosticsStarted { .. } => {
                    &&& r == (ProjectEventEffects { notify: true, summary_refresh: None, excerpts_refresh: None })
                    &&& final(self).update_excerpts_task == old(self).update_excerpts_task
                    &&& final(self).diagnostic_summary_task == old(self).diagnostic_summary_task
                    &&& final(self).stale == old(self).stale
                },
                ProjectEvent::DiskBasedDiagnosticsFinished { .. } => {
                    &&& !r.notify && r.summary_refresh is None
                    &&& r.excerpts_refresh matches Some(t)
                        && (final(self).update_excerpts_task, t) == scheduled(old(self).update_excerpts_task)
                    &&& final(self).diagnostic_summary_task == old(self).diagnostic_summary_task
                    &&& final(self).stale == old(self).stale
                },
                ProjectEvent::DiagnosticsUpdated { path, .. } => if path.same_file(old(self).project_path) {
                    &&& !r.notify
                    &&& r.summary_refresh matches Some(t)
                        && (final(self).diagnostic_summary_task, t) == scheduled(old(self).diagnostic_summary_task)
                    &&& if focused {
                        &&& r.excerpts_refresh is None
                        &&& final(self).update_excerpts_task == old(self).update_excerpts_task
                        &&& final(self).stale
                    } else {
                        &&& r.excerpts_refresh matches Some(t)
                            && (final(self).update_excerpts_task, t) == scheduled(old(self).update_excerpts_task)
                        &&& final(self).stale == old(self).stale
                    }
                } else {
                    &&& r == (ProjectEventEffects { notify: false, summary_refresh: None, excerpts_refresh: None })
                    &&& final(self).update_excerpts_task == old(self).update_excerpts_task
                    &&& final(self).diagnostic_summary_task == old(self).diagnostic_summary_task
                    &&& final(self).stale == old(self).stale
                },
                ProjectEvent::Other => {
                    &&& r == (ProjectEventEffects { notify: false, summary_refresh: None, excerpts_refresh: None })
                    &&& final(self).update_excerpts_task == old(self).update_excerpts_task
                    &&& final(self).diagnostic_summary_task == old(self).diagnostic_summary_task
                    &&& final(self).stale == old(self).stale
                },
            },
    {
        match event {
            ProjectEvent::DiskBasedDiagnosticsStarted { .. } => {
                ProjectEventEffects { notify: true, summary_refresh: None, excerpts_refresh: None }
            },
            ProjectEvent::DiskBasedDiagnosticsFinished { .. } => {
                let token = self.update_stale_excerpts();
                ProjectEventEffects { notify: false, summary_refresh: None, excerpts_refresh: Some(token) }
            },
            ProjectEvent::DiagnosticsUpdated { path, .. } => {
                if path.is_same(&self.project_path) {
                    let summary_token = self.diagnostic_summary_task.schedule();
                    if focused {
                        self.stale = true;
                        ProjectEventEffects {
                            notify: false,
                            summary_refresh: Some(summary_token),
                            excerpts_refresh: None,
                        }
                    } else {
                        let token = self.update_stale_excerpts();
                        ProjectEventEffects {
                            notify: false,
                            summary_refresh: Some(summary_token),
                            excerpts_refresh: Some(token),
                        }
                    }
                } else {
                    ProjectEventEffects { notify: false, summary_refresh: None, excerpts_refresh: None }
                }
            },
            ProjectEvent::Other => {
                ProjectEventEffects { notify: false, summary_refresh: None, excerpts_refresh: None }
            },
        }
    }

    /// The timer of the counts' refresh `token` fired, and the project
    /// reports `summary`: the counts take it if the refresh is still the
    /// pending one. Returns whether they did.
    pub fn update_diagnostic_summary(&mut self, token: u64, summary: DiagnosticSummary) -> (applied: bool)
        requires
            old(self).wf(),
        ensures
            final(self).wf(),
            (applied, final(self).diagnostic_summary_task) == fired(old(self).diagnostic_summary_task, token),
            final(self).summary == if applied { summary } else { old(self).summary },
            final(self).project_path == old(self).project_path,
            final(self).diagnostics@ == old(self).diagnostics@,
            final(self).blocks@ == old(self).blocks@,
            final(self).excerpts@ == old(self).excerpts@,
            final(self).include_warnings == old(self).include_warnings,
            final(self).stale == old(self).stale,
            final(self).update_excerpts_task == old(self).update_excerpts_task,
            final(self).cargo_diagnostics_fetch@ == old(self).cargo_diagnostics_fetch@,
    {
        let applied = self.diagnostic_summary_task.fire(token);
        if applied {
            self.summary = summary;
        }
        applied
    }

    /// Whether the excerpts' refresh `token` is still the pending one, so
    /// that its timer, once fired, goes on to open the buffer.
    pub fn excerpts_refresh_is_current(&self, token: u64) -> (r: bool)
        ensures
            r == (self.update_excerpts_task.pending == Some(token)),
    {
        self.update_excerpts_task.is_current(token)
    }

    /// The buffer of the excerpts' refresh `token` could not be opened: the
    /// refresh is dropped and the display kept.
    pub fn abandon_excerpts_refresh(&mut self, token: u64)
        requires
            old(self).wf(),
        ensures
            final(self).wf(),
            final(self).update_excerpts_task == fired(old(self).update_excerpts_task, token).1,
            same_display(*old(self), *final(self)),
            final(self).stale == old(self).stale,
            final(self).diagnostic_summary_task == old(self).diagnostic_summary_task,
            final(self).cargo_diagnostics_fetch@ == old(self).cargo_diagnostics_fetch@,
    {
        let _ = self.update_excerpts_task.fire(token);
    }

    /// The maximum severity shown: warnings when they are included, else
    /// errors only.
    pub fn max_diagnostics_severity(include_warnings: bool) -> (r: Severity)
        ensures
            r == severity_threshold(include_warnings),
    {
        if include_warnings {
            Severity::Warning
        } else {
            Severity::Error
        }
    }

    /// The excerpts' refresh `token` read `diagnostics` from the buffer
    /// `snapshot`. If the refresh is still the pending one and the
    /// diagnostics are not those on display, the display is replaced: the
    /// diagnostics, their blocks and their excerpt regions.
    pub fn update_excerpts(
        &mut self,
        token: u64,
        diagnostics: Vec<DiagnosticEntry>,
        snapshot: &BufferSnapshot,
        panel_focused: bool,
    ) -> (r: ExcerptsOutcome)
        requires
            old(self).wf(),
            snapshot.wf(),
        ensures
            final(self).wf(),
            final(self).project_path == old(self).project_path,
            final(self).summary == old(self).summary,
            final(self).include_warnings == old(self).include_warnings,
            final(self).diagnostic_summary_task == old(self).diagnostic_summary_task,
            final(self).cargo_diagnostics_fetch@ == old(self).cargo_diagnostics_fetch@,
            final(self).update_excerpts_task == fired(old(self).update_excerpts_task, token).1,
            !fired(old(self).update_excerpts_task, token).0 ==> {
                &&& r == ExcerptsOutcome::Superseded
                &&& same_display(*old(self), *final(self))
                &&& final(self).stale == old(self).stale
            },
            fired(old(self).update_excerpts_task, token).0 ==> {
                &&& !final(self).stale
                &&& if same_diagnostics(old(self).diagnostics@, diagnostics@) {
                    &&& r == ExcerptsOutcome::Unchanged
                    &&& same_display(*old(self), *final(self))
                } else {
                    let appeared = old(self).excerpts@.len() == 0 && final(self).excerpts@.len() > 0;
                    &&& final(self).diagnostics@ == diagnostics@
                    &&& displays(final(self).blocks@, final(self).excerpts@, diagnostics@,
                        old(self).include_warnings, snapshot.line_lens@)
                    &&& r == ExcerptsOutcome::Updated {
                        select: if appeared { Some(final(self).excerpts@[0].primary.start) } else { None },
                        focus_editor: appeared && panel_focused,
                    }
                }
            },
    {
        if !self.update_excerpts_task.fire(token) {
            return ExcerptsOutcome::Superseded;
        }
        self.stale = false;
        if diagnostics_are_unchanged(&self.diagnostics, &diagnostics) {
            return ExcerptsOutcome::Unchanged;
        }
        let was_empty = self.excerpts.len() == 0;
        let max = Self::max_diagnostics_severity(self.include_warnings);
        let blocks = diagnostic_blocks(&diagnostics, max);
        let excerpts = excerpt_ranges(&blocks, snapshot);
        self.diagnostics = diagnostics;
        self.blocks = blocks;
        self.excerpts = excerpts;
        if was_empty && self.excerpts.len() > 0 {
            ExcerptsOutcome::Updated { select: Some(self.excerpts[0].primary.start), focus_editor: panel_focused }
        } else {
            ExcerptsOutcome::Updated { select: None, focus_editor: false }
        }
    }

    /// The panel took the focus: the editor takes it over when there is
    /// something to edit.
    pub fn focus_in(&self, panel_focused: bool) -> (focus_editor: bool)
        ensures
            focus_editor == (panel_focused && self.excerpts@.len() > 0),
    {
        panel_focused && self.excerpts.len() > 0
    }

    /// The focus moved: once it has left both the panel and its editor, the
    /// excerpts are refreshed.
    pub fn focus_out(&mut self, panel_focused: bool, editor_focused: bool) -> (r: Option<u64>)
        requires
            old(self).wf(),
        ensures
            final(self).wf(),
            same_display(*old(self), *final(self)),
            final(self).stale == old(self).stale,
            final(self).diagnostic_summary_task == old(self).diagnostic_summary_task,
            final(self).cargo_diagnostics_fetch@ == old(self).cargo_diagnostics_fetch@,
            if !panel_focused && !editor_focused {
                r matches Some(t) && (final(self).update_excerpts_task, t) == scheduled(old(self).update_excerpts_task)
            } else {
                r is None && final(self).update_excerpts_task == old(self).update_excerpts_task
            },
    {
        if !panel_focused && !editor_focused {
            Some(self.update_all_excerpts())
        } else {
            None
        }
    }

    /// An event of the embedded editor: focusing it while it has nothing to
    /// show sends the focus back to the panel; leaving it refreshes the
    /// excerpts.
    pub fn handle_editor_event(&mut self, event: EditorEvent) -> (r: EditorEventEffects)
        requires
            old(self).wf(),
        ensures
            final(self).wf(),
            same_display(*old(self), *final(self)),
            final(self).stale == old(self).stale,
            final(self).diagnostic_summary_task == old(self).diagnostic_summary_task,
            final(self).cargo_diagnostics_fetch@ == old(self).cargo_diagnostics_fetch@,
            match event {
                EditorEvent::Focused => {
                    &&& r == (EditorEventEffects { focus_panel: old(self).excerpts@.len() == 0, excerpts_refresh: None })
                    &&& final(self).update_excerpts_task == old(self).update_excerpts_task
                },
                EditorEvent::Blurred => {
                    &&& !r.focus_panel
                    &&& r.excerpts_refresh matches Some(t)
                        && (final(self).update_excerpts_task, t) == scheduled(old(self).update_excerpts_task)
                },
                EditorEvent::Other => {
                    &&& r == (EditorEventEffects { focus_panel: false, excerpts_refresh: None })
                    &&& final(self).update_excerpts_task == old(self).update_excerpts_task
                },
            },
    {
        match event {
            EditorEvent::Focused => EditorEventEffects { focus_panel: self.excerpts.len() == 0, excerpts_refresh: None },
            EditorEvent::Blurred => {
                let token = self.update_stale_excerpts();
                EditorEventEffects { focus_panel: false, excerpts_refresh: Some(token) }
            },
            EditorEvent::Other => EditorEventEffects { focus_panel: false, excerpts_refresh: None },
        }
    }

    /// The value that toggling sets for the process-wide "include warnings"
    /// setting: the opposite of this panel's.
    pub fn toggle_warnings(&self) -> (include_warnings: bool)
        ensures
            include_warnings == !self.include_warnings,
    {
        !self.include_warnings
    }

    /// The "include warnings" setting changed to `include_warnings`: the
    /// displayed diagnostics are forgotten, so that the next refresh rebuilds
    /// the display, and everything is brought up to date again.
    pub fn set_include_warnings(&mut self, include_warnings: bool, sources: Vec<ProjectPath>) -> (plan: RefreshPlan)
        requires
            old(self).wf(),
        ensures
            final(self).wf(),
            final(self).include_warnings == include_warnings,
            final(self).diagnostics@.len() == 0,
            refreshed_all(
                BufferDiagnosticsEditor {
                    include_warnings,
                    diagnostics: final(self).diagnostics,
                    ..*old(self)
                },
                *final(self),
                false,
                sources@,
                plan,
            ),
    {
        self.include_warnings = include_warnings;
        self.diagnostics.clear();
        self.update_all_diagnostics(false, sources)
    }

    /// The diagnostics on display: the panel shows one buffer, whichever
    /// buffer is asked for.
    pub fn get_diagnostics_for_buffer(&self, _buffer_id: u64) -> (r: Vec<DiagnosticEntry>)
        ensures
            r@ == self.diagnostics@,
    {
        duplicate_entries(&self.diagnostics)
    }

    /// Starts the external checks of `sources`, dropping whatever was
    /// tracked before; returns the batch's token, `None` when there is
    /// nothing to check.
    pub fn fetch_cargo_diagnostics(&mut self, sources: Vec<ProjectPath>) -> (token: Option<u64>)
        requires
            old(self).wf(),
        ensures
            final(self).wf(),
            (final(self).cargo_diagnostics_fetch@, token) == started(old(self).cargo_diagnostics_fetch@, sources@),
            same_display(*old(self), *final(self)),
            final(self).stale == old(self).stale,
            final(self).update_excerpts_task == old(self).update_excerpts_task,
            final(self).diagnostic_summary_task == old(self).diagnostic_summary_task,
    {
        self.cargo_diagnostics_fetch.fetch(sources)
    }

    /// Stops the external checks: returns the sources whose checks are to be
    /// cancelled, and the token of that cancellation.
    pub fn stop_cargo_diagnostics_fetch(&mut self) -> (r: (Vec<ProjectPath>, u64))
        requires
            old(self).wf(),
        ensures
            final(self).wf(),
            (final(self).cargo_diagnostics_fetch@, r.0@, r.1) == stopped(old(self).cargo_diagnostics_fetch@),
            same_display(*old(self), *final(self)),
            final(self).stale == old(self).stale,
            final(self).update_excerpts_task == old(self).update_excerpts_task,
            final(self).diagnostic_summary_task == old(self).diagnostic_summary_task,
    {
        self.cargo_diagnostics_fetch.stop()
    }

    /// Whether the excerpts may be out of date.
    pub fn has_stale_excerpts(&self) -> (r: bool)
        ensures
            r == self.stale,
    {
        self.stale
    }

    /// Whether checks are running or an excerpt refresh is pending.
    pub fn is_updating(&self) -> (r: bool)
        ensures
            r == (self.cargo_diagnostics_fetch@.running is Some || self.update_excerpts_task.pending is Some),
    {
        self.cargo_diagnostics_fetch.is_fetching() || self.update_excerpts_task.is_pending()
    }

    /// What the toolbar reads from the panel; `has_check_sources` tells
    /// whether there are files to check.
    pub fn toolbar_status(&self, has_check_sources: bool) -> (r: ToolbarStatus)
        ensures
            r == (ToolbarStatus {
                include_warnings: self.include_warnings,
                has_stale_excerpts: self.stale,
                is_updating: self.cargo_diagnostics_fetch@.running is Some || self.update_excerpts_task.pending is Some,
                has_check_sources,
            }),
    {
        ToolbarStatus {
            include_warnings: self.include_warnings,
            has_stale_excerpts: self.has_stale_excerpts(),
            is_updating: self.is_updating(),
            has_check_sources,
        }
    }

    /// The marks of the tab, from the counts whatever the threshold.
    pub fn tab_content(&self) -> (r: TabBadges)
        ensures
            r.clean == (self.summary.error_count == 0 && self.summary.warning_count == 0),
            r.errors == if self.summary.error_count > 0 { Some(self.summary.error_count) } else { None },
            r.warnings == if self.summary.warning_count > 0 { Some(self.summary.warning_count) } else { None },
    {
        let errors = if self.summary.error_count > 0 { Some(self.summary.error_count) } else { None };
        let warnings = if self.summary.warning_count > 0 { Some(self.summary.warning_count) } else { None };
        TabBadges { clean: self.summary.is_empty(), errors, warnings }
    }

    pub fn tab_content_text() -> (r: String)
        ensures
            r@ == "Buffer Diagnostics"@,
    {
        String::from_str("Buffer Diagnostics")
    }

    pub fn tab_tooltip_text(&self) -> (r: String)
        ensures
            r@ == "Buffer Diagnostics - "@ + self.project_path.path@,
    {
        String::from_str("Buffer Diagnostics - ").concat(self.project_path.path.as_str())
    }

    /// The panel's file can be saved through its editor.
    pub fn can_save(&self) -> (r: bool)
        ensures
            r,
    {
        true
    }

    pub fn breadcrumb_location(&self) -> (r: ToolbarItemLocation)
        ensures
            r == ToolbarItemLocation::PrimaryLeft,
    {
        ToolbarItemLocation::PrimaryLeft
    }

    /// What the panel shows: the editor while an error, or an included
    /// warning, is counted; otherwise a message, with a control to reveal the
    /// warnings where some are hidden.
    pub fn render(&self) -> (r: PanelContent)
        ensures
            ({
                let shown_warnings = if self.include_warnings { self.summary.warning_count } else { 0 };
                if self.summary.error_count > 0 || shown_warnings > 0 {
                    r is Editor
                } else {
                    r matches PanelContent::Empty { label, reveal_warnings }
                        && label@ == empty_label(self.summary, self.project_path.path@)
                        && if self.summary.warning_count > 0 {
                            reveal_warnings matches Some(text) && text@ == reveal_label(self.summary.warning_count as nat)
                        } else {
                            reveal_warnings is None
                        }
                }
            }),
    {
        let shown_warnings = if self.include_warnings { self.summary.warning_count } else { 0 };
        if self.summary.error_count > 0 || shown_warnings > 0 {
            PanelContent::Editor
        } else {
            let label = empty_label_text(self.summary, self.project_path.path.as_str());
            let reveal_warnings = if self.summary.warning_count > 0 {
                Some(reveal_label_text(self.summary.warning_count))
            } else {
                None
            };
            PanelContent::Empty { label, reveal_warnings }
        }
    }
}

/// The first of `panels` that shows `path`.
pub open spec fn first_panel_of(panels: Seq<ProjectPath>, path: ProjectPath, index: int) -> bool {
    &&& 0 <= index < panels.len()
    &&& panels[index].same_file(path)
    &&& forall|k: int| 0 <= k < index ==> !(#[trigger] panels[k]).same_file(path)
}

impl BufferDiagnosticsEditor {
    /// The deploy command, with the file of the active editor, the files of
    /// the panels open already, the process-wide "include warnings" value if
    /// it was set, and the configured default otherwise.
    pub fn deploy(
        active_path: Option<ProjectPath>,
        open_panels: &Vec<ProjectPath>,
        include_warnings_global: Option<bool>,
        include_warnings_setting: bool,
    ) -> (r: DeployAction)
        ensures
            active_path is None ==> r is Nothing,
            active_path is Some && (exists|i: int| first_panel_of(open_panels@, active_path->0, i)) ==> {
                &&& r is Activate
                &&& first_panel_of(open_panels@, active_path->0, r->index as int)
            },
            active_path is Some && !(exists|i: int| first_panel_of(open_panels@, active_path->0, i)) ==> {
                &&& r is Open
                &&& r->path == active_path->0
                &&& r->include_warnings == match include_warnings_global {
                    Some(v) => v,
                    None => include_warnings_setting,
                }
            },
    {
        match active_path {
            None => DeployAction::Nothing,
            Some(path) => {
                let mut i: usize = 0;
                while i < open_panels.len()
                    invariant
                        active_path == Some(path),
                        i <= open_panels@.len(),
                        forall|k: int| 0 <= k < i ==> !(#[trigger] open_panels@[k]).same_file(path),
                    decreases open_panels@.len() - i,
                {
                    if open_panels[i].is_same(&path) {
                        assert(active_path->0 == path);
                        assert(first_panel_of(open_panels@, active_path->0, i as int));
                        return DeployAction::Activate { index: i };
                    }
                    i = i + 1;
                }
                assert forall|j: int| !first_panel_of(open_panels@, path, j) by {
                    if 0 <= j < open_panels@.len() {
                        assert(!open_panels@[j].same_file(path));
                    }
                }
                let include_warnings = match include_warnings_global {
                    Some(v) => v,
                    None => include_warnings_setting,
                };
                DeployAction::Open { path, include_warnings }
            },
        }
    }

    /// The files whose external check refreshes the diagnostics: none when
    /// the setting is off, else, of each worktree (given as the paths of its
    /// entries, in order), its first Rust source file.
    pub fn cargo_diagnostics_sources(fetch_enabled: bool, worktrees: &Vec<Vec<ProjectPath>>) -> (r: Vec<ProjectPath>)
        ensures
            r@ == if fetch_enabled { rust_sources(worktrees@) } else { Seq::empty() },
    {
        let mut r: Vec<ProjectPath> = Vec::new();
        if !fetch_enabled {
            return r;
        }
        let mut i: usize = 0;
        while i < worktrees.len()
            invariant
                i <= worktrees@.len(),
                r@ == rust_sources(worktrees@.take(i as int)),
            decreases worktrees@.len() - i,
        {
            assert(worktrees@.take(i as int + 1).drop_last() == worktrees@.take(i as int));
            match first_rust_file(&worktrees[i]) {
                Some(p) => r.push(p),
                None => {},
            }
            i = i + 1;
        }
        assert(worktrees@.take(worktrees@.len() as int) == worktrees@);
        r
    }
}

/// A path whose extension is `rs`: it ends in `.rs`, and that dot does not
/// begin the file name.
pub open spec fn is_rust_path(p: Seq<char>) -> bool {
    &&& p.len() >= 4
    &&& p[p.len() - 3] == '.'
    &&& p[p.len() - 2] == 'r'
    &&& p[p.len() - 1] == 's'
    &&& p[p.len() - 4] != '/'
}

/// The first of `entries` that is a Rust source file.
pub open spec fn first_rust_entry(entries: Seq<ProjectPath>) -> Option<ProjectPath>
    decreases entries.len(),
{
    if entries.len() == 0 {
        None
    } else if is_rust_path(entries[0].path@) {
        Some(entries[0])
    } else {
        first_rust_entry(entries.drop_first())
    }
}

/// The first Rust source file of each worktree that has one, in order.
pub open spec fn rust_sources(worktrees: Seq<Vec<ProjectPath>>) -> Seq<ProjectPath>
    decreases worktrees.len(),
{
    if worktrees.len() == 0 {
        Seq::empty()
    } else {
        let rest = rust_sources(worktrees.drop_last());
        match first_rust_entry(worktrees.last()@) {
            Some(p) => rest.push(p),
            None => rest,
        }
    }
}

/// Whether `path` names a Rust source file.
pub fn is_rust_file(path: &str) -> (r: bool)
    ensures
        r == is_rust_path(path@),
{
    let n = path.unicode_len();
    n >= 4 && path.get_char(n - 3) == '.' && path.get_char(n - 2) == 'r' && path.get_char(n - 1) == 's'
        && path.get_char(n - 4) != '/'
}

/// The first of `entries` that is a Rust source file.
fn first_rust_file(entries: &Vec<ProjectPath>) -> (r: Option<ProjectPath>)
    ensures
        r == first_rust_entry(entries@),
{
    let mut i: usize = 0;
    assert(entries@.subrange(0, entries@.len() as int) == entries@);
    while i < entries.len()
        invariant
            i <= entries@.len(),
            first_rust_entry(entries@) == first_rust_entry(entries@.subrange(i as int, entries@.len() as int)),
        decreases entries@.len() - i,
    {
        let ghost rest = entries@.subrange(i as int, entries@.len() as int);
        assert(rest.drop_first() == entries@.subrange(i as int + 1, entries@.len() as int));
        assert(rest[0] == entries@[i as int]);
        if is_rust_file(entries[i].path.as_str()) {
            return Some(entries[i].duplicate());
        }
        i = i + 1;
    }
    None
}

} // verus!
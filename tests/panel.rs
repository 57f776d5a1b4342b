use buffer_diagnostics::change::diagnostics_are_unchanged;
use buffer_diagnostics::debounce::Debouncer;
use buffer_diagnostics::editor::{
    is_rust_file, BufferDiagnosticsEditor, DeployAction, EditorEvent, ExcerptsOutcome, PanelContent,
    ProjectEvent, RefreshPlan,
};
use buffer_diagnostics::excerpts::{context_range, diagnostic_blocks, excerpt_ranges, ExcerptRange};
use buffer_diagnostics::fetch::CargoDiagnosticsFetchState;
use buffer_diagnostics::model::{BufferSnapshot, DiagnosticEntry, Point, PointRange, ProjectPath, Severity};
use buffer_diagnostics::summary::{push_decimal, reveal_label_text, DiagnosticSummary};
use buffer_diagnostics::toolbar::{
    ButtonColor, DiagnosticsViewHandle, DiagnosticsViewKind, PaneItem, RefreshButton, ToolbarControls,
    ToolbarItemLocation, ToolbarStatus,
};

fn pt(row: u32, column: u32) -> Point {
    Point { row, column }
}

fn range(sr: u32, sc: u32, er: u32, ec: u32) -> PointRange {
    PointRange { start: pt(sr, sc), end: pt(er, ec) }
}

fn entry(r: PointRange, message: &str, severity: Severity, is_primary: bool, group_id: usize) -> DiagnosticEntry {
    DiagnosticEntry { range: r, message: message.to_string(), severity, is_primary, group_id }
}

fn path(worktree_id: u64, p: &str) -> ProjectPath {
    ProjectPath { worktree_id, path: p.to_string() }
}

fn snapshot(lines: usize, len: u32) -> BufferSnapshot {
    BufferSnapshot { line_lens: vec![len; lines] }
}

/// One error over rows 10 to 12 and one warning on row 20.
fn error_and_warning() -> Vec<DiagnosticEntry> {
    vec![
        entry(range(10, 0, 12, 4), "mismatched types", Severity::Error, true, 0),
        entry(range(20, 2, 20, 8), "unused variable", Severity::Warning, true, 1),
    ]
}

fn panel(include_warnings: bool, summary: DiagnosticSummary) -> BufferDiagnosticsEditor {
    let (editor, plan) =
        BufferDiagnosticsEditor::new(path(1, "src/main.rs"), include_warnings, summary, Vec::new());
    assert_eq!(plan, RefreshPlan::UpdateExcerpts { token: 0 });
    editor
}

#[test]
fn equal_fields_with_other_group_ids_are_unchanged() {
    let a = error_and_warning();
    let mut b = error_and_warning();
    b[0].group_id = 7;
    b[1].group_id = 9;
    assert!(diagnostics_are_unchanged(&a, &b));
    assert!(diagnostics_are_unchanged(&Vec::new(), &Vec::new()));
}

#[test]
fn any_differing_field_or_length_is_a_change() {
    let a = error_and_warning();
    let mut b = error_and_warning();
    b[1].message = "unused import".to_string();
    assert!(!diagnostics_are_unchanged(&a, &b));
    let mut c = error_and_warning();
    c[0].severity = Severity::Warning;
    assert!(!diagnostics_are_unchanged(&a, &c));
    let mut d = error_and_warning();
    d[0].is_primary = false;
    assert!(!diagnostics_are_unchanged(&a, &d));
    let mut e = error_and_warning();
    e[1].range = range(20, 2, 20, 9);
    assert!(!diagnostics_are_unchanged(&a, &e));
    let mut f = error_and_warning();
    f.pop();
    assert!(!diagnostics_are_unchanged(&a, &f));
    let mut g = error_and_warning();
    g.swap(0, 1);
    assert!(!diagnostics_are_unchanged(&a, &g));
}

#[test]
fn second_notification_supersedes_the_first() {
    let mut d = Debouncer::new();
    let t1 = d.schedule();
    let t2 = d.schedule();
    assert_ne!(t1, t2);
    assert!(!d.fire(t1));
    assert!(d.is_pending());
    assert!(d.fire(t2));
    assert!(!d.fire(t2));
    assert!(!d.fire(t1));
    assert!(!d.is_pending());
}

#[test]
fn token_wraps_after_the_largest() {
    let mut d = Debouncer { next_token: u64::MAX, pending: None };
    assert_eq!(d.schedule(), u64::MAX);
    assert_eq!(d.schedule(), 0);
    assert!(!d.fire(u64::MAX));
    assert!(d.fire(0));
}

#[test]
fn fetching_nothing_starts_nothing() {
    let mut f = CargoDiagnosticsFetchState::new();
    assert_eq!(f.fetch(Vec::new()), None);
    assert!(!f.is_fetching());
    assert!(f.diagnostic_sources.is_empty());
    assert!(f.cancel_task.is_none());
}

#[test]
fn batch_ends_after_both_sources_in_either_order() {
    for order in [[0usize, 1], [1, 0]] {
        let mut f = CargoDiagnosticsFetchState::new();
        let token = f.fetch(vec![path(1, "a/lib.rs"), path(2, "b/main.rs")]).unwrap();
        assert_eq!(f.diagnostic_sources.len(), 2);
        assert!(f.is_fetching());
        f.source_fetched(token, order[0]);
        assert!(f.is_fetching());
        f.source_fetched(token, order[0]);
        assert!(f.is_fetching());
        f.source_fetched(token, order[1]);
        assert!(!f.is_fetching());
    }
}

#[test]
fn new_batch_ignores_the_previous_one() {
    let mut f = CargoDiagnosticsFetchState::new();
    let first = f.fetch(vec![path(1, "a/lib.rs")]).unwrap();
    let second = f.fetch(vec![path(1, "a/lib.rs")]).unwrap();
    assert_ne!(first, second);
    f.source_fetched(first, 0);
    assert!(f.is_fetching());
    f.source_fetched(second, 5);
    assert!(f.is_fetching());
    f.source_fetched(second, 0);
    assert!(!f.is_fetching());
}

#[test]
fn stop_hands_out_sources_for_cancellation() {
    let mut f = CargoDiagnosticsFetchState::new();
    f.fetch(vec![path(1, "a/lib.rs"), path(2, "b/main.rs")]);
    let (sources, token) = f.stop();
    assert_eq!(sources.len(), 2);
    assert_eq!(sources[1].path, "b/main.rs");
    assert!(f.diagnostic_sources.is_empty());
    assert!(!f.is_fetching());
    assert_eq!(f.cancel_task, Some(token));
    f.cancel_finished(token.wrapping_add(1));
    assert_eq!(f.cancel_task, Some(token));
    f.cancel_finished(token);
    assert_eq!(f.cancel_task, None);
    f.fetch(vec![path(1, "a/lib.rs")]);
    f.stop();
    f.fetch(Vec::new());
    assert_eq!(f.cancel_task, None);
}

#[test]
fn errors_only_keeps_the_two_error_groups_in_range_order() {
    let entries = vec![
        entry(range(3, 0, 3, 5), "first error", Severity::Error, true, 10),
        entry(range(4, 0, 4, 1), "note", Severity::Hint, false, 10),
        entry(range(8, 0, 8, 5), "a warning", Severity::Warning, true, 20),
        entry(range(15, 0, 15, 5), "second error", Severity::Error, true, 30),
    ];
    let blocks = diagnostic_blocks(&entries, Severity::Error);
    let kept: Vec<(&str, usize)> = blocks.iter().map(|b| (b.message.as_str(), b.group_id)).collect();
    assert_eq!(kept, vec![("first error", 10), ("note", 10), ("second error", 30)]);
    let with_warnings = diagnostic_blocks(&entries, Severity::Warning);
    assert_eq!(with_warnings.len(), 4);
}

#[test]
fn blocks_are_ordered_by_range_and_keep_arrival_order_on_ties() {
    let entries = vec![
        entry(range(9, 0, 9, 2), "late", Severity::Error, true, 1),
        entry(range(2, 0, 2, 2), "early", Severity::Error, true, 2),
        entry(range(9, 0, 9, 2), "late twin", Severity::Error, true, 3),
        entry(range(2, 0, 2, 1), "earliest", Severity::Error, true, 4),
    ];
    let blocks = diagnostic_blocks(&entries, Severity::Error);
    let order: Vec<&str> = blocks.iter().map(|b| b.message.as_str()).collect();
    assert_eq!(order, vec!["earliest", "early", "late", "late twin"]);
}

#[test]
fn context_spans_two_lines_around_and_stays_in_the_buffer() {
    let s = snapshot(30, 40);
    assert_eq!(context_range(range(10, 3, 12, 4), &s), range(8, 0, 14, 40));
    assert_eq!(context_range(range(1, 3, 1, 4), &s), range(0, 0, 3, 40));
    assert_eq!(context_range(range(28, 0, 29, 1), &s), range(26, 0, 29, 40));
    let short = BufferSnapshot { line_lens: vec![5, 6, 7] };
    assert_eq!(context_range(range(2, 0, 2, 1), &short), range(0, 0, 2, 7));
    assert_eq!(context_range(range(50, 0, 60, 1), &short), range(2, 0, 2, 7));
}

#[test]
fn excerpts_are_ordered_by_context_then_primary() {
    let s = snapshot(30, 10);
    let blocks = vec![
        entry(range(1, 0, 1, 4), "a", Severity::Error, true, 0),
        entry(range(0, 0, 5, 0), "b", Severity::Error, true, 1),
        entry(range(2, 0, 2, 1), "c", Severity::Error, true, 2),
    ];
    let excerpts = excerpt_ranges(&blocks, &s);
    assert_eq!(
        excerpts,
        vec![
            ExcerptRange { context: range(0, 0, 3, 10), primary: range(1, 0, 1, 4) },
            ExcerptRange { context: range(0, 0, 4, 10), primary: range(2, 0, 2, 1) },
            ExcerptRange { context: range(0, 0, 7, 10), primary: range(0, 0, 5, 0) },
        ]
    );
}

#[test]
fn empty_project_shows_no_problems() {
    let mut editor = panel(false, DiagnosticSummary::new());
    match editor.render() {
        PanelContent::Empty { label, reveal_warnings } => {
            assert_eq!(label, "No problems in src/main.rs");
            assert!(reveal_warnings.is_none());
        }
        PanelContent::Editor => panic!("an empty file shows the editor"),
    }
    let outcome = editor.update_excerpts(0, Vec::new(), &snapshot(3, 5), false);
    assert_eq!(outcome, ExcerptsOutcome::Unchanged);
    assert!(editor.excerpts.is_empty());
    assert!(editor.blocks.is_empty());
    let badges = editor.tab_content();
    assert!(badges.clean);
    assert_eq!(badges.errors, None);
    assert_eq!(badges.warnings, None);
}

#[test]
fn errors_only_shows_one_region_and_counts_both() {
    let diagnostics = error_and_warning();
    let summary = DiagnosticSummary::of_entries(&diagnostics);
    assert_eq!(summary, DiagnosticSummary { error_count: 1, warning_count: 1 });
    let mut editor = panel(false, summary);
    let outcome = editor.update_excerpts(0, diagnostics, &snapshot(40, 30), true);
    assert_eq!(outcome, ExcerptsOutcome::Updated { select: Some(pt(10, 0)), focus_editor: true });
    assert_eq!(editor.excerpts, vec![ExcerptRange { context: range(8, 0, 14, 30), primary: range(10, 0, 12, 4) }]);
    let badges = editor.tab_content();
    assert!(!badges.clean);
    assert_eq!(badges.errors, Some(1));
    assert_eq!(badges.warnings, Some(1));
    assert!(matches!(editor.render(), PanelContent::Editor));
}

#[test]
fn including_warnings_adds_the_warning_region() {
    let diagnostics = error_and_warning();
    let summary = DiagnosticSummary::of_entries(&diagnostics);
    let mut editor = panel(false, summary);
    let s = snapshot(40, 30);
    editor.update_excerpts(0, error_and_warning(), &s, false);
    assert_eq!(editor.excerpts.len(), 1);
    let warnings_on = editor.toggle_warnings();
    assert!(warnings_on);
    let plan = editor.set_include_warnings(warnings_on, Vec::new());
    let token = match plan {
        RefreshPlan::UpdateExcerpts { token } => token,
        RefreshPlan::FetchChecks { .. } => panic!("nothing to check"),
    };
    assert!(editor.diagnostics.is_empty());
    let outcome = editor.update_excerpts(token, error_and_warning(), &s, false);
    assert_eq!(outcome, ExcerptsOutcome::Updated { select: None, focus_editor: false });
    assert_eq!(
        editor.excerpts,
        vec![
            ExcerptRange { context: range(8, 0, 14, 30), primary: range(10, 0, 12, 4) },
            ExcerptRange { context: range(18, 0, 22, 30), primary: range(20, 2, 20, 8) },
        ]
    );
    assert_eq!(editor.summary, DiagnosticSummary { error_count: 1, warning_count: 1 });
}

#[test]
fn hidden_warnings_offer_to_show_them() {
    let editor = panel(false, DiagnosticSummary { error_count: 0, warning_count: 1 });
    match editor.render() {
        PanelContent::Empty { label, reveal_warnings } => {
            assert_eq!(label, "No errors in src/main.rs");
            assert_eq!(reveal_warnings.as_deref(), Some("Show 1 warning"));
        }
        PanelContent::Editor => panic!("warnings are hidden"),
    }
    let editor = panel(false, DiagnosticSummary { error_count: 0, warning_count: 12 });
    match editor.render() {
        PanelContent::Empty { reveal_warnings, .. } => {
            assert_eq!(reveal_warnings.as_deref(), Some("Show 12 warnings"));
        }
        PanelContent::Editor => panic!("warnings are hidden"),
    }
    let shown = panel(true, DiagnosticSummary { error_count: 0, warning_count: 12 });
    assert!(matches!(shown.render(), PanelContent::Editor));
}

#[test]
fn decimal_text_of_counts() {
    assert_eq!(reveal_label_text(0), "Show 0 warnings");
    assert_eq!(reveal_label_text(1), "Show 1 warning");
    assert_eq!(reveal_label_text(1024), "Show 1024 warnings");
    let mut s = String::from("n=");
    push_decimal(&mut s, usize::MAX);
    assert_eq!(s, format!("n={}", usize::MAX));
}

#[test]
fn summary_counts_primary_entries_only() {
    let entries = vec![
        entry(range(1, 0, 1, 1), "e", Severity::Error, true, 0),
        entry(range(1, 0, 1, 1), "related", Severity::Error, false, 0),
        entry(range(2, 0, 2, 1), "w", Severity::Warning, true, 1),
        entry(range(3, 0, 3, 1), "w2", Severity::Warning, true, 2),
        entry(range(4, 0, 4, 1), "i", Severity::Information, true, 3),
    ];
    let s = DiagnosticSummary::of_entries(&entries);
    assert_eq!(s, DiagnosticSummary { error_count: 1, warning_count: 2 });
    assert!(!s.is_empty());
    assert!(DiagnosticSummary::new().is_empty());
}

#[test]
fn first_launch_with_sources_runs_the_checks() {
    let sources = vec![path(1, "src/lib.rs")];
    let (editor, plan) =
        BufferDiagnosticsEditor::new(path(1, "src/main.rs"), true, DiagnosticSummary::new(), sources);
    assert_eq!(plan, RefreshPlan::FetchChecks { token: 0 });
    assert!(editor.is_updating());
    let (editor, plan) = BufferDiagnosticsEditor::new(
        path(1, "src/main.rs"),
        true,
        DiagnosticSummary { error_count: 2, warning_count: 0 },
        vec![path(1, "src/lib.rs")],
    );
    assert_eq!(plan, RefreshPlan::UpdateExcerpts { token: 0 });
    assert!(editor.cargo_diagnostics_fetch.fetch_task.is_none());
}

#[test]
fn update_for_this_file_refreshes_counts_and_excerpts() {
    let mut editor = panel(false, DiagnosticSummary::new());
    let event = ProjectEvent::DiagnosticsUpdated { path: path(1, "src/main.rs"), language_server_id: 3 };
    let effects = editor.handle_project_event(&event, false);
    assert!(!effects.notify);
    let summary_token = effects.summary_refresh.unwrap();
    let excerpts_token = effects.excerpts_refresh.unwrap();
    assert!(!editor.excerpts_refresh_is_current(0));
    assert!(editor.excerpts_refresh_is_current(excerpts_token));
    assert!(editor.update_diagnostic_summary(summary_token, DiagnosticSummary { error_count: 4, warning_count: 0 }));
    assert_eq!(editor.summary.error_count, 4);
    assert!(!editor.update_diagnostic_summary(summary_token, DiagnosticSummary::new()));
    assert_eq!(editor.summary.error_count, 4);
}

#[test]
fn update_while_focused_marks_excerpts_stale() {
    let mut editor = panel(false, DiagnosticSummary::new());
    let pending = editor.update_excerpts_task.pending;
    let event = ProjectEvent::DiagnosticsUpdated { path: path(1, "src/main.rs"), language_server_id: 3 };
    let effects = editor.handle_project_event(&event, true);
    assert!(effects.summary_refresh.is_some());
    assert_eq!(effects.excerpts_refresh, None);
    assert!(editor.has_stale_excerpts());
    assert_eq!(editor.update_excerpts_task.pending, pending);
    assert_eq!(editor.focus_out(false, true), None);
    let token = editor.focus_out(false, false).unwrap();
    editor.update_excerpts(token, error_and_warning(), &snapshot(40, 10), false);
    assert!(!editor.has_stale_excerpts());
}

#[test]
fn other_files_and_events_are_ignored() {
    let mut editor = panel(false, DiagnosticSummary::new());
    let before = editor.update_excerpts_task.pending;
    let other = ProjectEvent::DiagnosticsUpdated { path: path(2, "src/main.rs"), language_server_id: 1 };
    let effects = editor.handle_project_event(&other, false);
    assert!(!effects.notify && effects.summary_refresh.is_none() && effects.excerpts_refresh.is_none());
    let effects = editor.handle_project_event(&ProjectEvent::Other, false);
    assert!(effects.summary_refresh.is_none() && effects.excerpts_refresh.is_none());
    assert_eq!(editor.update_excerpts_task.pending, before);
    let started = editor.handle_project_event(&ProjectEvent::DiskBasedDiagnosticsStarted { language_server_id: 1 }, false);
    assert!(started.notify);
    let finished =
        editor.handle_project_event(&ProjectEvent::DiskBasedDiagnosticsFinished { language_server_id: 1 }, true);
    assert!(finished.excerpts_refresh.is_some());
}

#[test]
fn superseded_excerpt_refresh_changes_nothing() {
    let mut editor = panel(true, DiagnosticSummary::new());
    let first = editor.update_stale_excerpts();
    let second = editor.update_all_excerpts();
    let s = snapshot(40, 10);
    assert_eq!(editor.update_excerpts(first, error_and_warning(), &s, false), ExcerptsOutcome::Superseded);
    assert!(editor.excerpts.is_empty());
    assert!(editor.diagnostics.is_empty());
    assert_eq!(
        editor.update_excerpts(second, error_and_warning(), &s, false),
        ExcerptsOutcome::Updated { select: Some(pt(10, 0)), focus_editor: false }
    );
    assert_eq!(editor.excerpts.len(), 2);
    assert_eq!(editor.get_diagnostics_for_buffer(0).len(), 2);
    let again = editor.update_stale_excerpts();
    assert_eq!(editor.update_excerpts(again, error_and_warning(), &s, false), ExcerptsOutcome::Unchanged);
    let failed = editor.update_stale_excerpts();
    editor.abandon_excerpts_refresh(failed);
    assert!(!editor.excerpts_refresh_is_current(failed));
    assert_eq!(editor.excerpts.len(), 2);
}

#[test]
fn focus_moves_between_panel_and_editor() {
    let mut editor = panel(true, DiagnosticSummary::new());
    assert!(!editor.focus_in(true));
    let effects = editor.handle_editor_event(EditorEvent::Focused);
    assert!(effects.focus_panel);
    let token = editor.update_stale_excerpts();
    editor.update_excerpts(token, error_and_warning(), &snapshot(40, 10), false);
    assert!(editor.focus_in(true));
    assert!(!editor.focus_in(false));
    assert!(!editor.handle_editor_event(EditorEvent::Focused).focus_panel);
    let blurred = editor.handle_editor_event(EditorEvent::Blurred);
    assert!(blurred.excerpts_refresh.is_some());
    assert_eq!(editor.handle_editor_event(EditorEvent::Other).excerpts_refresh, None);
}

#[test]
fn panel_text_and_severity_threshold() {
    let editor = panel(false, DiagnosticSummary::new());
    assert_eq!(BufferDiagnosticsEditor::tab_content_text(), "Buffer Diagnostics");
    assert_eq!(editor.tab_tooltip_text(), "Buffer Diagnostics - src/main.rs");
    assert!(editor.can_save());
    assert_eq!(editor.breadcrumb_location(), ToolbarItemLocation::PrimaryLeft);
    assert_eq!(BufferDiagnosticsEditor::max_diagnostics_severity(true), Severity::Warning);
    assert_eq!(BufferDiagnosticsEditor::max_diagnostics_severity(false), Severity::Error);
    assert!(editor.toggle_warnings());
}

#[test]
fn deploy_activates_an_open_panel_or_opens_one() {
    let open = vec![path(1, "src/lib.rs"), path(1, "src/main.rs"), path(1, "src/main.rs")];
    assert!(matches!(BufferDiagnosticsEditor::deploy(None, &open, Some(true), false), DeployAction::Nothing));
    match BufferDiagnosticsEditor::deploy(Some(path(1, "src/main.rs")), &open, None, false) {
        DeployAction::Activate { index } => assert_eq!(index, 1),
        _ => panic!("the panel is open"),
    }
    match BufferDiagnosticsEditor::deploy(Some(path(2, "src/main.rs")), &open, None, true) {
        DeployAction::Open { path: p, include_warnings } => {
            assert_eq!(p.worktree_id, 2);
            assert!(include_warnings);
        }
        _ => panic!("no panel shows that file"),
    }
    match BufferDiagnosticsEditor::deploy(Some(path(2, "x.rs")), &open, Some(false), true) {
        DeployAction::Open { include_warnings, .. } => assert!(!include_warnings),
        _ => panic!("no panel shows that file"),
    }
}

#[test]
fn check_sources_are_the_first_rust_file_of_each_worktree() {
    let worktrees = vec![
        vec![path(1, "README.md"), path(1, ".rs"), path(1, "src/main.rs"), path(1, "src/lib.rs")],
        vec![path(2, "docs/.rs"), path(2, "notes.rsx")],
        vec![path(3, "build.rs")],
    ];
    let sources = BufferDiagnosticsEditor::cargo_diagnostics_sources(true, &worktrees);
    let found: Vec<(u64, &str)> = sources.iter().map(|p| (p.worktree_id, p.path.as_str())).collect();
    assert_eq!(found, vec![(1, "src/main.rs"), (3, "build.rs")]);
    assert!(BufferDiagnosticsEditor::cargo_diagnostics_sources(false, &worktrees).is_empty());
    assert!(is_rust_file("a..rs"));
    assert!(is_rust_file("ünï/ç.rs"));
    assert!(!is_rust_file("rs"));
    assert!(!is_rust_file("a.RS"));
}

#[test]
fn stopping_the_panel_checks() {
    let (mut editor, plan) = BufferDiagnosticsEditor::new(
        path(1, "src/main.rs"),
        false,
        DiagnosticSummary::new(),
        vec![path(1, "src/lib.rs"), path(2, "main.rs")],
    );
    assert_eq!(plan, RefreshPlan::FetchChecks { token: 0 });
    assert!(editor.toolbar_status(true).is_updating);
    let (sources, _) = editor.stop_cargo_diagnostics_fetch();
    assert_eq!(sources.len(), 2);
    assert!(!editor.is_updating());
    assert_eq!(editor.fetch_cargo_diagnostics(Vec::new()), None);
    assert!(editor.fetch_cargo_diagnostics(vec![path(1, "src/lib.rs")]).is_some());
}

#[test]
fn toolbar_follows_diagnostics_panels() {
    let mut toolbar = ToolbarControls::new();
    assert_eq!(toolbar.editor(), None);
    assert!(ToolbarControls::default().editor().is_none());
    let status = ToolbarStatus { include_warnings: true, has_stale_excerpts: false, is_updating: true, has_check_sources: false };
    let idle = toolbar.render(status);
    assert_eq!(idle.refresh, RefreshButton::Refresh { enabled: false });
    assert_eq!(idle.warnings_color, ButtonColor::Muted);
    assert_eq!(idle.warnings_tooltip, "Include Warnings");
    let item = PaneItem { id: 7, diagnostics_view: Some(DiagnosticsViewKind::Buffer) };
    assert_eq!(toolbar.set_active_pane_item(Some(item)), ToolbarItemLocation::PrimaryRight);
    assert_eq!(toolbar.editor(), Some(DiagnosticsViewHandle { kind: DiagnosticsViewKind::Buffer, id: 7 }));
    let busy = toolbar.render(status);
    assert_eq!(busy.refresh, RefreshButton::Stop);
    assert_eq!(busy.warnings_color, ButtonColor::Warning);
    assert_eq!(busy.warnings_tooltip, "Exclude Warnings");
    let stale = ToolbarStatus { include_warnings: false, has_stale_excerpts: true, is_updating: false, has_check_sources: false };
    assert_eq!(toolbar.render(stale).refresh, RefreshButton::Refresh { enabled: true });
    let other = PaneItem { id: 8, diagnostics_view: None };
    assert_eq!(toolbar.set_active_pane_item(Some(other)), ToolbarItemLocation::Hidden);
    assert_eq!(toolbar.set_active_pane_item(None), ToolbarItemLocation::Hidden);
    assert_eq!(toolbar.editor().map(|h| h.id), Some(7));
}

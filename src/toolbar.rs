//! The toolbar of the diagnostics panels: which panel it controls, and the
//! state of its refresh and warnings buttons.
use vstd::prelude::*;

verus! {

/// Where a toolbar item is shown.
#[derive(Clone, Copy, Debug, PartialEq, Eq, Structural)]
pub enum ToolbarItemLocation {
    Hidden,
    PrimaryLeft,
    PrimaryRight,
}

/// The two kinds of diagnostics panel: the whole project, or one file.
#[derive(Clone, Copy, Debug, PartialEq, Eq, Structural)]
pub enum DiagnosticsViewKind {
    Project,
    Buffer,
}

/// A diagnostics panel that the toolbar controls.
#[derive(Clone, Copy, Debug, PartialEq, Eq, Structural)]
pub struct DiagnosticsViewHandle {
    pub kind: DiagnosticsViewKind,
    pub id: u64,
}

/// The item that became active in a pane: its id, and which kind of
/// diagnostics panel it is, if it is one.
#[derive(Clone, Copy, Debug, PartialEq, Eq, Structural)]
pub struct PaneItem {
    pub id: u64,
    pub diagnostics_view: Option<DiagnosticsViewKind>,
}

/// What the toolbar reads from the panel it controls.
#[derive(Clone, Copy, Debug, PartialEq, Eq, Structural)]
pub struct ToolbarStatus {
    pub include_warnings: bool,
    pub has_stale_excerpts: bool,
    pub is_updating: bool,
    pub has_check_sources: bool,
}

/// The first button: stop an update under way, or start a refresh.
#[derive(Clone, Copy, Debug, PartialEq, Eq, Structural)]
pub enum RefreshButton {
    Stop,
    Refresh { enabled: bool },
}

#[derive(Clone, Copy, Debug, PartialEq, Eq, Structural)]
pub enum ButtonColor {
    Warning,
    Muted,
}

/// The buttons of the toolbar as they are drawn.
pub struct ToolbarButtons {
    pub refresh: RefreshButton,
    pub warnings_color: ButtonColor,
    pub warnings_tooltip: String,
}

pub struct ToolbarControls {
    pub editor: Option<DiagnosticsViewHandle>,
}

/// The status the toolbar acts on: the panel's, or nothing set when it
/// controls no panel.
pub open spec fn effective_status(editor: Option<DiagnosticsViewHandle>, status: ToolbarStatus) -> ToolbarStatus {
    if editor is Some {
        status
    } else {
        ToolbarStatus {
            include_warnings: false,
            has_stale_excerpts: false,
            is_updating: false,
            has_check_sources: false,
        }
    }
}

impl ToolbarControls {
    pub fn new() -> (r: ToolbarControls)
        ensures
            r.editor is None,
    {
        ToolbarControls { editor: None }
    }

    /// The panel the toolbar controls, if any.
    pub fn editor(&self) -> (r: Option<DiagnosticsViewHandle>)
        ensures
            r == self.editor,
    {
        self.editor
    }

    /// A new item became active: the toolbar follows it if it is a
    /// diagnostics panel and shows on the right, and hides otherwise.
    pub fn set_active_pane_item(&mut self, item: Option<PaneItem>) -> (r: ToolbarItemLocation)
        ensures
            match item {
                Some(PaneItem { id, diagnostics_view: Some(kind) }) => {
                    &&& final(self).editor == Some(DiagnosticsViewHandle { kind, id })
                    &&& r == ToolbarItemLocation::PrimaryRight
                },
                _ => {
                    &&& final(self).editor == old(self).editor
                    &&& r == ToolbarItemLocation::Hidden
                },
            },
    {
        match item {
            Some(PaneItem { id, diagnostics_view: Some(kind) }) => {
                self.editor = Some(DiagnosticsViewHandle { kind, id });
                ToolbarItemLocation::PrimaryRight
            },
            _ => ToolbarItemLocation::Hidden,
        }
    }

    /// The buttons for the controlled panel's `status`. While the panel
    /// updates, the first button stops it; otherwise it refreshes, and is
    /// enabled when excerpts are stale or there are sources to check. The
    /// warnings button shows whether warnings are included.
    pub fn render(&self, status: ToolbarStatus) -> (r: ToolbarButtons)
        ensures
            ({
                let s = effective_status(self.editor, status);
                &&& r.refresh == if s.is_updating {
                    RefreshButton::Stop
                } else {
                    RefreshButton::Refresh { enabled: s.has_stale_excerpts || s.has_check_sources }
                }
                &&& r.warnings_color == if s.include_warnings { ButtonColor::Warning } else { ButtonColor::Muted }
                &&& r.warnings_tooltip@ == if s.include_warnings {
                    "Exclude Warnings"@
                } else {
                    "Include Warnings"@
                }
            }),
    {
        let s = if self.editor.is_some() {
            status
        } else {
            ToolbarStatus {
                include_warnings: false,
                has_stale_excerpts: false,
                is_updating: false,
                has_check_sources: false,
            }
        };
        let refresh = if s.is_updating {
            RefreshButton::Stop
        } else {
            RefreshButton::Refresh { enabled: s.has_stale_excerpts || s.has_check_sources }
        };
        if s.include_warnings {
            ToolbarButtons {
                refresh,
                warnings_color: ButtonColor::Warning,
                warnings_tooltip: String::from_str("Exclude Warnings"),
            }
        } else {
            ToolbarButtons {
                refresh,
                warnings_color: ButtonColor::Muted,
                warnings_tooltip: String::from_str("Include Warnings"),
            }
        }
    }
}

impl Default for ToolbarControls {
    fn default() -> (r: ToolbarControls)
        ensures
            r.editor is None,
    {
        ToolbarControls::new()
    }
}

} // verus!

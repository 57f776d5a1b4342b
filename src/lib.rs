//! Coordination logic of a diagnostics panel that shows the problems reported
//! for one file: change detection, debounced refreshes, the external check
//! coordinator, grouping and filtering of diagnostics into excerpt regions,
//! and the presentation decisions of the panel and its toolbar.
pub mod model;
pub mod change;
pub mod excerpts;
pub mod debounce;
pub mod fetch;
pub mod summary;
pub mod toolbar;
pub mod editor;

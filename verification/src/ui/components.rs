use vstd::prelude::*;
use crate::text::owned;

pub mod commit_list;
pub mod error_dialog;
pub mod log_viewer;

verus! {

/// The settings of the diff panel.
#[derive(Debug, Clone, Copy, PartialEq, Eq, Structural)]
pub struct DiffViewer {
    pub show_line_numbers: bool,
    pub syntax_highlighting: bool,
}

impl DiffViewer {
    /// A diff panel with line numbers and highlighting switched on.
    pub fn new() -> (r: DiffViewer)
        ensures
            r.show_line_numbers,
            r.syntax_highlighting,
    {
        DiffViewer { show_line_numbers: true, syntax_highlighting: true }
    }
}

/// The state of the file tree panel.
#[derive(Debug, Clone)]
pub struct FileTree {
    pub expanded_folders: Vec<String>,
    pub selected_file: Option<String>,
}

impl FileTree {
    /// A file tree with nothing expanded and nothing selected.
    pub fn new() -> (r: FileTree)
        ensures
            r.expanded_folders@.len() == 0,
            r.selected_file is None,
    {
        FileTree { expanded_folders: Vec::new(), selected_file: None }
    }
}

/// What the status bar shows.
#[derive(Debug, Clone)]
pub struct StatusBar {
    pub current_branch: String,
    pub uncommitted_changes: usize,
}

impl StatusBar {
    /// A status bar on branch "main" with no changes.
    pub fn new() -> (r: StatusBar)
        ensures
            r.current_branch@ == "main"@,
            r.uncommitted_changes == 0,
    {
        StatusBar { current_branch: owned("main"), uncommitted_changes: 0 }
    }
}

} // verus!

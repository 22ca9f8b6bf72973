//! Verified core of a terminal tool that stages everything, shows the staged
//! diff and commits: diff parsing, patch building, undoable commands and the
//! screen state machine.
pub mod text;
pub mod git;
pub mod hunk_layout;
pub mod file_starts;
pub mod git_patch;
pub mod git_flows;
pub mod app_state;
pub mod background;
pub mod cursor_state;
pub mod ui;
pub mod command;
pub mod external_command;

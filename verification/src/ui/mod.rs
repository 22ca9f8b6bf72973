//! The screen: keys, the text inputs, scrolling, the two panes and the
//! top-level handling of a key.
pub mod commit_view;
pub mod diff_view;
pub mod keyboard;
pub mod layout;
pub mod main_screen;
pub mod scroll;
pub mod update;

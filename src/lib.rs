//! Editing engine of a terminal text editor: grapheme-aware lines, a text
//! buffer, the cursor and viewport algebra, and the decisions of the editing
//! modes.
pub mod position;
pub mod line;
pub mod buffer;
pub mod commands;
pub mod search;
pub mod highlight;
pub mod view;
pub mod vim;
pub mod help;

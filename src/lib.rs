//! The editing core of a modal terminal text editor: grapheme-aware lines,
//! a document buffer, selections, and the view that ties cursor, viewport
//! and editing modes together.

pub mod position;
pub mod line;
pub mod buffer;
pub mod selection;
pub mod editorcommand;
pub mod view;
pub mod statusbar;
pub mod editor;

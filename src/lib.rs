//! The rendering and input core of a terminal text editor: a terminal session that
//! buffers screen and cursor commands and hands them out in flushed batches, a
//! renderer for the rows of an empty editing surface with a centered welcome banner,
//! and the editor state that the quit chord moves from running to quitting.
pub mod editor;
pub mod geometry;
pub mod input;
pub mod render;
pub mod terminal;

pub use editor::Editor;
pub use geometry::{Position, Size};
pub use input::{Event, KeyCode, KeyEvent, KeyModifiers};
pub use render::{welcome_line, welcome_message};
pub use terminal::{Command, Phase, Terminal};

//! A live terminal console: a canvas of components redrawn in place at the
//! bottom of the terminal, below a log of emitted lines that scrolls above it.

pub mod ansi;
pub mod console;
pub mod content;
pub mod dimensions;
mod error;
pub mod output;

pub use console::{
    choose_size, emit_limit, frame_height, Component, SuperConsole, MAX_CANVAS_HEIGHT, MINIMUM_EMIT,
};
pub use content::{is_big, render_lines, Line, MAX_GRAPHEME_BUFFER};
pub use dimensions::{Dimensions, DrawMode};
pub use output::SuperConsoleOutput;

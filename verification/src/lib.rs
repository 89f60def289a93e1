//! Building yt-dlp command lines, reading its progress output, and the
//! state that the terminal and desktop front ends keep while a download runs.

pub mod digits;
pub mod text;
pub mod options;
pub mod monitor;
pub mod pattern;
pub mod progress;
pub mod args;
pub mod terminal;
pub mod cli;
pub mod clock;
pub mod gui_state;

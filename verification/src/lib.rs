//! A live pager: a scrollable window over the lines of a text file that follows
//! the file as it changes on disk.

pub mod error;
pub mod file_reader;
pub mod input;
pub mod pager;
pub mod render;
pub mod text;
pub mod view_state;
pub mod watcher;

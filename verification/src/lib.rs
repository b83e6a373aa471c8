//! A file browser for the terminal, without the terminal: the state behind
//! the screen, the operations the keys stand for, and what is to be drawn.
//! The file system is left to the caller, who carries out the requests
//! that the browser hands out and hands the outcomes back.

pub mod entry;
pub mod input_handler;
pub mod laws;
pub mod manager;
pub mod model;
pub mod path;
pub mod request;
pub mod screen;
pub mod search;
pub mod text;

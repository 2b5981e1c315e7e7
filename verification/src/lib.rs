//! Opens one terminal tab per subdirectory of a parent directory.
//!
//! The library holds the decisions and performs no input or output itself:
//! which directories a session covers, and which commands a terminal is to
//! be driven with. Its callers read the file system, start the processes,
//! and pass in what they found.

pub mod command;
pub mod dirspread;
pub mod dirspread_error;
pub mod run;
pub mod terminals;
pub mod theorems;

pub use command::Command;
pub use dirspread::{
    get_terminal, ConfigFile, Directory, Dirspread, Entry, Terminal, CONFIG_FILE_NAME,
    KITTY_WINDOW_ID,
};
pub use dirspread_error::{DirspreadError, Failure};
pub use run::{Run, Step};
pub use terminals::kitty::Kitty;
pub use terminals::macos::Macos;
pub use terminals::terminal_interface::{TerminalInterface, TerminalScript};

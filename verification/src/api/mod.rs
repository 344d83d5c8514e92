//! What the script functions decide before anything touches the machine.

pub mod cmd;
pub mod fs;
pub mod git;
pub mod regex;
pub mod util;

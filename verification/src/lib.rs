//! Building blocks of the `riji` scripting tool.
//!
//! The heart of the crate is [`ref_cell`]: a cell that tracks shared and
//! exclusive holds on its value at run time, with guards that can carry a
//! value derived from the cell. [`owner`] counts the handles that keep such
//! a cell alive. [`api`] holds what the script functions work out before
//! anything touches the machine: command lines, search paths, patch text,
//! machine identifiers and regular expressions.

pub mod api;
pub mod owner;
pub mod ref_cell;

//! An interactive command shell's core: a registry of commands and aliases,
//! the grammar that splits an input line into commands, the key-driven
//! switch of the log sink, and the read loop's decisions. Terminal input,
//! history files, logging and the command handlers themselves are left to
//! the host, which acts on the values these functions return.

use vstd::prelude::*;

pub mod commands;
pub mod dispatch;
pub mod parse;
pub mod registry;
pub mod session;
pub mod toggle;

verus! {

} // verus!

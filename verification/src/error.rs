//! What can go wrong with a hash chain.

use vstd::prelude::*;

verus! {

/// Kind of an error, with a text that says what happened.
#[derive(Debug)]
pub enum ErrorKind {
    /// The serial line cannot run at the requested speed.
    BaudRate(String),
    /// A hashboard, given by its index, cannot be used.
    Hashboard(usize, String),
    /// The chips on the chain are not the expected ones.
    Hashchip(String),
    /// A component runs an unexpected version: its name, the version that was
    /// found and the one that was expected.
    UnexpectedVersion(String, String, String),
}

} // verus!

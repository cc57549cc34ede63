//! Errors of the interpreter.
use vstd::prelude::*;

verus! {

/// What can go wrong while loading or running a program.
#[derive(Debug, PartialEq, Eq)]
pub enum InterpreterError {
    /// A console read or write failed.
    IoError(String),
    /// A number typed at the console could not be read.
    ParseError(String),
    /// A worker could not be started or joined.
    ThreadError(String),
    /// A lock was poisoned.
    LockError(String),
    /// The program file does not exist.
    FileNotFound(String),
    /// The program file could not be read.
    FileReadError(String),
    /// A plane access at `(x, y)` fell outside the stored cells.
    OutOfBounds(usize, usize),
}

} // verus!

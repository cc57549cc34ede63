//! The leaf operations of the language and what they hand back to the scheduler.
use vstd::prelude::*;
use crate::errors::InterpreterError;
use crate::ip_state::{IPState, IPView};

pub mod arithmetic;
pub mod flow;
pub mod io;
pub mod reflect;
pub mod stack;

verus! {

/// A warning for the diagnostic channel; execution goes on after it.
#[derive(Clone, Copy, Debug, PartialEq, Eq, Structural)]
pub enum Diagnostic {
    DivisionByZero,
    ModuloByZero,
}

/// What a command asks of the world outside the pointer and the plane.
#[derive(Debug)]
pub enum Effect {
    /// Nothing.
    Silent,
    /// Text for the output channel.
    Output(Vec<char>),
    /// A warning for the diagnostic channel.
    Diagnostic(Diagnostic),
    /// A new pointer to schedule, already moved off the forking cell.
    Spawn(IPState),
    /// An error that stops the pointer's worker.
    Fault(InterpreterError),
}

/// What the console handed back for `&` or `~`; `None` where the read failed.
#[derive(Clone, Copy, Debug, PartialEq, Eq, Structural)]
pub enum Reading {
    /// Nothing was read.
    Nothing,
    /// The result of reading a number.
    Number(Option<usize>),
    /// The result of reading a character.
    Character(Option<char>),
}

/// The number a reading holds for `&`; `None` where no number was read.
pub open spec fn read_number(r: Reading) -> Option<usize> {
    match r {
        Reading::Number(n) => n,
        _ => None,
    }
}

/// The character a reading holds for `~`; `None` where no character was read.
pub open spec fn read_char(r: Reading) -> Option<char> {
    match r {
        Reading::Character(c) => c,
        _ => None,
    }
}

/// The abstract value of an `Effect`.
pub enum EffectView {
    Silent,
    Output(Seq<char>),
    Diagnostic(Diagnostic),
    Spawn(IPView),
    Fault(InterpreterError),
}

impl View for Effect {
    type V = EffectView;

    open spec fn view(&self) -> EffectView {
        match self {
            Effect::Silent => EffectView::Silent,
            Effect::Output(t) => EffectView::Output(t@),
            Effect::Diagnostic(d) => EffectView::Diagnostic(*d),
            Effect::Spawn(ip) => EffectView::Spawn(ip@),
            Effect::Fault(e) => EffectView::Fault(*e),
        }
    }
}

} // verus!

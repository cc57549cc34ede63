//! An interpreter for a two-dimensional stack language in the Befunge-93 family, whose
//! instruction pointers can fork and run side by side on one self-modifying plane.
//!
//! The library holds the machine itself: pointer state, the plane, the command table,
//! every command, the tick that fetches and dispatches one cell, and a deterministic
//! scheduler. Console I/O and threads are left to the caller, which hands each tick the
//! console reading it asked for and carries out the `Effect` it returns.
pub mod cell;
pub mod code_grid;
pub mod command_registry;
pub mod commands;
pub mod direction;
pub mod engine;
pub mod errors;
pub mod ip_state;
pub mod laws;
pub mod scheduler;
pub mod seeding;
pub mod source;

pub use code_grid::CodeGrid;
pub use command_registry::{Command, CommandRegistry};
pub use commands::arithmetic::{
    AddCommand, DivideCommand, GraterThanCommand, LogicalNotCommand, ModuloCommand,
    MultiplyCommand, SubtractCommand,
};
pub use commands::flow::{
    DownCommand, HorizontalIfCommand, LeftCommand, MoveCommand, RightCommand, StringModeCommand,
    TerminateCommand, ThreadCommand, UpCommand, VerticalIfCommand,
};
pub use commands::io::{PrintCharCommand, PrintNumberCommand, ReadCharacterCommand, ReadNumberCommand};
pub use commands::reflect::{GetCommand, PutCommand};
pub use commands::stack::{DigitCommand, DropCommand, DuplicateTopCommand, SwapCommand};
pub use commands::{Diagnostic, Effect, Reading};
pub use direction::Direction;
pub use engine::{execute_cell, input_request, tick, InputRequest};
pub use errors::InterpreterError;
pub use ip_state::{IPState, PLANE_H, PLANE_W};
pub use scheduler::Machine;
pub use seeding::get_initial_ips;

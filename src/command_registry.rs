//! The command table: which glyph runs which command, and what running it does.
use vstd::prelude::*;
use crate::code_grid::{in_cells, CodeGrid};
use crate::commands::arithmetic::{
    add_stack, divide_stack, greater_stack, modulo_stack, multiply_stack, not_stack,
    subtract_stack, AddCommand, DivideCommand, GraterThanCommand, LogicalNotCommand,
    ModuloCommand, MultiplyCommand, SubtractCommand,
};
use crate::commands::flow::{
    fork_child, DownCommand, HorizontalIfCommand, LeftCommand, RightCommand, StringModeCommand,
    TerminateCommand, ThreadCommand, UpCommand, VerticalIfCommand,
};
use crate::commands::io::{
    char_cell, number_cell, number_text, PrintCharCommand, PrintNumberCommand,
    ReadCharacterCommand, ReadNumberCommand,
};
use crate::commands::reflect::{GetCommand, PutCommand};
use crate::commands::stack::{
    duplicate_stack, swap_stack, DigitCommand, DropCommand, DuplicateTopCommand, SwapCommand,
};
use crate::commands::{read_char, read_number, Diagnostic, Effect, EffectView, Reading};
use crate::direction::Direction;
use crate::errors::InterpreterError;
use crate::ip_state::{below, top, IPState, IPView};
use crate::cell::glyph_of;

verus! {

/// One recognised command.
#[derive(Clone, Copy, Debug)]
pub enum Command {
    Digit(DigitCommand),
    Add(AddCommand),
    Subtract(SubtractCommand),
    Multiply(MultiplyCommand),
    Divide(DivideCommand),
    Modulo(ModuloCommand),
    DuplicateTop(DuplicateTopCommand),
    Swap(SwapCommand),
    Drop(DropCommand),
    PrintNumber(PrintNumberCommand),
    PrintChar(PrintCharCommand),
    Terminate(TerminateCommand),
    Thread(ThreadCommand),
    LogicalNot(LogicalNotCommand),
    HorizontalIf(HorizontalIfCommand),
    VerticalIf(VerticalIfCommand),
    Right(RightCommand),
    Left(LeftCommand),
    Up(UpCommand),
    Down(DownCommand),
    Put(PutCommand),
    Get(GetCommand),
    StringMode(StringModeCommand),
    ReadNumber(ReadNumberCommand),
    ReadCharacter(ReadCharacterCommand),
    GreaterThan(GraterThanCommand),
}

/// The command bound to glyph `c`, if any.
pub open spec fn command_of(c: char) -> Option<Command> {
    if '0' <= c && c <= '9' {
        Some(Command::Digit(DigitCommand { value: (c as int - 48) as usize }))
    } else if c == '+' {
        Some(Command::Add(AddCommand))
    } else if c == '-' {
        Some(Command::Subtract(SubtractCommand))
    } else if c == '*' {
        Some(Command::Multiply(MultiplyCommand))
    } else if c == '/' {
        Some(Command::Divide(DivideCommand))
    } else if c == '%' {
        Some(Command::Modulo(ModuloCommand))
    } else if c == ':' {
        Some(Command::DuplicateTop(DuplicateTopCommand))
    } else if c == '\\' {
        Some(Command::Swap(SwapCommand))
    } else if c == '$' {
        Some(Command::Drop(DropCommand))
    } else if c == '.' {
        Some(Command::PrintNumber(PrintNumberCommand))
    } else if c == ',' {
        Some(Command::PrintChar(PrintCharCommand))
    } else if c == '@' {
        Some(Command::Terminate(TerminateCommand))
    } else if c == 't' {
        Some(Command::Thread(ThreadCommand))
    } else if c == '!' {
        Some(Command::LogicalNot(LogicalNotCommand))
    } else if c == '_' {
        Some(Command::HorizontalIf(HorizontalIfCommand))
    } else if c == '|' {
        Some(Command::VerticalIf(VerticalIfCommand))
    } else if c == '>' {
        Some(Command::Right(RightCommand))
    } else if c == '<' {
        Some(Command::Left(LeftCommand))
    } else if c == '^' {
        Some(Command::Up(UpCommand))
    } else if c == 'v' {
        Some(Command::Down(DownCommand))
    } else if c == 'p' {
        Some(Command::Put(PutCommand))
    } else if c == 'g' {
        Some(Command::Get(GetCommand))
    } else if c == '"' {
        Some(Command::StringMode(StringModeCommand))
    } else if c == '&' {
        Some(Command::ReadNumber(ReadNumberCommand))
    } else if c == '~' {
        Some(Command::ReadCharacter(ReadCharacterCommand))
    } else if c == '`' {
        Some(Command::GreaterThan(GraterThanCommand))
    } else {
        None
    }
}

/// The pointer after running `cmd` at `ip` on a plane holding `cells` with console reading `rd`
/// (before the step that follows every command).
pub open spec fn command_ip(cmd: Command, ip: IPView, cells: Seq<Seq<char>>, rd: Reading) -> IPView {
    let s = ip.stack;
    match cmd {
        Command::Digit(d) => ip.with_stack(s.push(d.value)),
        Command::Add(_) => ip.with_stack(add_stack(s)),
        Command::Subtract(_) => ip.with_stack(subtract_stack(s)),
        Command::Multiply(_) => ip.with_stack(multiply_stack(s)),
        Command::Divide(_) => ip.with_stack(divide_stack(s)),
        Command::Modulo(_) => ip.with_stack(modulo_stack(s)),
        Command::DuplicateTop(_) => ip.with_stack(duplicate_stack(s)),
        Command::Swap(_) => ip.with_stack(swap_stack(s)),
        Command::Drop(_) => ip.with_stack(below(s)),
        Command::PrintNumber(_) => ip.with_stack(below(s)),
        Command::PrintChar(_) => ip.with_stack(below(s)),
        Command::Terminate(_) => IPView { terminated: true, ..ip },
        Command::Thread(_) => ip.with_stack(below(below(s))),
        Command::LogicalNot(_) => ip.with_stack(not_stack(s)),
        Command::HorizontalIf(_) => ip.with_stack(below(s)).with_direction(
            if top(s) == 0 {
                Direction::Right
            } else {
                Direction::Left
            },
        ),
        Command::VerticalIf(_) => ip.with_stack(below(s)).with_direction(
            if top(s) == 0 {
                Direction::Down
            } else {
                Direction::Up
            },
        ),
        Command::Right(_) => ip.with_direction(Direction::Right),
        Command::Left(_) => ip.with_direction(Direction::Left),
        Command::Up(_) => ip.with_direction(Direction::Up),
        Command::Down(_) => ip.with_direction(Direction::Down),
        Command::Put(_) => ip.with_stack(below(below(below(s)))),
        Command::Get(_) => {
            let y = top(s);
            let x = top(below(s));
            if in_cells(cells, x as int, y as int) {
                ip.with_stack(below(below(s)).push(cells[y as int][x as int] as usize))
            } else {
                ip.with_stack(below(below(s)))
            }
        },
        Command::StringMode(_) => IPView { string_mode: !ip.string_mode, ..ip },
        Command::ReadNumber(_) => ip.with_stack(s.push(number_cell(read_number(rd)))),
        Command::ReadCharacter(_) => ip.with_stack(s.push(char_cell(read_char(rd)))),
        Command::GreaterThan(_) => ip.with_stack(greater_stack(s)),
    }
}

/// The stored rows after running `cmd` at `ip` on a plane holding `cells`: only `p` writes.
pub open spec fn command_cells(cmd: Command, ip: IPView, cells: Seq<Seq<char>>) -> Seq<Seq<char>> {
    let s = ip.stack;
    let y = top(s);
    let x = top(below(s));
    let v = top(below(below(s)));
    if cmd is Put && in_cells(cells, x as int, y as int) {
        cells.update(y as int, cells[y as int].update(x as int, glyph_of(v)))
    } else {
        cells
    }
}

/// What running `cmd` at `ip` on a plane holding `cells` asks of the outside world.
pub open spec fn command_effect(cmd: Command, ip: IPView, cells: Seq<Seq<char>>) -> EffectView {
    let s = ip.stack;
    let y = top(s);
    let x = top(below(s));
    match cmd {
        Command::Divide(_) => if top(s) == 0 {
            EffectView::Diagnostic(Diagnostic::DivisionByZero)
        } else {
            EffectView::Silent
        },
        Command::Modulo(_) => if top(s) == 0 {
            EffectView::Diagnostic(Diagnostic::ModuloByZero)
        } else {
            EffectView::Silent
        },
        Command::PrintNumber(_) => EffectView::Output(number_text(top(s))),
        Command::PrintChar(_) => EffectView::Output(seq![glyph_of(top(s))]),
        Command::Thread(_) => EffectView::Spawn(fork_child(ip)),
        Command::Put(_) | Command::Get(_) => if in_cells(cells, x as int, y as int) {
            EffectView::Silent
        } else {
            EffectView::Fault(InterpreterError::OutOfBounds(x, y))
        },
        _ => EffectView::Silent,
    }
}

impl Command {
    /// Runs this command on `ip`, with `grid` for `p` and `g` and `reading` for `&` and `~`.
    pub fn execute(&self, ip: &mut IPState, grid: &mut CodeGrid, reading: Reading) -> (r: Effect)
        ensures
            final(ip)@ == command_ip(*self, old(ip)@, old(grid).cells(), reading),
            final(grid).cells() == command_cells(*self, old(ip)@, old(grid).cells()),
            final(grid).code_width == old(grid).code_width,
            final(grid).code_height == old(grid).code_height,
            r@ == command_effect(*self, old(ip)@, old(grid).cells()),
    {
        match self {
            Command::Digit(c) => {
                c.execute(ip);
                Effect::Silent
            },
            Command::Add(c) => {
                c.execute(ip);
                Effect::Silent
            },
            Command::Subtract(c) => {
                c.execute(ip);
                Effect::Silent
            },
            Command::Multiply(c) => {
                c.execute(ip);
                Effect::Silent
            },
            Command::Divide(c) => c.execute(ip),
            Command::Modulo(c) => c.execute(ip),
            Command::DuplicateTop(c) => {
                c.execute(ip);
                Effect::Silent
            },
            Command::Swap(c) => {
                c.execute(ip);
                Effect::Silent
            },
            Command::Drop(c) => {
                c.execute(ip);
                Effect::Silent
            },
            Command::PrintNumber(c) => c.execute(ip),
            Command::PrintChar(c) => c.execute(ip),
            Command::Terminate(c) => {
                c.execute(ip);
                Effect::Silent
            },
            Command::Thread(c) => c.execute(ip),
            Command::LogicalNot(c) => {
                c.execute(ip);
                Effect::Silent
            },
            Command::HorizontalIf(c) => {
                c.execute(ip);
                Effect::Silent
            },
            Command::VerticalIf(c) => {
                c.execute(ip);
                Effect::Silent
            },
            Command::Right(c) => {
                c.execute(ip);
                Effect::Silent
            },
            Command::Left(c) => {
                c.execute(ip);
                Effect::Silent
            },
            Command::Up(c) => {
                c.execute(ip);
                Effect::Silent
            },
            Command::Down(c) => {
                c.execute(ip);
                Effect::Silent
            },
            Command::Put(c) => c.execute(ip, grid),
            Command::Get(c) => c.execute(ip, grid),
            Command::StringMode(c) => {
                c.execute(ip);
                Effect::Silent
            },
            Command::ReadNumber(c) => {
                let n = match reading {
                    Reading::Number(n) => n,
                    _ => None,
                };
                c.execute(ip, n);
                Effect::Silent
            },
            Command::ReadCharacter(c) => {
                let ch = match reading {
                    Reading::Character(ch) => ch,
                    _ => None,
                };
                c.execute(ip, ch);
                Effect::Silent
            },
            Command::GreaterThan(c) => {
                c.execute(ip);
                Effect::Silent
            },
        }
    }
}

/// The fixed table from glyphs to commands.
#[derive(Clone, Copy, Debug)]
pub struct CommandRegistry;

impl CommandRegistry {
    /// The table of all recognised glyphs.
    pub fn new() -> (r: CommandRegistry) {
        CommandRegistry
    }

    /// The command bound to `cmd`, or `None` for an unknown glyph.
    pub fn get_command(&self, cmd: char) -> (r: Option<Command>)
        ensures
            r == command_of(cmd),
    {
        match cmd {
            '0' => Some(Command::Digit(DigitCommand::new(0))),
            '1' => Some(Command::Digit(DigitCommand::new(1))),
            '2' => Some(Command::Digit(DigitCommand::new(2))),
            '3' => Some(Command::Digit(DigitCommand::new(3))),
            '4' => Some(Command::Digit(DigitCommand::new(4))),
            '5' => Some(Command::Digit(DigitCommand::new(5))),
            '6' => Some(Command::Digit(DigitCommand::new(6))),
            '7' => Some(Command::Digit(DigitCommand::new(7))),
            '8' => Some(Command::Digit(DigitCommand::new(8))),
            '9' => Some(Command::Digit(DigitCommand::new(9))),
            '+' => Some(Command::Add(AddCommand)),
            '-' => Some(Command::Subtract(SubtractCommand)),
            '*' => Some(Command::Multiply(MultiplyCommand)),
            '/' => Some(Command::Divide(DivideCommand)),
            '%' => Some(Command::Modulo(ModuloCommand)),
            ':' => Some(Command::DuplicateTop(DuplicateTopCommand)),
            '\\' => Some(Command::Swap(SwapCommand)),
            '$' => Some(Command::Drop(DropCommand)),
            '.' => Some(Command::PrintNumber(PrintNumberCommand)),
            ',' => Some(Command::PrintChar(PrintCharCommand)),
            '@' => Some(Command::Terminate(TerminateCommand)),
            't' => Some(Command::Thread(ThreadCommand)),
            '!' => Some(Command::LogicalNot(LogicalNotCommand)),
            '_' => Some(Command::HorizontalIf(HorizontalIfCommand)),
            '|' => Some(Command::VerticalIf(VerticalIfCommand)),
            '>' => Some(Command::Right(RightCommand)),
            '<' => Some(Command::Left(LeftCommand)),
            '^' => Some(Command::Up(UpCommand)),
            'v' => Some(Command::Down(DownCommand)),
            'p' => Some(Command::Put(PutCommand)),
            'g' => Some(Command::Get(GetCommand)),
            '"' => Some(Command::StringMode(StringModeCommand)),
            '&' => Some(Command::ReadNumber(ReadNumberCommand)),
            '~' => Some(Command::ReadCharacter(ReadCharacterCommand)),
            '`' => Some(Command::GreaterThan(GraterThanCommand)),
            _ => None,
        }
    }
}

} // verus!

//! One tick of an instruction pointer: fetch a cell, dispatch it, move on.
use vstd::prelude::*;
use crate::code_grid::{in_cells, CodeGrid};
use crate::command_registry::{command_cells, command_effect, command_ip, command_of, CommandRegistry};
use crate::commands::{Effect, EffectView, Reading};
use crate::errors::InterpreterError;
use crate::ip_state::{IPState, IPView};

verus! {

/// What the console must supply before a pointer can run a glyph.
#[derive(Clone, Copy, Debug, PartialEq, Eq, Structural)]
pub enum InputRequest {
    Nothing,
    Number,
    Character,
}

/// The console read that running `glyph` at `ip` performs.
pub open spec fn input_needed(ip: IPView, glyph: char) -> InputRequest {
    if ip.terminated || (ip.string_mode && glyph != '"') {
        InputRequest::Nothing
    } else if glyph == '&' {
        InputRequest::Number
    } else if glyph == '~' {
        InputRequest::Character
    } else {
        InputRequest::Nothing
    }
}

/// The pointer, the stored rows and the effect after a tick.
pub struct TickView {
    pub ip: IPView,
    pub cells: Seq<Seq<char>>,
    pub effect: EffectView,
}

/// Running the fetched `glyph` at `ip`: in string mode every glyph but `"` is pushed as its
/// codepoint; an unknown glyph does nothing; a known one runs its command. The pointer then
/// steps along its heading, unless the command failed, which stops the pointer where it is.
pub open spec fn cell_tick(ip: IPView, glyph: char, cells: Seq<Seq<char>>, rd: Reading) -> TickView {
    if ip.string_mode && glyph != '"' {
        TickView {
            ip: ip.with_stack(ip.stack.push(glyph as usize)).advanced(),
            cells,
            effect: EffectView::Silent,
        }
    } else {
        match command_of(glyph) {
            None => TickView { ip: ip.advanced(), cells, effect: EffectView::Silent },
            Some(cmd) => {
                let after = command_ip(cmd, ip, cells, rd);
                let effect = command_effect(cmd, ip, cells);
                TickView {
                    ip: if effect is Fault {
                        IPView { terminated: true, ..after }
                    } else {
                        after.advanced()
                    },
                    cells: command_cells(cmd, ip, cells),
                    effect,
                }
            },
        }
    }
}

/// A whole tick of `ip`: a stopped pointer stays as it is; a pointer off the stored cells
/// stops with `OutOfBounds`; any other runs the glyph under it.
pub open spec fn tick_view(ip: IPView, cells: Seq<Seq<char>>, rd: Reading) -> TickView {
    if ip.terminated {
        TickView { ip, cells, effect: EffectView::Silent }
    } else if !in_cells(cells, ip.x, ip.y) {
        TickView {
            ip: IPView { terminated: true, ..ip },
            cells,
            effect: EffectView::Fault(InterpreterError::OutOfBounds(ip.x as usize, ip.y as usize)),
        }
    } else {
        cell_tick(ip, cells[ip.y][ip.x], cells, rd)
    }
}

/// The console read the next tick of `ip` on `glyph` performs.
pub fn input_request(ip: &IPState, glyph: char) -> (r: InputRequest)
    ensures
        r == input_needed(ip@, glyph),
{
    if ip.terminated || (ip.string_mode_active && glyph != '"') {
        InputRequest::Nothing
    } else if glyph == '&' {
        InputRequest::Number
    } else if glyph == '~' {
        InputRequest::Character
    } else {
        InputRequest::Nothing
    }
}

/// Runs the already fetched `glyph` at `ip`; see `cell_tick`.
pub fn execute_cell(
    registry: &CommandRegistry,
    ip: &mut IPState,
    glyph: char,
    grid: &mut CodeGrid,
    reading: Reading,
) -> (r: Effect)
    ensures
        ({
            let t = cell_tick(old(ip)@, glyph, old(grid).cells(), reading);
            &&& final(ip)@ == t.ip
            &&& final(grid).cells() == t.cells
            &&& r@ == t.effect
        }),
        final(grid).code_width == old(grid).code_width,
        final(grid).code_height == old(grid).code_height,
        old(ip)@.on_plane() ==> final(ip)@.on_plane(),
        r@ matches EffectView::Spawn(child) ==> child.on_plane(),
{
    if ip.string_mode_active && glyph != '"' {
        ip.push(glyph as u32 as usize);
        ip.advance();
        return Effect::Silent;
    }
    match registry.get_command(glyph) {
        None => {
            ip.advance();
            Effect::Silent
        },
        Some(cmd) => {
            let effect = cmd.execute(ip, grid, reading);
            match effect {
                Effect::Fault(_) => {
                    ip.terminated = true;
                },
                _ => {
                    ip.advance();
                },
            }
            effect
        },
    }
}

/// One tick of `ip` on `grid`; see `tick_view`.
pub fn tick(registry: &CommandRegistry, ip: &mut IPState, grid: &mut CodeGrid, reading: Reading) -> (r: Effect)
    ensures
        ({
            let t = tick_view(old(ip)@, old(grid).cells(), reading);
            &&& final(ip)@ == t.ip
            &&& final(grid).cells() == t.cells
            &&& r@ == t.effect
        }),
        final(grid).code_width == old(grid).code_width,
        final(grid).code_height == old(grid).code_height,
        old(ip)@.on_plane() ==> final(ip)@.on_plane(),
        r@ matches EffectView::Spawn(child) ==> child.on_plane(),
{
    if ip.terminated {
        return Effect::Silent;
    }
    match grid.get_value(ip.ip_x, ip.ip_y) {
        Err(e) => {
            ip.terminated = true;
            Effect::Fault(e)
        },
        Ok(glyph) => execute_cell(registry, ip, glyph, grid, reading),
    }
}

} // verus!

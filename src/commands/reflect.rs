//! `p` and `g`: programs that read and rewrite their own plane.
use vstd::prelude::*;
use crate::cell::{cell_to_char, char_to_cell, glyph_of};
use crate::code_grid::CodeGrid;
use crate::commands::{Effect, EffectView};
use crate::errors::InterpreterError;
use crate::ip_state::{below, top, IPState};

verus! {

/// `p`: pops `y`, `x` and `v`, and writes the glyph of `v` at `(x, y)`.
#[derive(Clone, Copy, Debug)]
pub struct PutCommand;

impl PutCommand {
    pub fn execute(&self, ip: &mut IPState, grid: &mut CodeGrid) -> (r: Effect)
        ensures
            ({
                let s = old(ip)@.stack;
                let y = top(s);
                let x = top(below(s));
                let v = top(below(below(s)));
                &&& final(ip)@ == old(ip)@.with_stack(below(below(below(s))))
                &&& old(grid).in_bounds(x as int, y as int) ==> r@ == EffectView::Silent
                    && final(grid).cells() == old(grid).cells().update(
                    y as int,
                    old(grid).cells()[y as int].update(x as int, glyph_of(v)),
                )
                &&& !old(grid).in_bounds(x as int, y as int) ==> r@ == EffectView::Fault(
                    InterpreterError::OutOfBounds(x, y),
                ) && final(grid).cells() == old(grid).cells()
                &&& final(grid).code_width == old(grid).code_width
                &&& final(grid).code_height == old(grid).code_height
            }),
    {
        let y = ip.pop();
        let x = ip.pop();
        let v = ip.pop();
        match grid.set_value(x, y, cell_to_char(v)) {
            Ok(()) => Effect::Silent,
            Err(e) => Effect::Fault(e),
        }
    }
}

/// `g`: pops `y` and `x`, and pushes the codepoint of the cell at `(x, y)`.
#[derive(Clone, Copy, Debug)]
pub struct GetCommand;

impl GetCommand {
    pub fn execute(&self, ip: &mut IPState, grid: &CodeGrid) -> (r: Effect)
        ensures
            ({
                let s = old(ip)@.stack;
                let y = top(s);
                let x = top(below(s));
                let rest = below(below(s));
                &&& grid.in_bounds(x as int, y as int) ==> r@ == EffectView::Silent
                    && final(ip)@ == old(ip)@.with_stack(
                    rest.push(grid.cell(x as int, y as int) as usize),
                )
                &&& !grid.in_bounds(x as int, y as int) ==> r@ == EffectView::Fault(
                    InterpreterError::OutOfBounds(x, y),
                ) && final(ip)@ == old(ip)@.with_stack(rest)
            }),
    {
        let y = ip.pop();
        let x = ip.pop();
        match grid.get_value(x, y) {
            Ok(c) => {
                ip.push(char_to_cell(c));
                Effect::Silent
            },
            Err(e) => Effect::Fault(e),
        }
    }
}

} // verus!

//! Commands that print cells or push what was read from the console.
use vstd::prelude::*;
use crate::cell::{char_to_cell, cell_to_char, decimal, glyph_of, push_decimal};
use crate::commands::{Effect, EffectView};
use crate::ip_state::{below, top, IPState};

verus! {

/// The text `.` prints for `v`: its decimal numeral and a space.
pub open spec fn number_text(v: usize) -> Seq<char> {
    decimal(v as nat).push(' ')
}

/// The value `&` pushes for a number read, or for a failed read.
pub open spec fn number_cell(read: Option<usize>) -> usize {
    match read {
        Some(n) => n,
        None => 0,
    }
}

/// The value `~` pushes for a character read, or for a failed read.
pub open spec fn char_cell(read: Option<char>) -> usize {
    match read {
        Some(c) => c as usize,
        None => 0,
    }
}

/// `.`: pops a value and prints it in decimal followed by a space.
#[derive(Clone, Copy, Debug)]
pub struct PrintNumberCommand;

impl PrintNumberCommand {
    pub fn execute(&self, ip: &mut IPState) -> (r: Effect)
        ensures
            final(ip)@ == old(ip)@.with_stack(below(old(ip)@.stack)),
            r@ == EffectView::Output(number_text(top(old(ip)@.stack))),
    {
        let v = ip.pop();
        let mut text: Vec<char> = Vec::new();
        push_decimal(v, &mut text);
        text.push(' ');
        Effect::Output(text)
    }
}

/// `,`: pops a value and prints the glyph it stands for.
#[derive(Clone, Copy, Debug)]
pub struct PrintCharCommand;

impl PrintCharCommand {
    pub fn execute(&self, ip: &mut IPState) -> (r: Effect)
        ensures
            final(ip)@ == old(ip)@.with_stack(below(old(ip)@.stack)),
            r@ == EffectView::Output(seq![glyph_of(top(old(ip)@.stack))]),
    {
        let v = ip.pop();
        let mut text: Vec<char> = Vec::new();
        text.push(cell_to_char(v));
        assert(text@ =~= seq![glyph_of(v)]);
        Effect::Output(text)
    }
}

/// `&`: pushes the number read, or 0 when the read failed.
#[derive(Clone, Copy, Debug)]
pub struct ReadNumberCommand;

impl ReadNumberCommand {
    pub fn execute(&self, ip: &mut IPState, read: Option<usize>)
        ensures
            final(ip)@ == old(ip)@.with_stack(old(ip)@.stack.push(number_cell(read))),
    {
        let v = match read {
            Some(n) => n,
            None => 0,
        };
        ip.push(v);
    }
}

/// `~`: pushes the codepoint of the character read, or 0 when the read failed.
#[derive(Clone, Copy, Debug)]
pub struct ReadCharacterCommand;

impl ReadCharacterCommand {
    pub fn execute(&self, ip: &mut IPState, read: Option<char>)
        ensures
            final(ip)@ == old(ip)@.with_stack(old(ip)@.stack.push(char_cell(read))),
    {
        let v = match read {
            Some(c) => char_to_cell(c),
            None => 0,
        };
        ip.push(v);
    }
}

} // verus!

//! The state of one instruction pointer: position, heading, stack and flags.
use vstd::prelude::*;
use crate::direction::{Direction, spec_dx, spec_dy};

verus! {

/// Width of the torus on which instruction pointers move.
pub const PLANE_W: usize = 1024;

/// Height of the torus on which instruction pointers move.
pub const PLANE_H: usize = 1024;

/// The value a pop yields: the top of `s`, or 0 when `s` is empty.
pub open spec fn top(s: Seq<usize>) -> usize {
    if s.len() == 0 {
        0
    } else {
        s.last()
    }
}

/// What remains of `s` after a pop; popping an empty stack leaves it empty.
pub open spec fn below(s: Seq<usize>) -> Seq<usize> {
    if s.len() == 0 {
        s
    } else {
        s.drop_last()
    }
}

/// The abstract value of an instruction pointer.
pub struct IPView {
    pub x: int,
    pub y: int,
    pub direction: Direction,
    pub terminated: bool,
    pub stack: Seq<usize>,
    pub string_mode: bool,
}

impl IPView {
    /// Whether the position lies on the torus.
    pub open spec fn on_plane(self) -> bool {
        0 <= self.x < PLANE_W && 0 <= self.y < PLANE_H
    }

    /// This pointer with its stack replaced.
    pub open spec fn with_stack(self, s: Seq<usize>) -> IPView {
        IPView { stack: s, ..self }
    }

    /// This pointer with its heading replaced.
    pub open spec fn with_direction(self, d: Direction) -> IPView {
        IPView { direction: d, ..self }
    }

    /// This pointer after one step along its heading, wrapping around the torus.
    pub open spec fn advanced(self) -> IPView {
        IPView {
            x: (self.x + spec_dx(self.direction)) % (PLANE_W as int),
            y: (self.y + spec_dy(self.direction)) % (PLANE_H as int),
            ..self
        }
    }
}

/// One instruction pointer.
#[derive(Debug)]
pub struct IPState {
    pub ip_x: usize,
    pub ip_y: usize,
    pub direction: Direction,
    pub terminated: bool,
    pub stk: Vec<usize>,
    pub string_mode_active: bool,
}

impl View for IPState {
    type V = IPView;

    open spec fn view(&self) -> IPView {
        IPView {
            x: self.ip_x as int,
            y: self.ip_y as int,
            direction: self.direction,
            terminated: self.terminated,
            stack: self.stk@,
            string_mode: self.string_mode_active,
        }
    }
}

impl IPState {
    /// A live pointer at `(x, y)` heading `direction`, with an empty stack and string mode off.
    pub fn new(x: usize, y: usize, direction: Direction) -> (r: IPState)
        ensures
            r@ == (IPView {
                x: x as int,
                y: y as int,
                direction,
                terminated: false,
                stack: Seq::empty(),
                string_mode: false,
            }),
    {
        IPState {
            ip_x: x,
            ip_y: y,
            direction,
            terminated: false,
            stk: Vec::new(),
            string_mode_active: false,
        }
    }

    /// Pushes `v` onto the stack.
    pub fn push(&mut self, v: usize)
        ensures
            final(self)@ == old(self)@.with_stack(old(self)@.stack.push(v)),
    {
        self.stk.push(v);
    }

    /// Pops the top of the stack; an empty stack yields 0 and stays empty.
    pub fn pop(&mut self) -> (v: usize)
        ensures
            v == top(old(self)@.stack),
            final(self)@ == old(self)@.with_stack(below(old(self)@.stack)),
    {
        match self.stk.pop() {
            Some(v) => v,
            None => 0,
        }
    }

    /// Moves one cell along the heading, wrapping around the torus.
    /// The result lies on the torus whatever the starting position.
    pub fn advance(&mut self)
        ensures
            final(self)@ == old(self)@.advanced(),
            final(self)@.on_plane(),
    {
        let x = self.ip_x % PLANE_W + PLANE_W;
        let y = self.ip_y % PLANE_H + PLANE_H;
        let nx: usize = match self.direction {
            Direction::Right => x + 1,
            Direction::Left => x - 1,
            _ => x,
        };
        let ny: usize = match self.direction {
            Direction::Down => y + 1,
            Direction::Up => y - 1,
            _ => y,
        };
        self.ip_x = nx % PLANE_W;
        self.ip_y = ny % PLANE_H;
    }
}

} // verus!

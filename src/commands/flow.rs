//! Commands that steer, stop or fork an instruction pointer.
use vstd::prelude::*;
use crate::cell::{signed_value, to_signed};
use crate::commands::{Effect, EffectView};
use crate::direction::{spec_from_dx_dy, Direction};
use crate::ip_state::{below, top, IPState, IPView};

verus! {

/// The pointer a fork at `ip` starts: popping `dy` then `dx`, it keeps the position,
/// the remaining stack and the string mode, heads along `(dx, dy)` when that is a unit
/// vector (read as signed words) and along the parent's heading otherwise, and has
/// already taken its first step.
pub open spec fn fork_child(ip: IPView) -> IPView {
    let dy = top(ip.stack);
    let dx = top(below(ip.stack));
    let d = match spec_from_dx_dy(signed_value(dx), signed_value(dy)) {
        Some(d) => d,
        None => ip.direction,
    };
    IPView {
        direction: d,
        terminated: false,
        stack: below(below(ip.stack)),
        ..ip
    }.advanced()
}

/// `>`
#[derive(Clone, Copy, Debug)]
pub struct RightCommand;

impl RightCommand {
    pub fn execute(&self, ip: &mut IPState)
        ensures
            final(ip)@ == old(ip)@.with_direction(Direction::Right),
    {
        ip.direction = Direction::Right;
    }
}

/// `<`
#[derive(Clone, Copy, Debug)]
pub struct LeftCommand;

impl LeftCommand {
    pub fn execute(&self, ip: &mut IPState)
        ensures
            final(ip)@ == old(ip)@.with_direction(Direction::Left),
    {
        ip.direction = Direction::Left;
    }
}

/// `^`
#[derive(Clone, Copy, Debug)]
pub struct UpCommand;

impl UpCommand {
    pub fn execute(&self, ip: &mut IPState)
        ensures
            final(ip)@ == old(ip)@.with_direction(Direction::Up),
    {
        ip.direction = Direction::Up;
    }
}

/// `v`
#[derive(Clone, Copy, Debug)]
pub struct DownCommand;

impl DownCommand {
    pub fn execute(&self, ip: &mut IPState)
        ensures
            final(ip)@ == old(ip)@.with_direction(Direction::Down),
    {
        ip.direction = Direction::Down;
    }
}

/// `_`: pops a value and heads right if it is 0, left otherwise.
#[derive(Clone, Copy, Debug)]
pub struct HorizontalIfCommand;

impl HorizontalIfCommand {
    pub fn execute(&self, ip: &mut IPState)
        ensures
            final(ip)@ == old(ip)@.with_stack(below(old(ip)@.stack)).with_direction(
                if top(old(ip)@.stack) == 0 {
                    Direction::Right
                } else {
                    Direction::Left
                },
            ),
    {
        let a = ip.pop();
        ip.direction = if a == 0 { Direction::Right } else { Direction::Left };
    }
}

/// `|`: pops a value and heads down if it is 0, up otherwise.
#[derive(Clone, Copy, Debug)]
pub struct VerticalIfCommand;

impl VerticalIfCommand {
    pub fn execute(&self, ip: &mut IPState)
        ensures
            final(ip)@ == old(ip)@.with_stack(below(old(ip)@.stack)).with_direction(
                if top(old(ip)@.stack) == 0 {
                    Direction::Down
                } else {
                    Direction::Up
                },
            ),
    {
        let a = ip.pop();
        ip.direction = if a == 0 { Direction::Down } else { Direction::Up };
    }
}

/// `"`: toggles string mode.
#[derive(Clone, Copy, Debug)]
pub struct StringModeCommand;

impl StringModeCommand {
    pub fn execute(&self, ip: &mut IPState)
        ensures
            final(ip)@ == (IPView { string_mode: !old(ip)@.string_mode, ..old(ip)@ }),
    {
        ip.string_mode_active = !ip.string_mode_active;
    }
}

/// `@`: stops the pointer.
#[derive(Clone, Copy, Debug)]
pub struct TerminateCommand;

impl TerminateCommand {
    pub fn execute(&self, ip: &mut IPState)
        ensures
            final(ip)@ == (IPView { terminated: true, ..old(ip)@ }),
    {
        ip.terminated = true;
    }
}

/// One step along the heading, wrapping around the torus.
#[derive(Clone, Copy, Debug)]
pub struct MoveCommand;

impl MoveCommand {
    pub fn execute(&self, ip: &mut IPState)
        ensures
            final(ip)@ == old(ip)@.advanced(),
            final(ip)@.on_plane(),
    {
        ip.advance();
    }
}

/// `t`: forks a new pointer; see `fork_child`.
#[derive(Clone, Copy, Debug)]
pub struct ThreadCommand;

impl ThreadCommand {
    pub fn execute(&self, ip: &mut IPState) -> (r: Effect)
        ensures
            final(ip)@ == old(ip)@.with_stack(below(below(old(ip)@.stack))),
            r@ == EffectView::Spawn(fork_child(old(ip)@)),
            fork_child(old(ip)@).on_plane(),
    {
        let dy = ip.pop();
        let dx = ip.pop();
        let direction = match Direction::from_dx_dy(to_signed(dx), to_signed(dy)) {
            Some(d) => d,
            None => ip.direction,
        };
        let mut child = IPState {
            ip_x: ip.ip_x,
            ip_y: ip.ip_y,
            direction,
            terminated: false,
            stk: ip.stk.clone(),
            string_mode_active: ip.string_mode_active,
        };
        child.advance();
        Effect::Spawn(child)
    }
}

} // verus!

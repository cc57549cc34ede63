//! Arithmetic and comparison on the top two cells.
use vstd::prelude::*;
use crate::cell::{
    cell_add, cell_div, cell_mul, cell_rem, cell_sub, signed_value, trunc_div, trunc_rem, wrap,
};
use crate::commands::{Diagnostic, Effect, EffectView};
use crate::ip_state::{below, top, IPState};

verus! {

/// The stack after popping two values and pushing `r`.
pub open spec fn binary(s: Seq<usize>, r: usize) -> Seq<usize> {
    below(below(s)).push(r)
}

/// The first value popped from `s`.
pub open spec fn first(s: Seq<usize>) -> usize {
    top(s)
}

/// The second value popped from `s`.
pub open spec fn second(s: Seq<usize>) -> usize {
    top(below(s))
}

/// `+`: pushes `b + a`.
pub open spec fn add_stack(s: Seq<usize>) -> Seq<usize> {
    binary(s, wrap(second(s) + first(s)))
}

/// `-`: pushes `b - a`, the second value popped less the first.
pub open spec fn subtract_stack(s: Seq<usize>) -> Seq<usize> {
    binary(s, wrap(second(s) - first(s)))
}

/// `*`: pushes `b * a`.
pub open spec fn multiply_stack(s: Seq<usize>) -> Seq<usize> {
    binary(s, wrap(second(s) * first(s)))
}

/// `/`: pushes the signed quotient `b / a`, or 0 when `a` is 0.
pub open spec fn divide_stack(s: Seq<usize>) -> Seq<usize> {
    if first(s) == 0 {
        binary(s, 0)
    } else {
        binary(s, wrap(trunc_div(signed_value(second(s)), signed_value(first(s)))))
    }
}

/// `%`: pushes the signed remainder `b % a`, or 0 when `a` is 0.
pub open spec fn modulo_stack(s: Seq<usize>) -> Seq<usize> {
    if first(s) == 0 {
        binary(s, 0)
    } else {
        binary(s, wrap(trunc_rem(signed_value(second(s)), signed_value(first(s)))))
    }
}

/// `` ` ``: pushes 1 when `b > a`, else 0.
pub open spec fn greater_stack(s: Seq<usize>) -> Seq<usize> {
    binary(s, if second(s) > first(s) { 1 } else { 0 })
}

/// `!`: replaces the top with 1 if it was 0, else with 0.
pub open spec fn not_stack(s: Seq<usize>) -> Seq<usize> {
    below(s).push(if first(s) == 0 { 1 } else { 0 })
}

/// `+`
#[derive(Clone, Copy, Debug)]
pub struct AddCommand;

impl AddCommand {
    pub fn execute(&self, ip: &mut IPState)
        ensures
            final(ip)@ == old(ip)@.with_stack(add_stack(old(ip)@.stack)),
    {
        let a = ip.pop();
        let b = ip.pop();
        ip.push(cell_add(b, a));
    }
}

/// `-`
#[derive(Clone, Copy, Debug)]
pub struct SubtractCommand;

impl SubtractCommand {
    pub fn execute(&self, ip: &mut IPState)
        ensures
            final(ip)@ == old(ip)@.with_stack(subtract_stack(old(ip)@.stack)),
    {
        let b = ip.pop();
        let a = ip.pop();
        ip.push(cell_sub(a, b));
    }
}

/// `*`
#[derive(Clone, Copy, Debug)]
pub struct MultiplyCommand;

impl MultiplyCommand {
    pub fn execute(&self, ip: &mut IPState)
        ensures
            final(ip)@ == old(ip)@.with_stack(multiply_stack(old(ip)@.stack)),
    {
        let a = ip.pop();
        let b = ip.pop();
        ip.push(cell_mul(b, a));
    }
}

/// `/`; a zero divisor pushes 0 and raises a diagnostic.
#[derive(Clone, Copy, Debug)]
pub struct DivideCommand;

impl DivideCommand {
    pub fn execute(&self, ip: &mut IPState) -> (r: Effect)
        ensures
            final(ip)@ == old(ip)@.with_stack(divide_stack(old(ip)@.stack)),
            r@ == if first(old(ip)@.stack) == 0 {
                EffectView::Diagnostic(Diagnostic::DivisionByZero)
            } else {
                EffectView::Silent
            },
    {
        let a = ip.pop();
        let b = ip.pop();
        if a == 0 {
            ip.push(0);
            Effect::Diagnostic(Diagnostic::DivisionByZero)
        } else {
            ip.push(cell_div(b, a));
            Effect::Silent
        }
    }
}

/// `%`; a zero divisor pushes 0 and raises a diagnostic.
#[derive(Clone, Copy, Debug)]
pub struct ModuloCommand;

impl ModuloCommand {
    pub fn execute(&self, ip: &mut IPState) -> (r: Effect)
        ensures
            final(ip)@ == old(ip)@.with_stack(modulo_stack(old(ip)@.stack)),
            r@ == if first(old(ip)@.stack) == 0 {
                EffectView::Diagnostic(Diagnostic::ModuloByZero)
            } else {
                EffectView::Silent
            },
    {
        let a = ip.pop();
        let b = ip.pop();
        if a == 0 {
            ip.push(0);
            Effect::Diagnostic(Diagnostic::ModuloByZero)
        } else {
            ip.push(cell_rem(b, a));
            Effect::Silent
        }
    }
}

/// `` ` ``
#[derive(Clone, Copy, Debug)]
pub struct GraterThanCommand;

impl GraterThanCommand {
    pub fn execute(&self, ip: &mut IPState)
        ensures
            final(ip)@ == old(ip)@.with_stack(greater_stack(old(ip)@.stack)),
    {
        let a = ip.stk.pop();
        let b = ip.stk.pop();
        let r: usize = match (b, a) {
            (Some(b), Some(a)) => if b > a { 1 } else { 0 },
            _ => 0,
        };
        ip.stk.push(r);
    }
}

/// `!`
#[derive(Clone, Copy, Debug)]
pub struct LogicalNotCommand;

impl LogicalNotCommand {
    pub fn execute(&self, ip: &mut IPState)
        ensures
            final(ip)@ == old(ip)@.with_stack(not_stack(old(ip)@.stack)),
    {
        let a = ip.pop();
        ip.push(if a == 0 { 1 } else { 0 });
    }
}

} // verus!

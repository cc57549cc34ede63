//! Commands that push, copy, exchange and discard cells.
use vstd::prelude::*;
use crate::ip_state::{below, top, IPState};

verus! {

/// `:`: pushes the top twice after popping it, so an empty stack becomes `[0, 0]`.
pub open spec fn duplicate_stack(s: Seq<usize>) -> Seq<usize> {
    below(s).push(top(s)).push(top(s))
}

/// `\`: exchanges the top two cells, reading missing ones as 0.
pub open spec fn swap_stack(s: Seq<usize>) -> Seq<usize> {
    below(below(s)).push(top(s)).push(top(below(s)))
}

/// `0`-`9`: pushes its value.
#[derive(Clone, Copy, Debug)]
pub struct DigitCommand {
    pub value: usize,
}

impl DigitCommand {
    /// The command that pushes `value`.
    pub fn new(value: usize) -> (r: DigitCommand)
        ensures
            r.value == value,
    {
        DigitCommand { value }
    }

    pub fn execute(&self, ip: &mut IPState)
        ensures
            final(ip)@ == old(ip)@.with_stack(old(ip)@.stack.push(self.value)),
    {
        ip.push(self.value);
    }
}

/// `:`
#[derive(Clone, Copy, Debug)]
pub struct DuplicateTopCommand;

impl DuplicateTopCommand {
    pub fn execute(&self, ip: &mut IPState)
        ensures
            final(ip)@ == old(ip)@.with_stack(duplicate_stack(old(ip)@.stack)),
    {
        let n = ip.stk.len();
        if n > 0 {
            let v = ip.stk[n - 1];
            assert(below(ip.stk@).push(top(ip.stk@)) =~= ip.stk@);
            ip.push(v);
        } else {
            ip.push(0);
            ip.push(0);
        }
    }
}

/// `\`
#[derive(Clone, Copy, Debug)]
pub struct SwapCommand;

impl SwapCommand {
    pub fn execute(&self, ip: &mut IPState)
        ensures
            final(ip)@ == old(ip)@.with_stack(swap_stack(old(ip)@.stack)),
    {
        let a = ip.pop();
        let b = ip.pop();
        ip.push(a);
        ip.push(b);
    }
}

/// `$`
#[derive(Clone, Copy, Debug)]
pub struct DropCommand;

impl DropCommand {
    pub fn execute(&self, ip: &mut IPState)
        ensures
            final(ip)@ == old(ip)@.with_stack(below(old(ip)@.stack)),
    {
        ip.pop();
    }
}

} // verus!

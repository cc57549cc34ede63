//! Properties that hold of every run of the interpreter.
use vstd::prelude::*;
use crate::cell::{glyph_of, is_scalar};
use crate::code_grid::{in_cells, CodeGrid};
use crate::command_registry::{command_cells, command_ip, command_of, Command};
use crate::commands::arithmetic::{add_stack, subtract_stack};
use crate::commands::reflect::{GetCommand, PutCommand};
use crate::commands::stack::swap_stack;
use crate::commands::flow::StringModeCommand;
use crate::commands::{EffectView, Reading};
use crate::direction::Direction;
use crate::engine::{cell_tick, tick_view, TickView};
use crate::ip_state::{IPView, PLANE_H, PLANE_W};
use crate::scheduler::MachineView;
use crate::seeding::{grid_seeds, initial_ips, row_seeds, scan_height, scan_width};

verus! {

/// A tick never moves a pointer off the torus, and a pointer it forks starts on it.
pub proof fn lemma_tick_stays_on_plane(ip: IPView, cells: Seq<Seq<char>>, rd: Reading)
    requires
        ip.on_plane(),
    ensures
        tick_view(ip, cells, rd).ip.on_plane(),
        tick_view(ip, cells, rd).effect matches EffectView::Spawn(child) ==> child.on_plane(),
{
}

proof fn lemma_row_seeds_on_plane(row: Seq<char>, y: int, n: int)
    requires
        0 <= y < PLANE_H,
        n <= PLANE_W,
    ensures
        forall|i: int| 0 <= i < row_seeds(row, y, n).len() ==> (#[trigger] row_seeds(row, y, n)[i]).on_plane(),
    decreases n,
{
    if n > 0 {
        lemma_row_seeds_on_plane(row, y, n - 1);
        let before = row_seeds(row, y, n - 1);
        let all = row_seeds(row, y, n);
        assert forall|i: int| 0 <= i < all.len() implies (#[trigger] all[i]).on_plane() by {
            if i < before.len() {
                assert(all[i] == before[i]);
            }
        }
    }
}

proof fn lemma_grid_seeds_on_plane(g: &CodeGrid, n: int)
    requires
        n <= scan_height(g),
    ensures
        forall|i: int| 0 <= i < grid_seeds(g, n).len() ==> (#[trigger] grid_seeds(g, n)[i]).on_plane(),
    decreases n,
{
    if n > 0 {
        lemma_grid_seeds_on_plane(g, n - 1);
        lemma_row_seeds_on_plane(g.grid@[n - 1]@, n - 1, scan_width(g, n - 1));
        let a = grid_seeds(g, n - 1);
        let b = row_seeds(g.grid@[n - 1]@, n - 1, scan_width(g, n - 1));
        assert forall|i: int| 0 <= i < (a + b).len() implies (#[trigger] (a + b)[i]).on_plane() by {
            if i >= a.len() {
                assert((a + b)[i] == b[i - a.len()]);
            }
        }
    }
}

/// Every pointer a program starts with lies on the torus.
pub proof fn lemma_initial_ips_on_plane(g: &CodeGrid)
    ensures
        forall|i: int| 0 <= i < initial_ips(g).len() ==> (#[trigger] initial_ips(g)[i]).on_plane(),
{
    lemma_grid_seeds_on_plane(g, scan_height(g));
}

/// Ticking any pointer keeps every pointer of the machine on the torus.
pub proof fn lemma_ticked_stays_on_plane(m: MachineView, i: int, rd: Reading)
    requires
        m.on_plane(),
        0 <= i < m.ips.len(),
    ensures
        m.ticked(i, rd).on_plane(),
{
    lemma_tick_stays_on_plane(m.ips[i], m.cells, rd);
    let r = m.ticked(i, rd);
    assert forall|j: int| 0 <= j < r.ips.len() implies (#[trigger] r.ips[j]).on_plane() by {
        if j < m.ips.len() && j != i {
            assert(r.ips[j] == m.ips[j]);
        }
    }
}

proof fn lemma_round_from_stays_on_plane(m: MachineView, i: int, n: int)
    requires
        m.on_plane(),
        0 <= i,
    ensures
        m.round_from(i, n).on_plane(),
    decreases n - i,
{
    if i < n && i < m.ips.len() {
        lemma_ticked_stays_on_plane(m, i, Reading::Nothing);
        lemma_round_from_stays_on_plane(m.ticked(i, Reading::Nothing), i + 1, n);
    }
}

/// From a machine whose pointers lie on the torus, every state reached by running rounds
/// keeps all its pointers on the torus.
pub proof fn lemma_run_stays_on_plane(m: MachineView, k: nat)
    requires
        m.on_plane(),
    ensures
        m.run_rounds(k).on_plane(),
    decreases k,
{
    if k > 0 && !m.halted() {
        lemma_round_from_stays_on_plane(m, 0, m.ips.len() as int);
        lemma_run_stays_on_plane(m.round(), (k - 1) as nat);
    }
}

/// Adding `b` to `a` and then subtracting a pushed `b` leaves `a` on top, whatever wraps.
pub proof fn lemma_add_then_subtract(s: Seq<usize>, a: usize, b: usize)
    ensures
        subtract_stack(add_stack(s.push(a).push(b)).push(b)) == s.push(a),
{
    let r = usize::MAX as int + 1;
    let sum = ((b + a) as int % r) as usize;
    assert(((sum - b) as int % r) == a) by (nonlinear_arith)
        requires
            sum == (b + a) % r,
            r > 0,
            0 <= a < r,
            0 <= b < r,
    ;
    assert(add_stack(s.push(a).push(b)) =~= s.push(sum));
    assert(subtract_stack(s.push(sum).push(b)) =~= s.push(a));
}

/// Swapping a one-cell stack `[v]` gives `[v, 0]`, with 0 on top.
pub proof fn lemma_swap_single(v: usize)
    ensures
        swap_stack(seq![v]) == seq![v, 0usize],
{
    assert(seq![v].drop_last() =~= Seq::<usize>::empty());
    assert(swap_stack(seq![v]) =~= seq![v, 0usize]);
}

/// Toggling string mode twice restores the pointer, and a toggle leaves the stack alone.
pub proof fn lemma_string_mode_toggle(ip: IPView, cells: Seq<Seq<char>>, rd: Reading)
    ensures
        ({
            let toggle = Command::StringMode(StringModeCommand);
            let once = command_ip(toggle, ip, cells, rd);
            &&& once.stack == ip.stack
            &&& once.string_mode == !ip.string_mode
            &&& command_ip(toggle, once, cells, rd) == ip
        }),
{
}

/// An unknown glyph, run outside string mode, changes nothing but the position, which
/// takes one step.
pub proof fn lemma_unknown_glyph(ip: IPView, glyph: char, cells: Seq<Seq<char>>, rd: Reading)
    requires
        command_of(glyph) is None,
        !ip.string_mode,
    ensures
        cell_tick(ip, glyph, cells, rd) == (TickView {
            ip: ip.advanced(),
            cells,
            effect: EffectView::Silent,
        }),
        cell_tick(ip, glyph, cells, rd).ip.stack == ip.stack,
        cell_tick(ip, glyph, cells, rd).ip.direction == ip.direction,
{
}

/// After `p` writes `v` at `(x, y)`, a `g` at the same coordinates pushes the codepoint
/// written there, which is `v` itself whenever `v` is a scalar value.
pub proof fn lemma_put_then_get(
    p: IPView,
    q: IPView,
    cells: Seq<Seq<char>>,
    v: usize,
    x: usize,
    y: usize,
    rd: Reading,
)
    requires
        in_cells(cells, x as int, y as int),
        p.stack.len() >= 3,
        p.stack.last() == y,
        p.stack.drop_last().last() == x,
        p.stack.drop_last().drop_last().last() == v,
        q.stack.len() >= 2,
        q.stack.last() == y,
        q.stack.drop_last().last() == x,
    ensures
        ({
            let written = command_cells(Command::Put(PutCommand), p, cells);
            let got = command_ip(Command::Get(GetCommand), q, written, rd);
            &&& got.stack == q.stack.drop_last().drop_last().push(glyph_of(v) as usize)
            &&& is_scalar(v as int) ==> got.stack.last() == v
        }),
{
}

/// One step left from the origin wraps to the far column of the same row.
pub proof fn lemma_wrap_left(ip: IPView)
    requires
        ip.x == 0,
        ip.y == 0,
        ip.direction == Direction::Left,
    ensures
        ip.advanced().x == PLANE_W - 1,
        ip.advanced().y == 0,
{
}

} // verus!

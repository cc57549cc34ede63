//! A deterministic scheduler: every pointer gets one tick per round, in order of creation.
use vstd::prelude::*;
use crate::code_grid::CodeGrid;
use crate::command_registry::CommandRegistry;
use crate::commands::{Diagnostic, Effect, EffectView, Reading};
use crate::engine::{tick, tick_view};
use crate::errors::InterpreterError;
use crate::ip_state::{IPState, IPView};
use crate::seeding::{get_initial_ips, initial_ips, scanned_cell, views};

verus! {

/// The abstract value of a `Machine`.
pub struct MachineView {
    pub cells: Seq<Seq<char>>,
    pub ips: Seq<IPView>,
    pub output: Seq<char>,
    pub warnings: Seq<Diagnostic>,
    pub errors: Seq<InterpreterError>,
}

impl MachineView {
    /// Every pointer lies on the torus.
    pub open spec fn on_plane(self) -> bool {
        forall|i: int| 0 <= i < self.ips.len() ==> (#[trigger] self.ips[i]).on_plane()
    }

    /// Every pointer has stopped.
    pub open spec fn halted(self) -> bool {
        forall|i: int| 0 <= i < self.ips.len() ==> (#[trigger] self.ips[i]).terminated
    }

    /// The machine after pointer `i` ticks with console reading `rd`: a spawned pointer
    /// joins the end of the list, text goes to the output, warnings and faults are recorded.
    pub open spec fn ticked(self, i: int, rd: Reading) -> MachineView {
        let t = tick_view(self.ips[i], self.cells, rd);
        let ips = self.ips.update(i, t.ip);
        MachineView {
            cells: t.cells,
            ips: match t.effect {
                EffectView::Spawn(child) => ips.push(child),
                _ => ips,
            },
            output: match t.effect {
                EffectView::Output(text) => self.output + text,
                _ => self.output,
            },
            warnings: match t.effect {
                EffectView::Diagnostic(d) => self.warnings.push(d),
                _ => self.warnings,
            },
            errors: match t.effect {
                EffectView::Fault(e) => self.errors.push(e),
                _ => self.errors,
            },
        }
    }

    /// Pointers `i` up to `n` tick in turn, with no console input.
    pub open spec fn round_from(self, i: int, n: int) -> MachineView
        decreases n - i,
    {
        if i >= n || i >= self.ips.len() {
            self
        } else {
            self.ticked(i, Reading::Nothing).round_from(i + 1, n)
        }
    }

    /// One round: each pointer present at its start ticks once.
    pub open spec fn round(self) -> MachineView {
        self.round_from(0, self.ips.len() as int)
    }

    /// Up to `k` rounds, stopping early once every pointer has stopped.
    pub open spec fn run_rounds(self, k: nat) -> MachineView
        decreases k,
    {
        if k == 0 || self.halted() {
            self
        } else {
            self.round().run_rounds((k - 1) as nat)
        }
    }
}

/// A program with all its pointers, run one tick at a time on a single thread.
#[derive(Debug)]
pub struct Machine {
    pub grid: CodeGrid,
    pub ips: Vec<IPState>,
    pub output: Vec<char>,
    pub warnings: Vec<Diagnostic>,
    pub errors: Vec<InterpreterError>,
    pub registry: CommandRegistry,
}

impl View for Machine {
    type V = MachineView;

    open spec fn view(&self) -> MachineView {
        MachineView {
            cells: self.grid.cells(),
            ips: views(self.ips@),
            output: self.output@,
            warnings: self.warnings@,
            errors: self.errors@,
        }
    }
}

impl Machine {
    /// A machine for `grid`, with the pointers its arrows seed (see `get_initial_ips`).
    pub fn new(grid: CodeGrid) -> (r: Machine)
        ensures
            r@.ips == initial_ips(&grid),
            r@.on_plane(),
            r@.cells.len() == grid.cells().len(),
            forall|y: int| 0 <= y < grid.cells().len() ==> (#[trigger] r@.cells[y]).len()
                == grid.cells()[y].len(),
            forall|x: int, y: int| grid.in_bounds(x, y) ==> #[trigger] r.grid.cell(x, y)
                == scanned_cell(&grid, x, y),
            r.grid.code_width == grid.code_width,
            r.grid.code_height == grid.code_height,
            r@.output.len() == 0,
            r@.warnings.len() == 0,
            r@.errors.len() == 0,
    {
        let mut grid = grid;
        let ips = get_initial_ips(&mut grid);
        proof {
            assert forall|i: int| 0 <= i < views(ips@).len() implies (#[trigger] views(
                ips@,
            )[i]).on_plane() by {
                assert(ips@[i]@.on_plane());
            }
        }
        Machine {
            grid,
            ips,
            output: Vec::new(),
            warnings: Vec::new(),
            errors: Vec::new(),
            registry: CommandRegistry::new(),
        }
    }

    /// Pointer `i` ticks once with console reading `reading`.
    pub fn step(&mut self, i: usize, reading: Reading)
        requires
            i < old(self).ips@.len(),
        ensures
            final(self)@ == old(self)@.ticked(i as int, reading),
            final(self).ips@.len() >= old(self).ips@.len(),
            old(self)@.on_plane() ==> final(self)@.on_plane(),
    {
        let ghost m0 = self@;
        let effect = tick(&self.registry, &mut self.ips[i], &mut self.grid, reading);
        let ghost t = tick_view(m0.ips[i as int], m0.cells, reading);
        assert(views(self.ips@) =~= m0.ips.update(i as int, t.ip));
        match effect {
            Effect::Spawn(child) => {
                let ghost before = self.ips@;
                self.ips.push(child);
                assert(views(self.ips@) =~= views(before).push(child@));
            },
            Effect::Output(text) => {
                let mut text = text;
                self.output.append(&mut text);
            },
            Effect::Diagnostic(d) => {
                self.warnings.push(d);
            },
            Effect::Fault(e) => {
                self.errors.push(e);
            },
            Effect::Silent => {},
        }
        proof {
            if m0.on_plane() {
                assert forall|j: int| 0 <= j < self@.ips.len() implies (#[trigger] self@.ips[j]).on_plane() by {
                    if j < m0.ips.len() && j != i {
                        assert(self@.ips[j] == m0.ips[j]);
                    }
                }
            }
        }
    }

    /// Whether every pointer has stopped.
    pub fn halted(&self) -> (r: bool)
        ensures
            r == self@.halted(),
    {
        let mut i: usize = 0;
        while i < self.ips.len()
            invariant
                i <= self.ips@.len(),
                forall|j: int| 0 <= j < i ==> (#[trigger] self@.ips[j]).terminated,
            decreases self.ips@.len() - i,
        {
            if !self.ips[i].terminated {
                assert(!self@.ips[i as int].terminated);
                return false;
            }
            i = i + 1;
        }
        true
    }

    /// One round: each pointer present at its start ticks once, with no console input.
    pub fn round(&mut self)
        ensures
            final(self)@ == old(self)@.round(),
            old(self)@.on_plane() ==> final(self)@.on_plane(),
    {
        let ghost m0 = self@;
        let n = self.ips.len();
        let mut i: usize = 0;
        while i < n
            invariant
                i <= n,
                n <= self.ips@.len(),
                n == m0.ips.len(),
                self@.round_from(i as int, n as int) == m0.round_from(0, n as int),
                m0.on_plane() ==> self@.on_plane(),
            decreases n - i,
        {
            self.step(i, Reading::Nothing);
            i = i + 1;
        }
    }

    /// Runs rounds until every pointer has stopped or `max_rounds` rounds have run;
    /// reads from the console fail. Returns whether every pointer has stopped.
    pub fn run(&mut self, max_rounds: usize) -> (r: bool)
        ensures
            final(self)@ == old(self)@.run_rounds(max_rounds as nat),
            r == final(self)@.halted(),
            old(self)@.on_plane() ==> final(self)@.on_plane(),
    {
        let ghost m0 = self@;
        let mut k: usize = max_rounds;
        while k > 0 && !self.halted()
            invariant
                self@.run_rounds(k as nat) == m0.run_rounds(max_rounds as nat),
                m0.on_plane() ==> self@.on_plane(),
            decreases k,
        {
            self.round();
            k = k - 1;
        }
        self.halted()
    }
}

} // verus!

//! Finding the initial instruction pointers: each arrow glyph on the plane seeds one.
use vstd::prelude::*;
use crate::code_grid::CodeGrid;
use crate::direction::Direction;
use crate::ip_state::{IPState, IPView, PLANE_H, PLANE_W};

verus! {

/// The heading an arrow glyph seeds, if `c` is one of `→ ← ↑ ↓`.
pub open spec fn arrow_direction(c: char) -> Option<Direction> {
    if c == '\u{2192}' {
        Some(Direction::Right)
    } else if c == '\u{2190}' {
        Some(Direction::Left)
    } else if c == '\u{2191}' {
        Some(Direction::Up)
    } else if c == '\u{2193}' {
        Some(Direction::Down)
    } else {
        None
    }
}

/// A fresh pointer at `(x, y)` heading `d`.
pub open spec fn fresh_ip(x: int, y: int, d: Direction) -> IPView {
    IPView { x, y, direction: d, terminated: false, stack: Seq::empty(), string_mode: false }
}

/// How many rows the scan visits: the content height, cut to the stored rows and the torus.
pub open spec fn scan_height(g: &CodeGrid) -> int {
    let h = if g.code_height < g.grid@.len() { g.code_height as int } else { g.grid@.len() as int };
    if h < PLANE_H {
        h
    } else {
        PLANE_H as int
    }
}

/// How many cells of row `y` the scan visits: the content width, cut to the row and the torus.
pub open spec fn scan_width(g: &CodeGrid, y: int) -> int {
    let w = if g.code_width < g.grid@[y]@.len() { g.code_width as int } else { g.grid@[y]@.len() as int };
    if w < PLANE_W {
        w
    } else {
        PLANE_W as int
    }
}

/// Whether the scan visits `(x, y)`.
pub open spec fn in_scan(g: &CodeGrid, x: int, y: int) -> bool {
    0 <= y < scan_height(g) && 0 <= x < scan_width(g, y)
}

/// The pointers seeded by the first `n` cells of `row`, which is row `y`, left to right.
pub open spec fn row_seeds(row: Seq<char>, y: int, n: int) -> Seq<IPView>
    decreases n,
{
    if n <= 0 {
        Seq::empty()
    } else {
        let before = row_seeds(row, y, n - 1);
        match arrow_direction(row[n - 1]) {
            Some(d) => before.push(fresh_ip(n - 1, y, d)),
            None => before,
        }
    }
}

/// The pointers seeded by the first `n` scanned rows of `g`, in row-major order.
pub open spec fn grid_seeds(g: &CodeGrid, n: int) -> Seq<IPView>
    decreases n,
{
    if n <= 0 {
        Seq::empty()
    } else {
        grid_seeds(g, n - 1) + row_seeds(g.grid@[n - 1]@, n - 1, scan_width(g, n - 1))
    }
}

/// The pointers a program starts with: its seeds, or one at the origin heading right.
pub open spec fn initial_ips(g: &CodeGrid) -> Seq<IPView> {
    let s = grid_seeds(g, scan_height(g));
    if s.len() == 0 {
        seq![fresh_ip(0, 0, Direction::Right)]
    } else {
        s
    }
}

/// The cell at `(x, y)` once the scan has erased the arrows.
pub open spec fn scanned_cell(g: &CodeGrid, x: int, y: int) -> char {
    if in_scan(g, x, y) && arrow_direction(g.cell(x, y)) is Some {
        ' '
    } else {
        g.cell(x, y)
    }
}

/// The views of a list of pointers.
pub open spec fn views(ips: Seq<IPState>) -> Seq<IPView> {
    ips.map_values(|ip: IPState| ip@)
}

fn arrow_of(c: char) -> (r: Option<Direction>)
    ensures
        r == arrow_direction(c),
{
    match c {
        '\u{2192}' => Some(Direction::Right),
        '\u{2190}' => Some(Direction::Left),
        '\u{2191}' => Some(Direction::Up),
        '\u{2193}' => Some(Direction::Down),
        _ => None,
    }
}

/// Scans the content of the plane row by row; each arrow glyph seeds a pointer there,
/// heading the way it points, and is overwritten with a space. Without arrows the program
/// starts with one pointer at the origin heading right. Cells off the torus seed nothing.
pub fn get_initial_ips(g: &mut CodeGrid) -> (r: Vec<IPState>)
    ensures
        views(r@) == initial_ips(old(g)),
        forall|i: int| 0 <= i < r@.len() ==> (#[trigger] r@[i])@.on_plane(),
        final(g).grid@.len() == old(g).grid@.len(),
        forall|y: int| 0 <= y < old(g).grid@.len() ==> (#[trigger] final(g).grid@[y])@.len()
            == old(g).grid@[y]@.len(),
        forall|x: int, y: int| old(g).in_bounds(x, y) ==> #[trigger] final(g).cell(x, y)
            == scanned_cell(old(g), x, y),
        final(g).code_width == old(g).code_width,
        final(g).code_height == old(g).code_height,
{
    let ghost g0 = *g;
    let mut ips: Vec<IPState> = Vec::new();
    let mut h: usize = if g.code_height < g.grid.len() { g.code_height } else { g.grid.len() };
    if h > PLANE_H {
        h = PLANE_H;
    }
    let mut y: usize = 0;
    while y < h
        invariant
            h == scan_height(&g0),
            y <= h,
            views(ips@) == grid_seeds(&g0, y as int),
            forall|i: int| 0 <= i < ips@.len() ==> (#[trigger] ips@[i])@.on_plane(),
            g.code_width == g0.code_width,
            g.code_height == g0.code_height,
            g.grid@.len() == g0.grid@.len(),
            forall|yy: int| 0 <= yy < g0.grid@.len() ==> (#[trigger] g.grid@[yy])@.len()
                == g0.grid@[yy]@.len(),
            forall|xx: int, yy: int| g0.in_bounds(xx, yy) ==> #[trigger] g.cell(xx, yy) == if yy
                < y {
                scanned_cell(&g0, xx, yy)
            } else {
                g0.cell(xx, yy)
            },
        decreases h - y,
    {
        let mut w: usize = if g.code_width < g.grid[y].len() { g.code_width } else { g.grid[y].len() };
        if w > PLANE_W {
            w = PLANE_W;
        }
        let ghost before = ips@;
        let mut x: usize = 0;
        while x < w
            invariant
                h == scan_height(&g0),
                y < h,
                w == scan_width(&g0, y as int),
                x <= w,
                views(ips@) == grid_seeds(&g0, y as int) + row_seeds(g0.grid@[y as int]@, y as int, x as int),
                forall|i: int| 0 <= i < ips@.len() ==> (#[trigger] ips@[i])@.on_plane(),
                g.code_width == g0.code_width,
                g.code_height == g0.code_height,
                g.grid@.len() == g0.grid@.len(),
                forall|yy: int| 0 <= yy < g0.grid@.len() ==> (#[trigger] g.grid@[yy])@.len()
                    == g0.grid@[yy]@.len(),
                forall|xx: int, yy: int| g0.in_bounds(xx, yy) ==> #[trigger] g.cell(xx, yy) == if yy
                    < y || (yy == y && xx < x) {
                    scanned_cell(&g0, xx, yy)
                } else {
                    g0.cell(xx, yy)
                },
            decreases w - x,
        {
            let c = g.grid[y][x];
            assert(g0.in_bounds(x as int, y as int));
            assert(c == g.cell(x as int, y as int));
            assert(c == g0.cell(x as int, y as int));
            assert(in_scan(&g0, x as int, y as int));
            let ghost prefix = grid_seeds(&g0, y as int);
            let ghost row = g0.grid@[y as int]@;
            match arrow_of(c) {
                Some(d) => {
                    let ghost prev = ips@;
                    ips.push(IPState::new(x, y, d));
                    assert(views(ips@) =~= views(prev).push(fresh_ip(x as int, y as int, d)));
                    assert(prefix + row_seeds(row, y as int, x + 1) =~= (prefix + row_seeds(
                        row,
                        y as int,
                        x as int,
                    )).push(fresh_ip(x as int, y as int, d)));
                    let ghost g1 = *g;
                    g.grid[y][x] = ' ';
                    assert forall|xx: int, yy: int| g0.in_bounds(xx, yy) implies #[trigger] g.cell(
                        xx,
                        yy,
                    ) == if yy < y || (yy == y && xx < x + 1) {
                        scanned_cell(&g0, xx, yy)
                    } else {
                        g0.cell(xx, yy)
                    } by {
                        if xx != x || yy != y {
                            assert(g.cell(xx, yy) == g1.cell(xx, yy));
                        }
                    }
                },
                None => {
                    assert(row_seeds(row, y as int, x + 1) == row_seeds(row, y as int, x as int));
                },
            }
            x = x + 1;
        }
        y = y + 1;
    }
    if ips.len() == 0 {
        ips.push(IPState::new(0, 0, Direction::Right));
        assert(views(ips@) =~= seq![fresh_ip(0, 0, Direction::Right)]);
    }
    ips
}

} // verus!

//! The code plane: the program's characters, readable and writable while it runs.
use vstd::prelude::*;
use crate::errors::InterpreterError;

verus! {

/// Whether `(x, y)` names a cell of `cells`.
pub open spec fn in_cells(cells: Seq<Seq<char>>, x: int, y: int) -> bool {
    0 <= y < cells.len() && 0 <= x < cells[y].len()
}

/// The program text as rows of cells, with the content dimensions found at load time.
#[derive(Debug)]
pub struct CodeGrid {
    pub grid: Vec<Vec<char>>,
    pub code_width: usize,
    pub code_height: usize,
}

impl CodeGrid {
    /// The stored rows.
    pub open spec fn cells(&self) -> Seq<Seq<char>> {
        Seq::new(self.grid@.len(), |i: int| self.grid@[i]@)
    }

    /// Whether `(x, y)` names a stored cell.
    pub open spec fn in_bounds(&self, x: int, y: int) -> bool {
        in_cells(self.cells(), x, y)
    }

    /// The cell at `(x, y)`.
    pub open spec fn cell(&self, x: int, y: int) -> char {
        self.cells()[y][x]
    }

    /// A plane over `grid`, whose content is `code_width` by `code_height`.
    pub fn new(grid: Vec<Vec<char>>, code_width: usize, code_height: usize) -> (r: CodeGrid)
        ensures
            r.grid@ == grid@,
            r.code_width == code_width,
            r.code_height == code_height,
    {
        CodeGrid { grid, code_width, code_height }
    }

    /// The cell at `(x, y)`; `OutOfBounds` where no cell is stored there.
    pub fn get_value(&self, x: usize, y: usize) -> (r: Result<char, InterpreterError>)
        ensures
            self.in_bounds(x as int, y as int) ==> r == Ok::<char, InterpreterError>(
                self.cell(x as int, y as int),
            ),
            !self.in_bounds(x as int, y as int) ==> r == Err::<char, InterpreterError>(
                InterpreterError::OutOfBounds(x, y),
            ),
    {
        if y < self.grid.len() && x < self.grid[y].len() {
            Ok(self.grid[y][x])
        } else {
            Err(InterpreterError::OutOfBounds(x, y))
        }
    }

    /// Writes `value` at `(x, y)`; `OutOfBounds`, with the plane unchanged, where no cell is stored there.
    pub fn set_value(&mut self, x: usize, y: usize, value: char) -> (r: Result<(), InterpreterError>)
        ensures
            old(self).in_bounds(x as int, y as int) ==> r is Ok && final(self).cells() == old(
                self,
            ).cells().update(y as int, old(self).cells()[y as int].update(x as int, value)),
            !old(self).in_bounds(x as int, y as int) ==> r == Err::<(), InterpreterError>(
                InterpreterError::OutOfBounds(x, y),
            ) && final(self).cells() == old(self).cells(),
            final(self).code_width == old(self).code_width,
            final(self).code_height == old(self).code_height,
    {
        if y < self.grid.len() && x < self.grid[y].len() {
            self.grid[y][x] = value;
            assert(self.cells() =~= old(self).cells().update(
                y as int,
                old(self).cells()[y as int].update(x as int, value),
            ));
            Ok(())
        } else {
            Err(InterpreterError::OutOfBounds(x, y))
        }
    }
}

} // verus!

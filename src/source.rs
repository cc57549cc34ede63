//! Turning program text into a plane: one row per line, padded with spaces.
use vstd::prelude::*;
use crate::code_grid::CodeGrid;

verus! {

/// A line without the carriage return that may end it.
pub open spec fn strip_cr(line: Seq<char>) -> Seq<char> {
    if line.len() > 0 && line.last() == '\r' {
        line.drop_last()
    } else {
        line
    }
}

/// The finished lines of `text` and the line still open at its end.
pub open spec fn scan_lines(text: Seq<char>) -> (Seq<Seq<char>>, Seq<char>)
    decreases text.len(),
{
    if text.len() == 0 {
        (Seq::empty(), Seq::empty())
    } else {
        let (done, open) = scan_lines(text.drop_last());
        if text.last() == '\n' {
            (done.push(strip_cr(open)), Seq::empty())
        } else {
            (done, open.push(text.last()))
        }
    }
}

/// The lines of `text`: split at each `\n`, a `\r` just before it dropped, and no empty
/// line after a final line ending.
pub open spec fn split_lines(text: Seq<char>) -> Seq<Seq<char>> {
    let (done, open) = scan_lines(text);
    if open.len() == 0 {
        done
    } else {
        done.push(open)
    }
}

/// The length of the longest of the first `n` lines.
pub open spec fn max_width(lines: Seq<Seq<char>>, n: int) -> nat
    decreases n,
{
    if n <= 0 {
        0
    } else {
        let w = max_width(lines, n - 1);
        if lines[n - 1].len() > w {
            lines[n - 1].len()
        } else {
            w
        }
    }
}

/// `line` padded on the right with spaces to `width` characters.
pub open spec fn pad(line: Seq<char>, width: int) -> Seq<char> {
    line + Seq::new((width - line.len()) as nat, |_i: int| ' ')
}

/// The views of a list of rows.
pub open spec fn rows_of(v: Seq<Vec<char>>) -> Seq<Seq<char>> {
    v.map_values(|r: Vec<char>| r@)
}

fn strip_cr_exec(line: &mut Vec<char>)
    ensures
        final(line)@ == strip_cr(old(line)@),
{
    let n = line.len();
    if n > 0 && line[n - 1] == '\r' {
        line.pop();
    }
}

fn split_lines_exec(text: &Vec<char>) -> (r: Vec<Vec<char>>)
    ensures
        rows_of(r@) == split_lines(text@),
{
    let mut done: Vec<Vec<char>> = Vec::new();
    let mut open: Vec<char> = Vec::new();
    let mut i: usize = 0;
    while i < text.len()
        invariant
            i <= text@.len(),
            (rows_of(done@), open@) == scan_lines(text@.take(i as int)),
        decreases text@.len() - i,
    {
        let c = text[i];
        assert(text@.take(i + 1).drop_last() =~= text@.take(i as int));
        if c == '\n' {
            let mut line = open;
            open = Vec::new();
            strip_cr_exec(&mut line);
            let ghost before = done@;
            done.push(line);
            assert(rows_of(done@) =~= rows_of(before).push(line@));
        } else {
            open.push(c);
        }
        i = i + 1;
    }
    assert(text@.take(text@.len() as int) =~= text@);
    if open.len() > 0 {
        let ghost before = done@;
        done.push(open);
        assert(rows_of(done@) =~= rows_of(before).push(open@));
    }
    done
}

impl CodeGrid {
    /// The plane for program `text`: one row per line (see `split_lines`), each padded with
    /// spaces to the longest line. The content is as wide as that line and as high as the
    /// number of lines; text without lines gives a 0 by 0 content stored as one space.
    pub fn parse(text: &Vec<char>) -> (r: CodeGrid)
        ensures
            ({
                let lines = split_lines(text@);
                let width = max_width(lines, lines.len() as int);
                &&& r.code_height == lines.len()
                &&& r.code_width == width
                &&& lines.len() == 0 ==> r.cells() == seq![seq![' ']]
                &&& lines.len() > 0 ==> r.cells() == Seq::new(
                    lines.len(),
                    |y: int| pad(lines[y], width as int),
                )
            }),
    {
        let lines = split_lines_exec(text);
        let ghost ls = rows_of(lines@);
        let mut width: usize = 0;
        let mut k: usize = 0;
        while k < lines.len()
            invariant
                k <= lines@.len(),
                ls == rows_of(lines@),
                width == max_width(ls, k as int),
            decreases lines@.len() - k,
        {
            if lines[k].len() > width {
                width = lines[k].len();
            }
            k = k + 1;
        }
        let height = lines.len();
        let mut grid: Vec<Vec<char>> = Vec::new();
        let mut y: usize = 0;
        while y < height
            invariant
                y <= height,
                height == lines@.len(),
                ls == rows_of(lines@),
                width == max_width(ls, height as int),
                rows_of(grid@) == Seq::new(y as nat, |j: int| pad(ls[j], width as int)),
            decreases height - y,
        {
            proof {
                lemma_max_width_bounds(ls, height as int, y as int);
            }
            let mut row = lines[y].clone();
            assert(row@ == ls[y as int]);
            assert(row@ =~= pad(ls[y as int], row@.len() as int));
            while row.len() < width
                invariant
                    0 <= y < ls.len(),
                    ls[y as int].len() <= row@.len() <= width,
                    row@ == pad(ls[y as int], row@.len() as int),
                decreases width - row@.len(),
            {
                let ghost before = row@;
                row.push(' ');
                assert(row@ =~= pad(ls[y as int], row@.len() as int));
            }
            assert(row@ == pad(ls[y as int], width as int));
            let ghost before = grid@;
            grid.push(row);
            assert(rows_of(grid@) =~= rows_of(before).push(pad(ls[y as int], width as int)));
            assert(Seq::new((y + 1) as nat, |j: int| pad(ls[j], width as int)) =~= Seq::new(
                y as nat,
                |j: int| pad(ls[j], width as int),
            ).push(pad(ls[y as int], width as int)));
            y = y + 1;
        }
        if height == 0 {
            let mut only: Vec<char> = Vec::new();
            only.push(' ');
            grid.push(only);
        }
        let r = CodeGrid::new(grid, width, height);
        assert(r.cells() =~= rows_of(grid@));
        r
    }
}

proof fn lemma_max_width_bounds(lines: Seq<Seq<char>>, n: int, y: int)
    requires
        0 <= y < n,
    ensures
        lines[y].len() <= max_width(lines, n),
    decreases n,
{
    if y < n - 1 {
        lemma_max_width_bounds(lines, n - 1, y);
    }
}

} // verus!

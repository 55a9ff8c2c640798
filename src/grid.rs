use vstd::prelude::*;

verus! {

/// The program: a rectangular grid of characters stored row by row, with the
/// cell just before the first one to execute.
#[derive(Debug)]
pub struct Grid {
    pub grid: Vec<char>,
    pub width: usize,
    pub height: usize,
    pub x0: usize,
    pub y0: usize,
}

impl Grid {
    /// The cells fill exactly `width * height` places, and the sides and
    /// the start can be written as signed 64-bit coordinates.
    pub open spec fn wf(&self) -> bool {
        &&& self.grid@.len() == self.width * self.height
        &&& self.width <= i64::MAX
        &&& self.height <= i64::MAX
        &&& self.x0 < i64::MAX
        &&& self.y0 < i64::MAX
    }

    pub open spec fn in_bounds(&self, x: int, y: int) -> bool {
        0 <= x < self.width && 0 <= y < self.height
    }

    /// The character in column `x` of row `y`.
    pub open spec fn cell(&self, x: int, y: int) -> char {
        at_offset(self.grid@, self.width as int, x, y)
    }

    /// The character at a row-major offset.
    pub fn index(&self, index: usize) -> (r: char)
        requires
            index < self.grid@.len(),
        ensures
            r == self.grid@[index as int],
    {
        self.grid[index]
    }

    /// The character in column `x` of row `y`.
    pub fn at(&self, x: usize, y: usize) -> (r: char)
        requires
            self.wf(),
            self.in_bounds(x as int, y as int),
        ensures
            r == self.cell(x as int, y as int),
    {
        let n = self.grid.len();
        proof {
            lemma_offset_in_bounds(x as int, y as int, self.width as int, self.height as int);
        }
        assert(x + y * self.width < n);
        self.index(x + y * self.width)
    }
}

/// The character in column `x` of row `y` of row-major cells `w` wide.
pub open spec fn at_offset(cells: Seq<char>, w: int, x: int, y: int) -> char {
    cells[x + y * w]
}

/// The length of the longest line.
pub open spec fn max_len(lines: Seq<Vec<char>>) -> nat
    decreases lines.len(),
{
    if lines.len() == 0 {
        0
    } else {
        let m = max_len(lines.drop_last());
        let l = lines.last()@.len();
        if l > m {
            l
        } else {
            m
        }
    }
}

/// The character of line `y` in column `x`, with short lines padded by spaces.
pub open spec fn padded(lines: Seq<Vec<char>>, x: int, y: int) -> char {
    if x < lines[y]@.len() {
        lines[y]@[x]
    } else {
        ' '
    }
}

/// Line `y` holds a start marker `.` in column `x`.
pub open spec fn is_dot(lines: Seq<Vec<char>>, x: int, y: int) -> bool {
    &&& 0 <= y < lines.len()
    &&& 0 <= x < lines[y]@.len()
    &&& lines[y]@[x] == '.'
}

/// `(x, y)` is the first start marker in row-major order.
pub open spec fn first_dot(lines: Seq<Vec<char>>, x: int, y: int) -> bool {
    &&& is_dot(lines, x, y)
    &&& forall|c: int, r: int| #[trigger] is_dot(lines, c, r) ==> r > y || (r == y && c >= x)
}

pub open spec fn has_dot(lines: Seq<Vec<char>>) -> bool {
    exists|c: int, r: int| #[trigger] is_dot(lines, c, r)
}

/// The grid of the lines, one column wider than the longest, can be held in
/// memory and addressed with signed 64-bit coordinates.
pub open spec fn fits(lines: Seq<Vec<char>>) -> bool {
    let w = max_len(lines) + 1;
    &&& w <= usize::MAX
    &&& w * lines.len() <= usize::MAX
    &&& w * lines.len() <= i64::MAX
}

/// `g` is the grid of the lines: one row per line, one column wider than the
/// longest line, padded with spaces, starting at the first `.` or else at
/// the origin.
pub open spec fn grid_of_lines(lines: Seq<Vec<char>>, g: Grid) -> bool {
    &&& g.wf()
    &&& g.height == lines.len()
    &&& g.width == max_len(lines) + 1
    &&& forall|x: int, y: int|
        0 <= x < g.width && 0 <= y < g.height ==> #[trigger] g.cell(x, y) == padded(lines, x, y)
    &&& has_dot(lines) ==> first_dot(lines, g.x0 as int, g.y0 as int)
    &&& !has_dot(lines) ==> g.x0 == 0 && g.y0 == 0
}

/// No line is longer than the longest.
pub proof fn lemma_max_len_bounds(lines: Seq<Vec<char>>, i: int)
    requires
        0 <= i < lines.len(),
    ensures
        lines[i]@.len() <= max_len(lines),
    decreases lines.len(),
{
    if i < lines.len() - 1 {
        lemma_max_len_bounds(lines.drop_last(), i);
    }
}

impl Grid {
    /// Builds the grid of a program's lines; `None` where it would not fit.
    pub fn from_lines(lines: &Vec<Vec<char>>) -> (r: Option<Grid>)
        ensures
            r is None <==> !fits(lines@),
            r is Some ==> grid_of_lines(lines@, r.unwrap()),
    {
        let h = lines.len();
        let mut longest: usize = 0;
        let mut i: usize = 0;
        while i < h
            invariant
                i <= h == lines@.len(),
                longest == max_len(lines@.subrange(0, i as int)),
            decreases h - i,
        {
            assert(lines@.subrange(0, i + 1).drop_last() =~= lines@.subrange(0, i as int));
            if lines[i].len() > longest {
                longest = lines[i].len();
            }
            i = i + 1;
        }
        assert(lines@.subrange(0, h as int) =~= lines@);
        if longest == usize::MAX {
            return None;
        }
        let w = longest + 1;
        let total = match w.checked_mul(h) {
            Some(t) => t,
            None => {
                return None;
            },
        };
        if total as u64 > i64::MAX as u64 {
            return None;
        }
        let mut cells: Vec<char> = Vec::new();
        let mut start: Option<(usize, usize)> = None;
        let mut y: usize = 0;
        while y < h
            invariant
                h == lines@.len(),
                w == max_len(lines@) + 1,
                y <= h,
                cells@.len() == y * w,
                forall|xx: int, yy: int|
                    0 <= xx < w && 0 <= yy < y ==> #[trigger] at_offset(cells@, w as int, xx, yy)
                        == padded(lines@, xx, yy),
                start is None ==> forall|c: int, r: int| 0 <= r < y ==> !#[trigger] is_dot(lines@, c, r),
                start is Some ==> first_dot(lines@, start.unwrap().0 as int, start.unwrap().1 as int),
            decreases h - y,
        {
            let line = &lines[y];
            proof {
                lemma_max_len_bounds(lines@, y as int);
            }
            let mut x: usize = 0;
            while x < w
                invariant
                    h == lines@.len(),
                    w == max_len(lines@) + 1,
                    y < h,
                    *line == lines@[y as int],
                    x <= w,
                    cells@.len() == y * w + x,
                    forall|xx: int, yy: int|
                        0 <= xx < w && 0 <= yy < y ==> #[trigger] at_offset(cells@, w as int, xx, yy)
                            == padded(lines@, xx, yy),
                    forall|xx: int|
                        0 <= xx < x ==> #[trigger] at_offset(cells@, w as int, xx, y as int)
                            == padded(lines@, xx, y as int),
                    start is None ==> forall|c: int, r: int|
                        0 <= r < y ==> !#[trigger] is_dot(lines@, c, r),
                    start is None ==> forall|c: int| 0 <= c < x ==> !#[trigger] is_dot(lines@, c, y as int),
                    start is Some ==> first_dot(lines@, start.unwrap().0 as int, start.unwrap().1 as int),
                decreases w - x,
            {
                let ch = if x < line.len() {
                    line[x]
                } else {
                    ' '
                };
                if start.is_none() && ch == '.' && x < line.len() {
                    start = Some((x, y));
                }
                let ghost before = cells@;
                cells.push(ch);
                proof {
                    assert forall|xx: int, yy: int|
                        0 <= xx < w && 0 <= yy < y implies #[trigger] at_offset(cells@, w as int, xx, yy)
                            == padded(lines@, xx, yy) by {
                        lemma_offset_in_bounds(xx, yy, w as int, y as int);
                        assert(w * y == y * w) by (nonlinear_arith);
                        assert(cells@[xx + yy * w] == before[xx + yy * w]);
                        assert(at_offset(before, w as int, xx, yy) == padded(lines@, xx, yy));
                    }
                    assert forall|xx: int|
                        0 <= xx <= x implies #[trigger] at_offset(cells@, w as int, xx, y as int)
                            == padded(lines@, xx, y as int) by {
                        if xx < x {
                            assert(at_offset(before, w as int, xx, y as int) == padded(lines@, xx, y as int));
                        }
                    }
                }
                x = x + 1;
            }
            proof {
                assert((y + 1) * w == y * w + w) by (nonlinear_arith);
                assert forall|c: int| !(0 <= c < w) implies !#[trigger] is_dot(lines@, c, y as int) by {}
            }
            y = y + 1;
        }
        proof {
            if !(start is Some) {
                assert forall|c: int, r: int| !#[trigger] is_dot(lines@, c, r) by {}
            }
        }
        let (x0, y0) = match start {
            Some(p) => p,
            None => (0, 0),
        };
        let g = Grid { grid: cells, width: w, height: h, x0, y0 };
        assert(g.wf()) by {
            assert(g.grid@.len() == g.width * g.height) by (nonlinear_arith)
                requires
                    g.grid@.len() == h * w,
                    g.width == w,
                    g.height == h,
            ;
            if h > 0 {
                assert(w <= w * h && h <= w * h) by (nonlinear_arith)
                    requires
                        h >= 1,
                        w >= 1,
                ;
            } else {
                assert(max_len(lines@) == 0);
            }
            if start is Some {
                lemma_max_len_bounds(lines@, y0 as int);
            }
        }
        Some(g)
    }
}

/// A cell offset `x + y * w` of a `w` by `h` grid lies before `w * h`.
pub proof fn lemma_offset_in_bounds(x: int, y: int, w: int, h: int)
    requires
        0 <= x < w,
        0 <= y < h,
    ensures
        0 <= y * w,
        0 <= x + y * w < w * h,
{
    assert(0 <= y * w) by (nonlinear_arith)
        requires
            0 <= y,
            0 <= w,
    ;
    assert(x + y * w < w * h) by (nonlinear_arith)
        requires
            0 <= x < w,
            0 <= y < h,
    ;
}

} // verus!

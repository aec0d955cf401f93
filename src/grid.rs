//! The character grid that every widget draws into.
use vstd::prelude::*;

verus! {

/// Largest number of rows, and of columns, of a grid.
pub const MAX_DIM: usize = 1024;

/// The "untouched" cell: the video background shows through.
pub const TRANSPARENT: u8 = 0;

/// The explicitly blank, opaque cell.
pub const BLANK: u8 = 32;

/// Rows of bytes, all of one width. A cell holds `TRANSPARENT`, `BLANK`,
/// a printable ASCII byte, or a glyph code.
pub struct Grid {
    lines: Vec<Vec<u8>>,
    cols: usize,
}

/// The fade applied to one cell at the start of a frame: an explicit blank
/// becomes transparent, anything else written becomes blank.
pub open spec fn faded(b: u8) -> u8 {
    if b == BLANK {
        TRANSPARENT
    } else if b > 0 {
        BLANK
    } else {
        TRANSPARENT
    }
}

/// Row `r` of `g` with the bytes `s` written from column `c` on.
pub open spec fn write_run(g: Seq<Seq<u8>>, r: int, c: int, s: Seq<u8>) -> Seq<Seq<u8>> {
    g.update(r, Seq::new(g[r].len(), |i: int| if c <= i < c + s.len() { s[i - c] } else { g[r][i] }))
}

impl Grid {
    pub closed spec fn view(&self) -> Seq<Seq<u8>> {
        self.lines@.map_values(|l: Vec<u8>| l@)
    }

    /// Number of columns of every row.
    pub closed spec fn width(&self) -> nat {
        self.cols as nat
    }

    pub open spec fn wf(&self) -> bool {
        &&& self@.len() <= MAX_DIM
        &&& 1 <= self.width() <= MAX_DIM
        &&& forall|r: int| 0 <= r < self@.len() ==> #[trigger] self@[r].len() == self.width()
    }

    /// A grid of `rows` transparent rows of `cols` cells.
    pub fn new(rows: usize, cols: usize) -> (g: Grid)
        requires
            rows <= MAX_DIM,
            1 <= cols <= MAX_DIM,
        ensures
            g.wf(),
            g@.len() == rows,
            g.width() == cols,
            forall|r: int, c: int| 0 <= r < rows && 0 <= c < cols ==> #[trigger] g@[r][c] == TRANSPARENT,
    {
        let mut lines: Vec<Vec<u8>> = Vec::new();
        let mut r: usize = 0;
        while r < rows
            invariant
                r <= rows,
                lines@.len() == r,
                forall|k: int| 0 <= k < r ==> #[trigger] lines@[k]@ == Seq::new(cols as nat, |i: int| 0u8),
            decreases rows - r,
        {
            let mut line: Vec<u8> = Vec::new();
            let mut c: usize = 0;
            while c < cols
                invariant
                    c <= cols,
                    line@ == Seq::new(c as nat, |i: int| 0u8),
                decreases cols - c,
            {
                line.push(0);
                c = c + 1;
                assert(line@ =~= Seq::new(c as nat, |i: int| 0u8));
            }
            lines.push(line);
            r = r + 1;
        }
        let g = Grid { lines, cols };
        assert forall|r: int| 0 <= r < g@.len() implies #[trigger] g@[r].len() == g.width() by {
            assert(g@[r] == g.lines@[r]@);
        }
        assert forall|r: int, c: int| 0 <= r < rows && 0 <= c < cols implies #[trigger] g@[r][c] == TRANSPARENT by {
            assert(g@[r] == g.lines@[r]@);
        }
        g
    }

    pub fn rows(&self) -> (n: usize)
        ensures
            n == self@.len(),
    {
        self.lines.len()
    }

    pub fn cols(&self) -> (n: usize)
        ensures
            n == self.width(),
    {
        self.cols
    }

    pub fn get(&self, r: usize, c: usize) -> (b: u8)
        requires
            self.wf(),
            r < self@.len(),
            c < self.width(),
        ensures
            b == self@[r as int][c as int],
    {
        assert(self@[r as int] == self.lines@[r as int]@);
        self.lines[r][c]
    }

    /// A copy of row `r`.
    pub fn row(&self, r: usize) -> (line: Vec<u8>)
        requires
            self.wf(),
            r < self@.len(),
        ensures
            line@ == self@[r as int],
    {
        assert(self@[r as int] == self.lines@[r as int]@);
        let src = &self.lines[r];
        let mut line: Vec<u8> = Vec::new();
        let mut c: usize = 0;
        while c < src.len()
            invariant
                c <= src@.len(),
                line@ == src@.subrange(0, c as int),
            decreases src@.len() - c,
        {
            line.push(src[c]);
            c = c + 1;
            assert(line@ =~= src@.subrange(0, c as int));
        }
        assert(line@ =~= src@);
        line
    }

    pub fn set(&mut self, r: usize, c: usize, v: u8)
        requires
            old(self).wf(),
            r < old(self)@.len(),
            c < old(self).width(),
        ensures
            final(self).wf(),
            final(self).width() == old(self).width(),
            final(self)@ == old(self)@.update(r as int, old(self)@[r as int].update(c as int, v)),
    {
        let mut line: Vec<u8> = Vec::new();
        std::mem::swap(&mut line, &mut self.lines[r]);
        assert(line@ == old(self)@[r as int]);
        line.set(c, v);
        self.lines.set(r, line);
        assert(self@ =~= old(self)@.update(r as int, old(self)@[r as int].update(c as int, v)));
        assert forall|k: int| 0 <= k < self@.len() implies #[trigger] self@[k].len() == self.width() by {
            if k != r {
                assert(self@[k] == old(self)@[k]);
            }
        }
    }

    /// Writes `bytes` into row `r` from column `c` on.
    pub fn write(&mut self, r: usize, c: usize, bytes: &[u8])
        requires
            old(self).wf(),
            r < old(self)@.len(),
            c + bytes@.len() <= old(self).width(),
        ensures
            final(self).wf(),
            final(self).width() == old(self).width(),
            final(self)@ == write_run(old(self)@, r as int, c as int, bytes@),
    {
        let mut k: usize = 0;
        assert(self@ =~~= write_run(old(self)@, r as int, c as int, bytes@.subrange(0, 0)));
        while k < bytes.len()
            invariant
                self.wf(),
                self.width() == old(self).width(),
                k <= bytes@.len(),
                r < old(self)@.len(),
                c + bytes@.len() <= old(self).width(),
                self@ == write_run(old(self)@, r as int, c as int, bytes@.subrange(0, k as int)),
            decreases bytes@.len() - k,
        {
            self.set(r, c + k, bytes[k]);
            k = k + 1;
            assert(self@ =~~= write_run(old(self)@, r as int, c as int, bytes@.subrange(0, k as int)));
        }
        assert(bytes@.subrange(0, k as int) =~= bytes@);
    }

    /// Sets every cell of row `r` to `v`.
    pub fn fill_row(&mut self, r: usize, v: u8)
        requires
            old(self).wf(),
            r < old(self)@.len(),
        ensures
            final(self).wf(),
            final(self).width() == old(self).width(),
            final(self)@ == old(self)@.update(r as int, Seq::new(old(self).width(), |i: int| v)),
    {
        let mut k: usize = 0;
        assert(self@ =~~= old(self)@.update(r as int, Seq::new(old(self).width(), |i: int| if i < 0 { v } else { old(self)@[r as int][i] })));
        while k < self.cols
            invariant
                self.wf(),
                self.width() == old(self).width(),
                self.cols == old(self).width(),
                k <= self.cols,
                r < old(self)@.len(),
                self@ == old(self)@.update(r as int, Seq::new(old(self).width(), |i: int| if i < k { v } else { old(self)@[r as int][i] })),
            decreases self.cols - k,
        {
            self.set(r, k, v);
            k = k + 1;
            assert(self@ =~~= old(self)@.update(r as int, Seq::new(old(self).width(), |i: int| if i < k { v } else { old(self)@[r as int][i] })));
        }
        assert(self@ =~~= old(self)@.update(r as int, Seq::new(old(self).width(), |i: int| v)));
    }

    /// Starts a frame: every cell goes through `faded`.
    pub fn fade(&mut self)
        requires
            old(self).wf(),
        ensures
            final(self).wf(),
            final(self).width() == old(self).width(),
            final(self)@.len() == old(self)@.len(),
            forall|r: int, c: int| 0 <= r < old(self)@.len() && 0 <= c < old(self).width()
                ==> #[trigger] final(self)@[r][c] == faded(old(self)@[r][c]),
    {
        let rows = self.lines.len();
        let mut r: usize = 0;
        while r < rows
            invariant
                self.wf(),
                self.width() == old(self).width(),
                self.cols == old(self).width(),
                rows == old(self)@.len(),
                self@.len() == rows,
                r <= rows,
                forall|i: int, c: int| 0 <= i < rows && 0 <= c < self.width()
                    ==> #[trigger] self@[i][c] == if i < r { faded(old(self)@[i][c]) } else { old(self)@[i][c] },
            decreases rows - r,
        {
            let mut c: usize = 0;
            while c < self.cols
                invariant
                    self.wf(),
                    self.width() == old(self).width(),
                    self.cols == old(self).width(),
                    rows == old(self)@.len(),
                    self@.len() == rows,
                    r < rows,
                    c <= self.cols,
                    forall|i: int, k: int| 0 <= i < rows && 0 <= k < self.width()
                        ==> #[trigger] self@[i][k] == if i < r || (i == r && k < c) { faded(old(self)@[i][k]) } else { old(self)@[i][k] },
                decreases self.cols - c,
            {
                let b = self.get(r, c);
                let nb: u8 = if b == BLANK {
                    TRANSPARENT
                } else if b > 0 {
                    BLANK
                } else {
                    TRANSPARENT
                };
                self.set(r, c, nb);
                c = c + 1;
            }
            r = r + 1;
        }
    }
}

} // verus!

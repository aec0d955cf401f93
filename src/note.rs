//! Free text notes, one row per line.
use vstd::prelude::*;
use crate::drawable::{Align, NumOfLine};
use crate::grid::{write_run, Grid};

verus! {

/// Bound on the length of a note's text.
pub const MAX_NOTE: usize = 0x7fff_ffff;

/// The lines of `s`, split at each newline (byte 10).
pub open spec fn split_lines(s: Seq<u8>) -> Seq<Seq<u8>>
    decreases s.len(),
{
    if s.len() == 0 {
        seq![Seq::empty()]
    } else {
        let p = split_lines(s.drop_last());
        if s.last() == 10 {
            p.push(Seq::empty())
        } else {
            p.update(p.len() - 1, p.last().push(s.last()))
        }
    }
}

pub proof fn lemma_split_lines_len(s: Seq<u8>)
    ensures
        split_lines(s).len() >= 1,
    decreases s.len(),
{
    if s.len() > 0 {
        lemma_split_lines_len(s.drop_last());
    }
}

/// Column where a line of `len` bytes starts in a row of `width` cells.
pub open spec fn note_offset(align: Align, width: int, len: int) -> int {
    match align {
        Align::Center => width / 2 - len / 2,
        Align::Right => width - len,
        _ => 0,
    }
}

/// `g` with `lines` written on the rows from `top` on; a line that does not
/// fit the `height` rows or the row's width is left out.
pub open spec fn notes_drawn(g: Seq<Seq<u8>>, top: int, height: int, width: int, lines: Seq<Seq<u8>>, align: Align) -> Seq<Seq<u8>>
    decreases lines.len(),
{
    if lines.len() == 0 {
        g
    } else {
        let g1 = notes_drawn(g, top, height, width, lines.drop_last(), align);
        let i = lines.len() - 1;
        let l = lines.last();
        if i < height && l.len() <= width {
            write_run(g1, top + i, note_offset(align, width, l.len() as int), l)
        } else {
            g1
        }
    }
}

/// Writes `line` as the `index`-th row of the slot when it fits.
fn note_line(line: &Vec<u8>, index: usize, align: Align, grid: &mut Grid, top: usize, bottom: usize)
    requires
        old(grid).wf(),
        top <= bottom <= old(grid)@.len(),
    ensures
        final(grid).wf(),
        final(grid).width() == old(grid).width(),
        final(grid)@.len() == old(grid)@.len(),
        final(grid)@ == if index < bottom - top && line@.len() <= old(grid).width() {
            write_run(old(grid)@, top + index, note_offset(align, old(grid).width() as int, line@.len() as int), line@)
        } else {
            old(grid)@
        },
{
    let w = grid.cols();
    if index < bottom - top && line.len() <= w {
        let offset = match align {
            Align::Center => w / 2 - line.len() / 2,
            Align::Right => w - line.len(),
            _ => 0,
        };
        grid.write(top + index, offset, line.as_slice());
    }
}

/// Writes the lines of `text` from the slot's first row on and returns how
/// many lines the text has.
pub fn note(text: &Vec<u8>, align: Align, grid: &mut Grid, top: usize, bottom: usize) -> (n: NumOfLine)
    requires
        old(grid).wf(),
        top <= bottom <= old(grid)@.len(),
        text@.len() < MAX_NOTE,
    ensures
        n == split_lines(text@).len(),
        final(grid).wf(),
        final(grid).width() == old(grid).width(),
        final(grid)@.len() == old(grid)@.len(),
        final(grid)@ == notes_drawn(old(grid)@, top as int, bottom - top, old(grid).width() as int, split_lines(text@), align),
{
    let ghost w = old(grid).width() as int;
    let ghost h = bottom - top;
    let mut line: Vec<u8> = Vec::new();
    let mut index: usize = 0;
    let mut k: usize = 0;
    proof {
        assert(text@.subrange(0, 0) =~= Seq::<u8>::empty());
        assert(split_lines(Seq::<u8>::empty()).drop_last() =~= Seq::<Seq<u8>>::empty());
    }
    while k < text.len()
        invariant
            grid.wf(),
            grid.width() == old(grid).width(),
            top <= bottom <= old(grid)@.len(),
            w == old(grid).width(),
            grid@.len() == old(grid)@.len(),
            h == bottom - top,
            k <= text@.len(),
            text@.len() < MAX_NOTE,
            index == split_lines(text@.subrange(0, k as int)).len() - 1,
            index <= k,
            line@ == split_lines(text@.subrange(0, k as int)).last(),
            grid@ == notes_drawn(old(grid)@, top as int, h, w, split_lines(text@.subrange(0, k as int)).drop_last(), align),
        decreases text@.len() - k,
    {
        let ghost prefix = text@.subrange(0, k as int);
        let ghost next = text@.subrange(0, k as int + 1);
        proof {
            lemma_split_lines_len(prefix);
            assert(next.drop_last() =~= prefix);
            assert(next.last() == text@[k as int]);
        }
        if text[k] == 10 {
            let ghost p = split_lines(prefix);
            note_line(&line, index, align, grid, top, bottom);
            proof {
                assert(split_lines(next) == p.push(Seq::empty()));
                assert(split_lines(next).drop_last() =~= p);
                assert(p.drop_last().push(p.last()) =~= p);
            }
            line = Vec::new();
            index = index + 1;
        } else {
            line.push(text[k]);
            proof {
                let p = split_lines(prefix);
                assert(split_lines(next).drop_last() =~= p.drop_last());
            }
        }
        k = k + 1;
    }
    proof {
        assert(text@.subrange(0, k as int) =~= text@);
        lemma_split_lines_len(text@);
        let p = split_lines(text@);
        assert(p.drop_last().push(p.last()) =~= p);
    }
    note_line(&line, index, align, grid, top, bottom);
    index + 1
}

} // verus!

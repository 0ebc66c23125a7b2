use crate::cell::{blank_cell, cell_commands, same_cell, Cell};
use crate::color::{Color, Modifier, TermCommand};
use crate::size::{min_int, Size};
use crate::unicode::{char_string, display_width, display_width_of, graphemes, graphemes_of};
use vstd::prelude::*;

verus! {

/// The symbol written over a row that a renderer has just scrolled into view:
/// it never comes out of a view, so every cell of that row is repainted.
pub const STALE_SYMBOL: char = '\u{ac}';

/// `c` shows `symbol` in `fg` with `modifier`, on `bg` when one is given and
/// otherwise on the background of `prev`, the cell it replaced.
pub open spec fn styled(c: Cell, prev: Cell, symbol: Seq<char>, fg: Color, bg: Option<Color>, modifier: Modifier) -> bool {
    &&& c.symbol@ == symbol
    &&& c.fg == fg
    &&& c.modifier == modifier
    &&& c.bg == match bg {
        Some(b) => b,
        None => prev.bg,
    }
}

/// The text of `len` cells starting at index `start`, symbol after symbol.
pub open spec fn row_text(cells: Seq<Cell>, start: int, len: int) -> Seq<char>
    decreases len,
{
    if len <= 0 {
        Seq::empty()
    } else {
        row_text(cells, start, len - 1) + cells[start + len - 1].symbol@
    }
}

/// The text of the first `rows` rows of `width` cells, joined by newlines.
pub open spec fn rows_text(cells: Seq<Cell>, width: int, rows: int) -> Seq<char>
    decreases rows,
{
    if rows <= 0 {
        Seq::empty()
    } else if rows == 1 {
        row_text(cells, 0, width)
    } else {
        rows_text(cells, width, rows - 1) + seq!['\n'] + row_text(cells, (rows - 1) * width, width)
    }
}

pub proof fn lemma_index_in_bounds(w: int, h: int, x: int, y: int)
    requires
        0 <= x < w <= 0xffff,
        0 <= y < h <= 0xffff,
    ensures
        0 <= y * w + x < w * h,
        y * w + w <= w * h,
        w * h <= 0xfffe0001,
{
    lemma_row_in_bounds(w, h, y);
}

proof fn lemma_row_in_bounds(w: int, h: int, y: int)
    requires
        0 <= w <= 0xffff,
        0 <= y < h <= 0xffff,
    ensures
        0 <= y * w,
        y * w + w <= w * h,
        w * h <= 0xfffe0001,
{
    assert(w * h <= 0xffff * 0xffff) by (nonlinear_arith)
        requires
            0 <= w <= 0xffff,
            0 <= h <= 0xffff,
    ;
    assert(y * w + w <= w * h) by (nonlinear_arith)
        requires
            0 <= y < h,
            0 <= w,
    ;
    assert(0 <= y * w) by (nonlinear_arith)
        requires
            0 <= y,
            0 <= w,
    ;
}

/// `out` followed by the commands that draw `len` cells from index `start`,
/// each styled on its own.
pub open spec fn row_commands(out: Seq<TermCommand>, cells: Seq<Cell>, start: int, len: nat) -> Seq<
    TermCommand,
>
    decreases len,
{
    if len == 0 {
        out
    } else {
        cell_commands(row_commands(out, cells, start, (len - 1) as nat), cells[start + len - 1])
    }
}

/// The commands that draw the first `rows` rows of `width` cells, with a
/// line break between rows.
pub open spec fn rows_commands(cells: Seq<Cell>, width: nat, rows: nat) -> Seq<TermCommand>
    decreases rows,
{
    if rows == 0 {
        Seq::empty()
    } else if rows == 1 {
        row_commands(Seq::empty(), cells, 0, width)
    } else {
        row_commands(
            rows_commands(cells, width, (rows - 1) as nat).push(TermCommand::LineBreak),
            cells,
            (rows - 1) * width,
            width,
        )
    }
}

/// Two different positions within the width `w` are two different cells.
pub proof fn lemma_cells_distinct(w: int, x1: int, y1: int, x2: int, y2: int)
    requires
        0 <= x1 < w,
        0 <= x2 < w,
        0 <= y1,
        0 <= y2,
        x1 != x2 || y1 != y2,
    ensures
        y1 * w + x1 != y2 * w + x2,
{
    lemma_rows_apart(w, x1, y1, y2);
}

/// A cell of row `y1` lies outside the cells of any other row `y2`.
pub proof fn lemma_rows_apart(w: int, x1: int, y1: int, y2: int)
    requires
        0 <= x1 < w,
        0 <= y1,
        0 <= y2,
    ensures
        y1 != y2 ==> (y1 * w + x1 < y2 * w || y1 * w + x1 >= y2 * w + w),
{
    if y1 < y2 {
        assert(y1 * w + w <= y2 * w) by (nonlinear_arith)
            requires
                y1 < y2,
                w >= 0,
        ;
    } else if y2 < y1 {
        assert(y2 * w + w <= y1 * w) by (nonlinear_arith)
            requires
                y2 < y1,
                w >= 0,
        ;
    }
}

/// How many of the graphemes of `gs` from index `i` on fit, one after the
/// other, in `budget` columns of display width.
pub open spec fn fitting_from(gs: Seq<Seq<char>>, i: int, budget: int) -> int
    decreases gs.len() - i,
{
    if i < 0 || i >= gs.len() || display_width_of(gs[i]) > budget {
        0
    } else {
        1 + fitting_from(gs, i + 1, budget - display_width_of(gs[i]))
    }
}

/// `after` is `before` with the graphemes of `s` written from (`x`, `y`)
/// rightward, one per cell, for as many as `Buffer::span_len` allows; every
/// other cell is unchanged.
pub open spec fn wrote_string(
    before: Buffer,
    after: Buffer,
    x: u16,
    y: u16,
    max_width: u16,
    s: Seq<char>,
    fg: Color,
    bg: Option<Color>,
    modifier: Modifier,
) -> bool {
    forall|i: int|
        #![trigger after.cells@[i]]
        0 <= i < before.cells@.len() ==> {
            let start = before.index_of(x as int, y as int);
            let n = before.span_len(x as int, y as int, max_width as int, s);
            if start <= i < start + n {
                styled(after.cells@[i], before.cells@[i], graphemes_of(s)[i - start], fg, bg, modifier)
            } else {
                after.cells@[i] == before.cells@[i]
            }
        }
}

/// A grid of cells in row-major order.
#[derive(Clone, Debug, PartialEq, Eq)]
pub struct Buffer {
    pub size: Size,
    pub cells: Vec<Cell>,
}

impl Buffer {
    /// The buffer holds exactly one cell per position.
    pub open spec fn wf(&self) -> bool {
        self.cells@.len() == self.size.width as int * self.size.height as int
    }

    pub open spec fn in_bounds(&self, x: int, y: int) -> bool {
        0 <= x < self.size.width && 0 <= y < self.size.height
    }

    /// The index of the cell at column `x` of row `y`.
    pub open spec fn index_of(&self, x: int, y: int) -> int {
        y * self.size.width + x
    }

    pub open spec fn cell_at(&self, x: int, y: int) -> Cell {
        self.cells@[self.index_of(x, y)]
    }

    /// How many graphemes of `s` a string write at (`x`, `y`) lays down,
    /// one per cell: those whose display widths fit, one after the other,
    /// in `max_width` columns, and no more cells than `max_width` or than
    /// the row has room for.
    pub open spec fn span_len(&self, x: int, y: int, max_width: int, s: Seq<char>) -> int {
        if self.in_bounds(x, y) {
            min_int(
                min_int(fitting_from(graphemes_of(s), 0, max_width), max_width),
                self.size.width - x,
            )
        } else {
            0
        }
    }

    /// The cells hold what the row text of `rows_text` shows.
    pub open spec fn plain_text(&self) -> Seq<char> {
        rows_text(self.cells@, self.size.width as int, self.size.height as int)
    }

    /// `r` lists, in row-major order, each position where `self` and
    /// `previous` differ, with the cell of `self` there, and nothing else.
    pub open spec fn is_diff(&self, previous: &Buffer, r: Seq<(u16, u16, Cell)>) -> bool {
        &&& forall|k: int|
            #![trigger r[k]]
            0 <= k < r.len() ==> {
                &&& self.in_bounds(r[k].0 as int, r[k].1 as int)
                &&& !same_cell(
                    self.cell_at(r[k].0 as int, r[k].1 as int),
                    previous.cell_at(r[k].0 as int, r[k].1 as int),
                )
                &&& r[k].2 == self.cell_at(r[k].0 as int, r[k].1 as int)
            }
        &&& forall|k1: int, k2: int|
            #![trigger r[k1], r[k2]]
            0 <= k1 < k2 < r.len() ==> (r[k1].1 < r[k2].1 || (r[k1].1 == r[k2].1 && r[k1].0 < r[k2].0))
        &&& forall|x: int, y: int|
            #![trigger self.cell_at(x, y)]
            self.in_bounds(x, y) && !same_cell(self.cell_at(x, y), previous.cell_at(x, y))
                ==> exists|k: int| 0 <= k < r.len() && r[k].0 == x && r[k].1 == y
    }

    /// A buffer of `width` by `height` blank cells.
    pub fn new(width: u16, height: u16) -> (r: Buffer)
        ensures
            r.wf(),
            r.size == Size::new_spec(width, height),
            forall|i: int| 0 <= i < r.cells@.len() ==> blank_cell(#[trigger] r.cells@[i]),
    {
        assert(width as int * height as int <= 0xffff * 0xffff) by (nonlinear_arith)
            requires
                width <= 0xffff,
                height <= 0xffff,
        ;
        let n: usize = (width as usize) * (height as usize);
        let mut cells: Vec<Cell> = Vec::new();
        let mut i: usize = 0;
        while i < n
            invariant
                i <= n,
                cells@.len() == i,
                forall|j: int| 0 <= j < cells@.len() ==> blank_cell(#[trigger] cells@[j]),
            decreases n - i,
        {
            cells.push(Cell::blank());
            i += 1;
        }
        Buffer { size: Size { width, height }, cells }
    }

    fn index(&self, x: u16, y: u16) -> (r: usize)
        requires
            self.wf(),
            self.in_bounds(x as int, y as int),
        ensures
            r == self.index_of(x as int, y as int),
            r < self.cells@.len(),
    {
        proof {
            lemma_index_in_bounds(self.size.width as int, self.size.height as int, x as int, y as int);
        }
        (y as usize) * (self.size.width as usize) + (x as usize)
    }

    /// The cell at column `x` of row `y`.
    pub fn get(&self, x: u16, y: u16) -> (r: &Cell)
        requires
            self.wf(),
            self.in_bounds(x as int, y as int),
        ensures
            *r == self.cell_at(x as int, y as int),
    {
        let i = self.index(x, y);
        &self.cells[i]
    }

    /// The cell at column `x` of row `y`, to change in place.
    pub fn get_mut(&mut self, x: u16, y: u16) -> (r: &mut Cell)
        requires
            old(self).wf(),
            old(self).in_bounds(x as int, y as int),
        ensures
            *r == old(self).cell_at(x as int, y as int),
            final(self).size == old(self).size,
            final(self).cells@ == old(self).cells@.update(
                old(self).index_of(x as int, y as int),
                *final(r),
            ),
    {
        let i = self.index(x, y);
        &mut self.cells[i]
    }

    /// Writes one character at (`x`, `y`); a position outside the buffer is
    /// left alone.
    pub fn set_char_at(
        &mut self,
        x: u16,
        y: u16,
        ch: char,
        fg: Color,
        bg: Option<Color>,
        modifier: Modifier,
    )
        requires
            old(self).wf(),
        ensures
            final(self).wf(),
            final(self).size == old(self).size,
            old(self).in_bounds(x as int, y as int) ==> {
                let i = old(self).index_of(x as int, y as int);
                &&& styled(final(self).cells@[i], old(self).cells@[i], seq![ch], fg, bg, modifier)
                &&& forall|j: int|
                    0 <= j < old(self).cells@.len() && j != i ==> #[trigger] final(self).cells@[j]
                        == old(self).cells@[j]
            },
            !old(self).in_bounds(x as int, y as int) ==> final(self).cells@ == old(self).cells@,
    {
        if x < self.size.width && y < self.size.height {
            let i = self.index(x, y);
            let new_bg = match bg {
                Some(b) => b,
                None => self.cells[i].bg,
            };
            self.cells[i] = Cell { symbol: char_string(ch), fg, bg: new_bg, modifier };
        }
    }

    /// Changes the symbol and the foreground color at (`x`, `y`), keeping the
    /// background and the attributes; a position outside the buffer is left
    /// alone.
    pub fn set_symbol_at(&mut self, x: u16, y: u16, ch: char, fg: Color)
        requires
            old(self).wf(),
        ensures
            final(self).wf(),
            final(self).size == old(self).size,
            old(self).in_bounds(x as int, y as int) ==> {
                let i = old(self).index_of(x as int, y as int);
                &&& styled(
                    final(self).cells@[i],
                    old(self).cells@[i],
                    seq![ch],
                    fg,
                    None,
                    old(self).cells@[i].modifier,
                )
                &&& forall|j: int|
                    0 <= j < old(self).cells@.len() && j != i ==> #[trigger] final(self).cells@[j]
                        == old(self).cells@[j]
            },
            !old(self).in_bounds(x as int, y as int) ==> final(self).cells@ == old(self).cells@,
    {
        if x < self.size.width && y < self.size.height {
            let i = self.index(x, y);
            let cell = &mut self.cells[i];
            cell.symbol = char_string(ch);
            cell.fg = fg;
        }
    }

    /// Writes the graphemes of `s` from (`x`, `y`) rightward, one per cell,
    /// stopping after `max_width` of them or at the end of the row.
    pub fn set_string_at(
        &mut self,
        x: u16,
        y: u16,
        max_width: u16,
        s: &str,
        fg: Color,
        bg: Option<Color>,
        modifier: Modifier,
    )
        requires
            old(self).wf(),
        ensures
            final(self).wf(),
            final(self).size == old(self).size,
            wrote_string(*old(self), *final(self), x, y, max_width, s@, fg, bg, modifier),
    {
        if x >= self.size.width || y >= self.size.height {
            return ;
        }
        let parts = graphemes(s);
        let room: u16 = self.size.width - x;
        let ghost gs = graphemes_of(s@);
        let mut n: usize = 0;
        let mut budget: usize = max_width as usize;
        let mut fits = true;
        while fits && n < parts.len()
            invariant
                parts@.len() == gs.len(),
                forall|j: int| 0 <= j < parts@.len() ==> (#[trigger] parts@[j])@ == gs[j],
                n <= parts@.len(),
                budget <= max_width,
                n + fitting_from(gs, n as int, budget as int) == fitting_from(gs, 0, max_width as int),
                !fits ==> fitting_from(gs, n as int, budget as int) == 0,
            decreases parts@.len() - n + if fits {
                1int
            } else {
                0int
            },
        {
            let width = display_width(parts[n].as_str());
            if width > budget {
                fits = false;
            } else {
                budget = budget - width;
                n += 1;
            }
        }
        proof {
            assert(fitting_from(gs, n as int, budget as int) == 0);
        }
        if n > max_width as usize {
            n = max_width as usize;
        }
        if n > room as usize {
            n = room as usize;
        }
        let start = self.index(x, y);
        proof {
            lemma_index_in_bounds(self.size.width as int, self.size.height as int, x as int, y as int);
        }
        let ghost before = self.cells@;
        let mut k: usize = 0;
        while k < n
            invariant
                self.wf(),
                self.size == old(self).size,
                before == old(self).cells@,
                self.cells@.len() == before.len(),
                before.len() <= 0xfffe0001,
                k <= n,
                start == old(self).index_of(x as int, y as int),
                start + n <= self.cells@.len(),
                n == old(self).span_len(x as int, y as int, max_width as int, s@),
                n <= parts@.len(),
                parts@.len() == graphemes_of(s@).len(),
                forall|j: int| 0 <= j < parts@.len() ==> (#[trigger] parts@[j])@ == graphemes_of(s@)[j],
                forall|i: int|
                    #![trigger self.cells@[i]]
                    0 <= i < self.cells@.len() ==> if start <= i < start + k {
                        styled(self.cells@[i], before[i], graphemes_of(s@)[i - start], fg, bg, modifier)
                    } else {
                        self.cells@[i] == before[i]
                    },
            decreases n - k,
        {
            let i = start + k;
            let new_bg = match bg {
                Some(b) => b,
                None => self.cells[i].bg,
            };
            let symbol = parts[k].clone();
            self.cells[i] = Cell { symbol, fg, bg: new_bg, modifier };
            k += 1;
        }
    }

    /// Makes every cell blank, keeping the size.
    pub fn clear(&mut self)
        requires
            old(self).wf(),
        ensures
            final(self).wf(),
            final(self).size == old(self).size,
            forall|i: int| 0 <= i < final(self).cells@.len() ==> blank_cell(#[trigger] final(self).cells@[i]),
    {
        let n = self.cells.len();
        let mut i: usize = 0;
        while i < n
            invariant
                i <= n,
                n == self.cells@.len(),
                self.cells@.len() == old(self).cells@.len(),
                self.size == old(self).size,
                forall|j: int| 0 <= j < i ==> blank_cell(#[trigger] self.cells@[j]),
            decreases n - i,
        {
            self.cells[i].reset();
            i += 1;
        }
    }

    /// Marks every cell of row `y` as stale, so that the next diff against
    /// this buffer repaints the whole row.
    pub fn clear_line(&mut self, y: u16)
        requires
            old(self).wf(),
        ensures
            final(self).wf(),
            final(self).size == old(self).size,
            forall|i: int|
                #![trigger final(self).cells@[i]]
                0 <= i < old(self).cells@.len() ==> if y < old(self).size.height && old(self).index_of(
                    0,
                    y as int,
                ) <= i < old(self).index_of(0, y as int) + old(self).size.width {
                    styled(
                        final(self).cells@[i],
                        old(self).cells@[i],
                        seq![STALE_SYMBOL],
                        Color::Reset,
                        Some(Color::Reset),
                        Modifier { bits: 0 },
                    )
                } else {
                    final(self).cells@[i] == old(self).cells@[i]
                },
    {
        if y >= self.size.height {
            return ;
        }
        let w = self.size.width;
        let ghost start = old(self).index_of(0, y as int);
        proof {
            lemma_row_in_bounds(w as int, self.size.height as int, y as int);
        }
        let mut x: u16 = 0;
        while x < w
            invariant
                self.wf(),
                self.size == old(self).size,
                w == self.size.width,
                y < self.size.height,
                x <= w,
                start == old(self).index_of(0, y as int),
                start + w <= self.cells@.len(),
                self.cells@.len() == old(self).cells@.len(),
                forall|i: int|
                    #![trigger self.cells@[i]]
                    0 <= i < self.cells@.len() ==> if start <= i < start + x {
                        styled(
                            self.cells@[i],
                            old(self).cells@[i],
                            seq![STALE_SYMBOL],
                            Color::Reset,
                            Some(Color::Reset),
                            Modifier { bits: 0 },
                        )
                    } else {
                        self.cells@[i] == old(self).cells@[i]
                    },
            decreases w - x,
        {
            self.set_char_at(x, y, STALE_SYMBOL, Color::Reset, Some(Color::Reset), Modifier::empty());
            x += 1;
        }
    }

    /// Every position where this buffer differs from `previous`, in
    /// row-major order, with this buffer's cell there.
    pub fn diff(&self, previous: &Buffer) -> (r: Vec<(u16, u16, Cell)>)
        requires
            self.wf(),
            previous.wf(),
            self.size == previous.size,
        ensures
            self.is_diff(previous, r@),
    {
        let w = self.size.width;
        let h = self.size.height;
        let mut updates: Vec<(u16, u16, Cell)> = Vec::new();
        let mut y: u16 = 0;
        let mut i: usize = 0;
        while y < h
            invariant
                self.wf(),
                previous.wf(),
                self.size == previous.size,
                w == self.size.width,
                h == self.size.height,
                y <= h,
                i == y * w,
                forall|k: int|
                    #![trigger updates@[k]]
                    0 <= k < updates@.len() ==> {
                        &&& self.in_bounds(updates@[k].0 as int, updates@[k].1 as int)
                        &&& updates@[k].1 < y
                        &&& !same_cell(
                            self.cell_at(updates@[k].0 as int, updates@[k].1 as int),
                            previous.cell_at(updates@[k].0 as int, updates@[k].1 as int),
                        )
                        &&& updates@[k].2 == self.cell_at(updates@[k].0 as int, updates@[k].1 as int)
                    },
                forall|k1: int, k2: int|
                    #![trigger updates@[k1], updates@[k2]]
                    0 <= k1 < k2 < updates@.len() ==> (updates@[k1].1 < updates@[k2].1 || (
                    updates@[k1].1 == updates@[k2].1 && updates@[k1].0 < updates@[k2].0)),
                forall|xx: int, yy: int|
                    #![trigger self.cell_at(xx, yy)]
                    self.in_bounds(xx, yy) && yy < y && !same_cell(
                        self.cell_at(xx, yy),
                        previous.cell_at(xx, yy),
                    ) ==> exists|k: int|
                        0 <= k < updates@.len() && updates@[k].0 == xx && updates@[k].1 == yy,
            decreases h - y,
        {
            let mut x: u16 = 0;
            while x < w
                invariant
                    self.wf(),
                    previous.wf(),
                    self.size == previous.size,
                    w == self.size.width,
                    h == self.size.height,
                    y < h,
                    x <= w,
                    i == y * w + x,
                    forall|k: int|
                        #![trigger updates@[k]]
                        0 <= k < updates@.len() ==> {
                            &&& self.in_bounds(updates@[k].0 as int, updates@[k].1 as int)
                            &&& (updates@[k].1 < y || (updates@[k].1 == y && updates@[k].0 < x))
                            &&& !same_cell(
                                self.cell_at(updates@[k].0 as int, updates@[k].1 as int),
                                previous.cell_at(updates@[k].0 as int, updates@[k].1 as int),
                            )
                            &&& updates@[k].2 == self.cell_at(
                                updates@[k].0 as int,
                                updates@[k].1 as int,
                            )
                        },
                    forall|k1: int, k2: int|
                        #![trigger updates@[k1], updates@[k2]]
                        0 <= k1 < k2 < updates@.len() ==> (updates@[k1].1 < updates@[k2].1 || (
                        updates@[k1].1 == updates@[k2].1 && updates@[k1].0 < updates@[k2].0)),
                    forall|xx: int, yy: int|
                        #![trigger self.cell_at(xx, yy)]
                        self.in_bounds(xx, yy) && (yy < y || (yy == y && xx < x)) && !same_cell(
                            self.cell_at(xx, yy),
                            previous.cell_at(xx, yy),
                        ) ==> exists|k: int|
                            0 <= k < updates@.len() && updates@[k].0 == xx && updates@[k].1 == yy,
                decreases w - x,
            {
                proof {
                    lemma_index_in_bounds(w as int, h as int, x as int, y as int);
                }
                let current = &self.cells[i];
                if !current.same_as(&previous.cells[i]) {
                    let ghost old_updates = updates@;
                    updates.push((x, y, current.copied()));
                    proof {
                        assert forall|xx: int, yy: int|
                            #![trigger self.cell_at(xx, yy)]
                            self.in_bounds(xx, yy) && (yy < y || (yy == y && xx < x + 1))
                                && !same_cell(
                                self.cell_at(xx, yy),
                                previous.cell_at(xx, yy),
                            ) implies exists|k: int|
                            0 <= k < updates@.len() && updates@[k].0 == xx && updates@[k].1
                                == yy by {
                            if yy == y && xx == x {
                                assert(updates@[old_updates.len() as int].0 == xx);
                            } else {
                                let k = choose|k: int|
                                    0 <= k < old_updates.len() && old_updates[k].0 == xx
                                        && old_updates[k].1 == yy;
                                assert(updates@[k] == old_updates[k]);
                            }
                        }
                    }
                }
                x += 1;
                i += 1;
            }
            proof {
                assert((y + 1) * w == y * w + w) by (nonlinear_arith);
            }
            y += 1;
        }
        updates
    }

    /// Every cell with its column and row, in row-major order.
    pub fn iter_cells(&self) -> (r: Vec<(u16, u16, Cell)>)
        requires
            self.wf(),
        ensures
            r@.len() == self.cells@.len(),
            forall|x: int, y: int|
                #![trigger self.cell_at(x, y)]
                self.in_bounds(x, y) ==> r@[self.index_of(x, y)] == (x as u16, y as u16, self.cell_at(x, y)),
    {
        let w = self.size.width;
        let h = self.size.height;
        let mut out: Vec<(u16, u16, Cell)> = Vec::new();
        let mut y: u16 = 0;
        let mut i: usize = 0;
        while y < h
            invariant
                self.wf(),
                w == self.size.width,
                h == self.size.height,
                y <= h,
                i == y * w,
                out@.len() == i,
                forall|xx: int, yy: int|
                    #![trigger self.cell_at(xx, yy)]
                    self.in_bounds(xx, yy) && yy < y ==> out@[self.index_of(xx, yy)] == (
                        xx as u16,
                        yy as u16,
                        self.cell_at(xx, yy),
                    ),
            decreases h - y,
        {
            let mut x: u16 = 0;
            while x < w
                invariant
                    self.wf(),
                    w == self.size.width,
                    h == self.size.height,
                    y < h,
                    x <= w,
                    i == y * w + x,
                    out@.len() == i,
                    forall|xx: int, yy: int|
                        #![trigger self.cell_at(xx, yy)]
                        self.in_bounds(xx, yy) && (yy < y || (yy == y && xx < x)) ==> out@[self.index_of(
                            xx,
                            yy,
                        )] == (xx as u16, yy as u16, self.cell_at(xx, yy)),
                decreases w - x,
            {
                proof {
                    lemma_index_in_bounds(w as int, h as int, x as int, y as int);
                }
                let ghost before = out@;
                out.push((x, y, self.cells[i].copied()));
                proof {
                    assert forall|xx: int, yy: int|
                        #![trigger self.cell_at(xx, yy)]
                        self.in_bounds(xx, yy) && (yy < y || (yy == y && xx < x + 1)) implies out@[self.index_of(
                            xx,
                            yy,
                        )] == (xx as u16, yy as u16, self.cell_at(xx, yy)) by {
                        if yy < y {
                            let ww = w as int;
                            let yc = y as int;
                            assert(yy * ww + xx < yc * ww && 0 <= yy * ww) by (nonlinear_arith)
                                requires
                                    0 <= yy < yc,
                                    0 <= xx < ww,
                            ;
                            assert(out@[self.index_of(xx, yy)] == before[self.index_of(xx, yy)]);
                        } else if xx < x {
                            assert(out@[self.index_of(xx, yy)] == before[self.index_of(xx, yy)]);
                        }
                    }
                }
                x += 1;
                i += 1;
            }
            proof {
                assert((y + 1) * w == y * w + w) by (nonlinear_arith);
            }
            y += 1;
        }
        proof {
            assert(out@.len() == self.cells@.len()) by {
                assert(h * w == w * h) by (nonlinear_arith);
            }
        }
        out
    }

    /// The whole buffer as terminal commands: every cell with its own colors
    /// and attributes, row after row, with a line break between rows.
    pub fn as_commands(&self) -> (r: Vec<TermCommand>)
        requires
            self.wf(),
        ensures
            r@ == rows_commands(self.cells@, self.size.width as nat, self.size.height as nat),
    {
        let w = self.size.width;
        let h = self.size.height;
        let mut out: Vec<TermCommand> = Vec::new();
        let mut y: u16 = 0;
        let mut i: usize = 0;
        while y < h
            invariant
                self.wf(),
                w == self.size.width,
                h == self.size.height,
                y <= h,
                i == y * w,
                out@ == rows_commands(self.cells@, w as nat, y as nat),
            decreases h - y,
        {
            if y > 0 {
                out.push(TermCommand::LineBreak);
            }
            let ghost head = out@;
            let mut x: u16 = 0;
            while x < w
                invariant
                    self.wf(),
                    w == self.size.width,
                    h == self.size.height,
                    y < h,
                    x <= w,
                    i == y * w + x,
                    out@ == row_commands(head, self.cells@, y * w, x as nat),
                decreases w - x,
            {
                proof {
                    lemma_index_in_bounds(w as int, h as int, x as int, y as int);
                }
                self.cells[i].write_commands(&mut out);
                x += 1;
                i += 1;
            }
            proof {
                assert((y + 1) * w == y * w + w) by (nonlinear_arith);
            }
            y += 1;
        }
        out
    }

    /// The symbols of the buffer, row after row, with a newline between rows.
    pub fn as_plain_str(&self) -> (r: String)
        requires
            self.wf(),
        ensures
            r@ == self.plain_text(),
    {
        let w = self.size.width;
        let h = self.size.height;
        let mut s = String::new();
        let mut y: u16 = 0;
        let mut i: usize = 0;
        let newline = "\n";
        proof {
            reveal_strlit("\n");
            assert(newline@ =~= seq!['\n']);
        }
        while y < h
            invariant
                self.wf(),
                w == self.size.width,
                h == self.size.height,
                y <= h,
                i == y * w,
                newline@ == seq!['\n'],
                s@ == rows_text(self.cells@, w as int, y as int),
            decreases h - y,
        {
            if y > 0 {
                s.append(newline);
            }
            let ghost head = s@;
            let mut x: u16 = 0;
            while x < w
                invariant
                    self.wf(),
                    w == self.size.width,
                    h == self.size.height,
                    y < h,
                    x <= w,
                    i == y * w + x,
                    s@ == head + row_text(self.cells@, y * w, x as int),
                decreases w - x,
            {
                proof {
                    lemma_index_in_bounds(w as int, h as int, x as int, y as int);
                }
                s.append(self.cells[i].symbol.as_str());
                x += 1;
                i += 1;
            }
            proof {
                assert((y + 1) * w == y * w + w) by (nonlinear_arith);
                if y == 0 {
                    assert(head =~= Seq::<char>::empty());
                    assert(s@ =~= rows_text(self.cells@, w as int, 1));
                }
            }
            y += 1;
        }
        s
    }
}

} // verus!

verus! {

/// A diff lists a position exactly when the two buffers differ there.
pub proof fn lemma_diff_positions(a: Buffer, b: Buffer, r: Seq<(u16, u16, Cell)>, x: int, y: int)
    requires
        a.wf(),
        b.wf(),
        a.size == b.size,
        a.is_diff(&b, r),
        a.in_bounds(x, y),
    ensures
        (exists|k: int| 0 <= k < r.len() && r[k].0 == x && r[k].1 == y) <==> !same_cell(
            a.cell_at(x, y),
            b.cell_at(x, y),
        ),
{
    if exists|k: int| 0 <= k < r.len() && r[k].0 == x && r[k].1 == y {
        let k = choose|k: int| 0 <= k < r.len() && r[k].0 == x && r[k].1 == y;
        assert(r[k] == r[k]);
    }
    if !same_cell(a.cell_at(x, y), b.cell_at(x, y)) {
        assert(a.cell_at(x, y) == a.cell_at(x, y));
    }
}

/// A buffer compared with itself has no differences.
pub proof fn lemma_diff_with_itself_is_empty(b: Buffer, r: Seq<(u16, u16, Cell)>)
    requires
        b.wf(),
        b.is_diff(&b, r),
    ensures
        r.len() == 0,
{
    if r.len() > 0 {
        assert(r[0] == r[0]);
    }
}

} // verus!

//! The grid store: rows of text cells, where rows may differ in length.

use vstd::prelude::*;

verus! {

/// The cells of one stored row, as texts.
pub open spec fn row_text(row: Seq<String>) -> Seq<Seq<char>> {
    Seq::new(row.len(), |j: int| row[j]@)
}

/// The cells of all stored rows, as texts.
pub open spec fn rows_text(rows: Seq<Vec<String>>) -> Seq<Seq<Seq<char>>> {
    Seq::new(rows.len(), |i: int| row_text(rows[i]@))
}

/// The length of the longest row; 0 for a grid without rows.
pub open spec fn width_of(g: Seq<Seq<Seq<char>>>) -> nat
    decreases g.len(),
{
    if g.len() == 0 {
        0
    } else {
        let rest = width_of(g.drop_last());
        if g.last().len() > rest {
            g.last().len()
        } else {
            rest
        }
    }
}

/// Whether the grid holds a cell at `(r, c)`.
pub open spec fn addressable(g: Seq<Seq<Seq<char>>>, r: int, c: int) -> bool {
    0 <= r < g.len() && 0 <= c < g[r].len()
}

/// The text at `(r, c)`; the empty text where the grid holds no such cell.
pub open spec fn cell_of(g: Seq<Seq<Seq<char>>>, r: int, c: int) -> Seq<char> {
    if addressable(g, r, c) {
        g[r][c]
    } else {
        Seq::empty()
    }
}

/// The length of row `r`; 0 where the grid holds no such row.
pub open spec fn row_len_of(g: Seq<Seq<Seq<char>>>, r: int) -> nat {
    if 0 <= r < g.len() {
        g[r].len()
    } else {
        0
    }
}

/// The grid extended just far enough to hold a cell at `(r, c)`: empty rows are
/// appended up to row `r`, and empty cells are appended to row `r` up to column
/// `c`. Every other row, and every cell that was there, stays as it is.
pub open spec fn grown(g: Seq<Seq<Seq<char>>>, r: int, c: int) -> Seq<Seq<Seq<char>>> {
    Seq::new(
        if r < g.len() { g.len() } else { (r + 1) as nat },
        |i: int|
            if i == r {
                Seq::new(
                    if c < row_len_of(g, i) { row_len_of(g, i) } else { (c + 1) as nat },
                    |j: int| cell_of(g, i, j),
                )
            } else if i < g.len() {
                g[i]
            } else {
                Seq::empty()
            },
    )
}

/// The grid with the text at `(r, c)` replaced.
pub open spec fn with_cell(g: Seq<Seq<Seq<char>>>, r: int, c: int, text: Seq<char>) -> Seq<
    Seq<Seq<char>>,
> {
    g.update(r, g[r].update(c, text))
}

/// `width_of` is the maximum of the row lengths.
pub proof fn lemma_width_is_max(g: Seq<Seq<Seq<char>>>)
    ensures
        forall|i: int| 0 <= i < g.len() ==> (#[trigger] g[i]).len() <= width_of(g),
        g.len() > 0 ==> exists|i: int| 0 <= i < g.len() && (#[trigger] g[i]).len() == width_of(g),
        g.len() == 0 ==> width_of(g) == 0,
    decreases g.len(),
{
    if g.len() > 0 {
        let rest = g.drop_last();
        lemma_width_is_max(rest);
        assert forall|i: int| 0 <= i < g.len() implies (#[trigger] g[i]).len() <= width_of(g) by {
            if i < rest.len() {
                assert(rest[i] == g[i]);
            }
        }
        if g.last().len() > width_of(rest) || rest.len() == 0 {
            assert(g[g.len() - 1].len() == width_of(g));
        } else {
            let i = choose|i: int| 0 <= i < rest.len() && (#[trigger] rest[i]).len() == width_of(rest);
            assert(g[i] == rest[i]);
        }
    }
}

/// A bound that every row respects and some row reaches is the width.
pub proof fn lemma_width_unique(g: Seq<Seq<Seq<char>>>, w: nat)
    requires
        forall|i: int| 0 <= i < g.len() ==> (#[trigger] g[i]).len() <= w,
        g.len() > 0 ==> exists|i: int| 0 <= i < g.len() && (#[trigger] g[i]).len() == w,
        g.len() == 0 ==> w == 0,
    ensures
        w == width_of(g),
{
    lemma_width_is_max(g);
}

/// Growing the grid towards `(r, c)` widens it to `c + 1` at most.
pub proof fn lemma_width_grown(g: Seq<Seq<Seq<char>>>, r: int, c: int)
    requires
        0 <= r,
        0 <= c,
    ensures
        width_of(grown(g, r, c)) == if c < width_of(g) {
            width_of(g)
        } else {
            (c + 1) as nat
        },
{
    let h = grown(g, r, c);
    let w: nat = if c < width_of(g) { width_of(g) } else { (c + 1) as nat };
    lemma_width_is_max(g);
    assert forall|i: int| 0 <= i < h.len() implies (#[trigger] h[i]).len() <= w by {
        if i < g.len() {
            assert(g[i].len() <= width_of(g));
        }
    }
    if c < width_of(g) {
        let i = choose|i: int| 0 <= i < g.len() && (#[trigger] g[i]).len() == width_of(g);
        assert(h[i].len() == w);
    } else {
        assert(h[r].len() == w);
    }
    lemma_width_unique(h, w);
}

/// Replacing a cell's text keeps the width.
pub proof fn lemma_width_with_cell(g: Seq<Seq<Seq<char>>>, r: int, c: int, text: Seq<char>)
    requires
        addressable(g, r, c),
    ensures
        width_of(with_cell(g, r, c, text)) == width_of(g),
{
    let h = with_cell(g, r, c, text);
    lemma_width_is_max(g);
    assert forall|i: int| 0 <= i < h.len() implies (#[trigger] h[i]).len() <= width_of(g) by {
        assert(h[i].len() == g[i].len());
    }
    let i = choose|i: int| 0 <= i < g.len() && (#[trigger] g[i]).len() == width_of(g);
    assert(h[i].len() == width_of(g));
    lemma_width_unique(h, width_of(g));
}

/// A jagged grid of text cells.
#[derive(Clone, Debug, PartialEq, Eq)]
pub struct Grid {
    rows: Vec<Vec<String>>,
}

impl View for Grid {
    type V = Seq<Seq<Seq<char>>>;

    closed spec fn view(&self) -> Seq<Seq<Seq<char>>> {
        rows_text(self.rows@)
    }
}

impl Grid {
    /// A grid without rows.
    pub fn new() -> (g: Grid)
        ensures
            g@ == Seq::<Seq<Seq<char>>>::empty(),
    {
        let g = Grid { rows: Vec::new() };
        assert(g@ =~= Seq::<Seq<Seq<char>>>::empty());
        g
    }

    /// A grid that holds the given rows, in their order.
    pub fn from_rows(rows: Vec<Vec<String>>) -> (g: Grid)
        ensures
            g@ == rows_text(rows@),
    {
        Grid { rows }
    }

    /// A stored grid has no more rows, and no longer rows, than a `usize` counts.
    pub proof fn lemma_bounded(&self)
        ensures
            self@.len() <= usize::MAX,
            forall|i: int| 0 <= i < self@.len() ==> (#[trigger] self@[i]).len() <= usize::MAX,
            width_of(self@) <= usize::MAX,
    {
        assert(self.rows.len() == self@.len());
        assert forall|i: int| 0 <= i < self@.len() implies (#[trigger] self@[i]).len()
            <= usize::MAX by {
            assert(self.rows@[i].len() == self@[i].len());
        }
        lemma_width_is_max(self@);
    }

    /// The stored rows.
    pub fn rows(&self) -> (rows: &Vec<Vec<String>>)
        ensures
            rows_text(rows@) == self@,
    {
        &self.rows
    }

    /// The number of rows.
    pub fn height(&self) -> (h: usize)
        ensures
            h == self@.len(),
    {
        self.rows.len()
    }

    /// The length of row `row`; 0 where there is no such row.
    pub fn row_len(&self, row: usize) -> (n: usize)
        ensures
            n == row_len_of(self@, row as int),
    {
        if row < self.rows.len() {
            self.rows[row].len()
        } else {
            0
        }
    }

    /// The length of the longest row; 0 for a grid without rows.
    pub fn width(&self) -> (w: usize)
        ensures
            w == width_of(self@),
            forall|i: int| 0 <= i < self@.len() ==> (#[trigger] self@[i]).len() <= w,
            self@.len() > 0 ==> exists|i: int| 0 <= i < self@.len() && (#[trigger] self@[i]).len() == w,
            self@.len() == 0 ==> w == 0,
    {
        let mut w: usize = 0;
        let mut i: usize = 0;
        while i < self.rows.len()
            invariant
                i <= self.rows.len(),
                w == width_of(self@.take(i as int)),
            decreases self.rows.len() - i,
        {
            let n = self.rows[i].len();
            proof {
                let next = self@.take(i + 1);
                assert(next.drop_last() =~= self@.take(i as int));
                assert(next.last() == self@[i as int]);
            }
            if n > w {
                w = n;
            }
            i += 1;
        }
        proof {
            assert(self@.take(i as int) =~= self@);
            lemma_width_is_max(self@);
        }
        w
    }

    /// The text at `(row, col)`; the empty text where the grid holds no such
    /// cell. The grid does not grow.
    pub fn get(&self, row: usize, col: usize) -> (text: &str)
        ensures
            text@ == cell_of(self@, row as int, col as int),
    {
        if row < self.rows.len() && col < self.rows[row].len() {
            self.rows[row][col].as_str()
        } else {
            proof {
                reveal_strlit("");
                assert(""@ =~= Seq::<char>::empty());
            }
            ""
        }
    }

    /// Grows the grid until it holds a cell at `(row, col)`: appends empty rows
    /// up to `row`, then empty cells to that row up to `col`.
    pub fn ensure(&mut self, row: usize, col: usize)
        requires
            row < usize::MAX,
            col < usize::MAX,
        ensures
            final(self)@ == grown(old(self)@, row as int, col as int),
            addressable(final(self)@, row as int, col as int),
    {
        if row >= self.rows.len() {
            self.rows.resize(row + 1, Vec::new());
        }
        if col >= self.rows[row].len() {
            self.rows[row].resize(col + 1, String::new());
        }
        assert(self@ =~~= grown(old(self)@, row as int, col as int));
    }

    /// Replaces the text at `(row, col)`, which the grid must hold.
    pub fn set(&mut self, row: usize, col: usize, text: String)
        requires
            addressable(old(self)@, row as int, col as int),
        ensures
            final(self)@ == with_cell(old(self)@, row as int, col as int, text@),
    {
        self.rows[row][col] = text;
        assert(self@ =~~= with_cell(old(self)@, row as int, col as int, text@));
    }
}

} // verus!

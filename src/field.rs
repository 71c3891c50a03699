use vstd::prelude::*;

use crate::tetromino::{cell_at, color_of, lemma_offsets_in_box, offsets, Color, Tetromino};

verus! {

/// Number of columns of the playing field.
pub const WIDTH: usize = 10;

/// Number of rows of the playing field; row 0 is the top.
pub const HEIGHT: usize = 20;

#[derive(PartialEq, Eq, Structural, Clone, Copy, Debug, Hash)]
pub enum Square {
    Empty,
    Occupied(Color),
}

/// Why a piece cannot stand where it is.
#[derive(PartialEq, Eq, Structural, Clone, Copy, Debug)]
pub enum Collision {
    OutOfBounds,
    WithBlock,
}

pub type Grid = Seq<Seq<Square>>;

/// A row of `WIDTH` empty squares.
pub open spec fn empty_row() -> Seq<Square> {
    Seq::new(WIDTH as nat, |c: int| Square::Empty)
}

/// A row is full when none of its squares is empty.
pub open spec fn is_full(row: Seq<Square>) -> bool {
    forall|c: int| 0 <= c < row.len() ==> row[c] != Square::Empty
}

/// The rows that are not full, in their order.
pub open spec fn kept_rows(rows: Grid) -> Grid
    decreases rows.len(),
{
    if rows.len() == 0 {
        rows
    } else if is_full(rows.last()) {
        kept_rows(rows.drop_last())
    } else {
        kept_rows(rows.drop_last()).push(rows.last())
    }
}

/// The grid after every full row is removed and as many empty rows are put on top.
pub open spec fn cleared(rows: Grid) -> Grid {
    Seq::new((rows.len() - kept_rows(rows).len()) as nat, |i: int| empty_row()) + kept_rows(rows)
}

/// Number of rows removed by `cleared`.
pub open spec fn full_count(rows: Grid) -> int {
    rows.len() - kept_rows(rows).len()
}

pub proof fn lemma_kept_rows_len(rows: Grid)
    ensures
        kept_rows(rows).len() <= rows.len(),
        (forall|r: int| 0 <= r < rows.len() ==> !is_full(#[trigger] rows[r])) ==> kept_rows(rows) == rows,
    decreases rows.len(),
{
    if rows.len() > 0 {
        lemma_kept_rows_len(rows.drop_last());
        if forall|r: int| 0 <= r < rows.len() ==> !is_full(#[trigger] rows[r]) {
            assert(forall|r: int| 0 <= r < rows.drop_last().len() ==> rows.drop_last()[r] == rows[r]);
            assert(rows.drop_last().push(rows.last()) =~= rows);
        }
    }
}

/// No row that survives clearing is full.
pub proof fn lemma_kept_rows_not_full(rows: Grid)
    ensures
        forall|r: int| 0 <= r < kept_rows(rows).len() ==> !is_full(#[trigger] kept_rows(rows)[r]),
        forall|r: int| 0 <= r < kept_rows(rows).len() ==> rows.contains(#[trigger] kept_rows(rows)[r]),
    decreases rows.len(),
{
    if rows.len() > 0 {
        lemma_kept_rows_not_full(rows.drop_last());
        assert forall|r: int| 0 <= r < kept_rows(rows.drop_last()).len() implies rows.contains(
            #[trigger] kept_rows(rows.drop_last())[r],
        ) by {
            let k = choose|k: int| 0 <= k < rows.drop_last().len() && rows.drop_last()[k] == kept_rows(rows.drop_last())[r];
            assert(rows[k] == rows.drop_last()[k]);
        }
        assert(rows[rows.len() - 1] == rows.last());
    }
}

/// Clearing twice is clearing once: after a clear no row of a well-formed grid is
/// full, so a second clear removes nothing and changes nothing.
pub proof fn lemma_clear_idempotent(g: Grid)
    requires
        grid_wf(g),
    ensures
        grid_wf(cleared(g)),
        forall|r: int| 0 <= r < HEIGHT ==> !is_full(#[trigger] cleared(g)[r]),
        full_count(cleared(g)) == 0,
        cleared(cleared(g)) == cleared(g),
{
    lemma_kept_rows_len(g);
    lemma_kept_rows_not_full(g);
    let c = cleared(g);
    let n = g.len() - kept_rows(g).len();
    assert(!is_full(empty_row())) by {
        assert(empty_row()[0] == Square::Empty);
    }
    assert forall|r: int| 0 <= r < HEIGHT implies !is_full(#[trigger] c[r]) && c[r].len() == WIDTH by {
        if r >= n {
            assert(c[r] == kept_rows(g)[r - n]);
            let k = choose|k: int| 0 <= k < g.len() && g[k] == kept_rows(g)[r - n];
        }
    }
    lemma_kept_rows_len(c);
    assert(cleared(c) =~= c);
}

/// The grid that a sequence of rows shows.
pub open spec fn rows_view(rows: Seq<[Square; WIDTH]>) -> Grid {
    rows.map_values(|row: [Square; WIDTH]| row@)
}

/// A grid of `HEIGHT` rows of `WIDTH` squares each.
pub open spec fn grid_wf(g: Grid) -> bool {
    &&& g.len() == HEIGHT
    &&& forall|r: int| 0 <= r < g.len() ==> (#[trigger] g[r]).len() == WIDTH
}

pub open spec fn inside(c: (int, int)) -> bool {
    0 <= c.0 < WIDTH && 0 <= c.1 < HEIGHT
}

/// Every cell of the shape at that anchor lies on the grid.
pub open spec fn in_bounds_at(kind: crate::tetromino::Kind, rotation: int, x: int, y: int) -> bool {
    forall|i: int| 0 <= i < 4 ==> inside(#[trigger] cell_at(kind, rotation, x, y, i))
}

pub open spec fn occupied(g: Grid, c: (int, int)) -> bool {
    g[c.1][c.0] != Square::Empty
}

/// Some cell of the shape at that anchor lies on an occupied square.
pub open spec fn hits_block_at(g: Grid, kind: crate::tetromino::Kind, rotation: int, x: int, y: int) -> bool {
    exists|i: int| 0 <= i < 4 && occupied(g, #[trigger] cell_at(kind, rotation, x, y, i))
}

/// What `check_collision` reports: bounds first, then occupancy.
pub open spec fn collision_at(g: Grid, kind: crate::tetromino::Kind, rotation: int, x: int, y: int) -> Option<Collision> {
    if !in_bounds_at(kind, rotation, x, y) {
        Some(Collision::OutOfBounds)
    } else if hits_block_at(g, kind, rotation, x, y) {
        Some(Collision::WithBlock)
    } else {
        None
    }
}

pub open spec fn fits_at(g: Grid, kind: crate::tetromino::Kind, rotation: int, x: int, y: int) -> bool {
    collision_at(g, kind, rotation, x, y) is None
}

pub open spec fn in_bounds(t: Tetromino) -> bool {
    in_bounds_at(t.kind, t.rotation as int, t.x as int, t.y as int)
}

pub open spec fn collision(g: Grid, t: Tetromino) -> Option<Collision> {
    collision_at(g, t.kind, t.rotation as int, t.x as int, t.y as int)
}

/// The piece stands where it is without leaving the grid or overlapping a block.
pub open spec fn fits(g: Grid, t: Tetromino) -> bool {
    collision(g, t) is None
}

/// One of the piece's first `n` cells is square (`c`, `r`).
pub open spec fn covers_first(t: Tetromino, n: int, c: int, r: int) -> bool {
    exists|i: int| 0 <= i < n && #[trigger] t.cell(i) == (c, r)
}

/// The piece covers square (`c`, `r`).
pub open spec fn covers(t: Tetromino, c: int, r: int) -> bool {
    covers_first(t, 4, c, r)
}

/// The grid with the piece's color written into the squares of its first `n` cells.
pub open spec fn stamped_first(g: Grid, t: Tetromino, n: int) -> Grid {
    Seq::new(
        g.len(),
        |r: int|
            Seq::new(
                g[r].len(),
                |c: int|
                    if covers_first(t, n, c, r) {
                        Square::Occupied(color_of(t.kind))
                    } else {
                        g[r][c]
                    },
            ),
    )
}

/// The grid with the piece's color written into each square the piece covers.
pub open spec fn stamped(g: Grid, t: Tetromino) -> Grid {
    stamped_first(g, t, 4)
}

/// A fit piece has its anchor close to the grid.
pub proof fn lemma_fit_anchor(t: Tetromino)
    requires
        in_bounds(t),
    ensures
        -3 <= t.x < WIDTH,
        -3 <= t.y < HEIGHT,
{
    lemma_offsets_in_box(t.kind, t.rotation as int, 0);
    assert(inside(cell_at(t.kind, t.rotation as int, t.x as int, t.y as int, 0)));
}

/// Whether no square of the row is empty.
pub fn row_is_full(row: &[Square; WIDTH]) -> (r: bool)
    ensures
        r == is_full(row@),
{
    let mut c: usize = 0;
    while c < WIDTH
        invariant
            c <= WIDTH,
            forall|k: int| 0 <= k < c ==> row@[k] != Square::Empty,
        decreases WIDTH - c,
    {
        if let Square::Empty = row[c] {
            return false;
        }
        c = c + 1;
    }
    true
}

/// The playing field: `HEIGHT` rows of `WIDTH` squares.
#[derive(Debug, Hash)]
pub struct Field {
    rows: Vec<[Square; WIDTH]>,
}

impl View for Field {
    type V = Grid;

    closed spec fn view(&self) -> Grid {
        rows_view(self.rows@)
    }
}

impl Field {
    pub open spec fn wf(&self) -> bool {
        grid_wf(self@)
    }

    /// An empty field.
    pub fn new() -> (r: Field)
        ensures
            r.wf(),
            r@ == Seq::new(HEIGHT as nat, |i: int| empty_row()),
    {
        let mut rows: Vec<[Square; WIDTH]> = Vec::new();
        while rows.len() < HEIGHT
            invariant
                rows@.len() <= HEIGHT,
                forall|row: int, c: int| 0 <= row < rows@.len() && 0 <= c < WIDTH ==> rows@[row]@[c] == Square::Empty,
            decreases HEIGHT - rows@.len(),
        {
            rows.push([Square::Empty; WIDTH]);
        }
        let r = Field { rows };
        assert(r@ =~~= Seq::new(HEIGHT as nat, |i: int| empty_row()));
        r
    }

    /// Number of rows.
    pub fn len(&self) -> (r: usize)
        ensures
            r == self@.len(),
    {
        self.rows.len()
    }

    /// The square at (`column`, `row`).
    pub fn get(&self, row: usize, column: usize) -> (r: Square)
        requires
            self.wf(),
            row < HEIGHT,
            column < WIDTH,
        ensures
            r == self@[row as int][column as int],
    {
        self.rows[row][column]
    }

    /// Replaces the square at (`column`, `row`).
    pub fn set(&mut self, row: usize, column: usize, square: Square)
        requires
            old(self).wf(),
            row < HEIGHT,
            column < WIDTH,
        ensures
            final(self).wf(),
            final(self)@ == old(self)@.update(row as int, old(self)@[row as int].update(column as int, square)),
    {
        let mut line = self.rows[row];
        line[column] = square;
        self.rows.set(row, line);
        assert(self@ =~= old(self)@.update(row as int, old(self)@[row as int].update(column as int, square)));
    }

    /// Reports whether the piece stands off the grid or on an occupied square.
    /// Bounds are checked for all four cells before any square is read.
    pub fn check_collision(&self, t: &Tetromino) -> (r: Option<Collision>)
        requires
            self.wf(),
        ensures
            r == collision(self@, *t),
            !in_bounds(*t) ==> r == Some(Collision::OutOfBounds),
    {
        if Self::is_out_of_bounds(t) {
            return Some(Collision::OutOfBounds);
        }
        if self.has_collision_with_block(t) {
            return Some(Collision::WithBlock);
        }
        None
    }

    /// Whether some cell of the piece lies off the grid.
    pub fn is_out_of_bounds(t: &Tetromino) -> (r: bool)
        ensures
            r == !in_bounds(*t),
    {
        let cells = t.cells();
        let mut i: usize = 0;
        while i < 4
            invariant
                i <= 4,
                forall|j: int| 0 <= j < 4 ==> (cells@[j].0 as int, cells@[j].1 as int) == #[trigger] t.cell(j),
                forall|j: int| 0 <= j < i ==> inside(#[trigger] t.cell(j)),
            decreases 4 - i,
        {
            let (c, r) = cells[i];
            if c < 0 || c >= WIDTH as i64 || r < 0 || r >= HEIGHT as i64 {
                assert(!inside(t.cell(i as int)));
                return true;
            }
            i = i + 1;
        }
        assert forall|j: int| 0 <= j < 4 implies inside(
            #[trigger] cell_at(t.kind, t.rotation as int, t.x as int, t.y as int, j),
        ) by {
            assert(inside(t.cell(j)));
        }
        false
    }

    /// Whether some cell of a piece that lies on the grid covers an occupied square.
    pub fn has_collision_with_block(&self, t: &Tetromino) -> (r: bool)
        requires
            self.wf(),
            in_bounds(*t),
        ensures
            r == hits_block_at(self@, t.kind, t.rotation as int, t.x as int, t.y as int),
    {
        let cells = t.cells();
        let mut i: usize = 0;
        while i < 4
            invariant
                i <= 4,
                self.wf(),
                in_bounds(*t),
                forall|j: int| 0 <= j < 4 ==> (cells@[j].0 as int, cells@[j].1 as int) == #[trigger] t.cell(j),
                forall|j: int| 0 <= j < i ==> !occupied(self@, #[trigger] t.cell(j)),
            decreases 4 - i,
        {
            let (c, r) = cells[i];
            assert(inside(t.cell(i as int)));
            if let Square::Occupied(_) = self.rows[r as usize][c as usize] {
                assert(occupied(self@, t.cell(i as int)));
                return true;
            }
            i = i + 1;
        }
        assert forall|j: int| 0 <= j < 4 implies !occupied(
            self@,
            #[trigger] cell_at(t.kind, t.rotation as int, t.x as int, t.y as int, j),
        ) by {
            assert(!occupied(self@, t.cell(j)));
        }
        false
    }

    /// Writes the piece's color into every square it covers.
    pub fn solidify(&mut self, t: &Tetromino)
        requires
            old(self).wf(),
            in_bounds(*t),
        ensures
            final(self).wf(),
            final(self)@ == stamped(old(self)@, *t),
    {
        let cells = t.cells();
        let color = t.color();
        let mut i: usize = 0;
        assert(old(self)@ =~~= stamped_first(old(self)@, *t, 0));
        while i < 4
            invariant
                i <= 4,
                self.wf(),
                in_bounds(*t),
                forall|j: int| 0 <= j < 4 ==> (cells@[j].0 as int, cells@[j].1 as int) == #[trigger] t.cell(j),
                color == color_of(t.kind),
                self@ == stamped_first(old(self)@, *t, i as int),
                grid_wf(old(self)@),
            decreases 4 - i,
        {
            let (c, r) = cells[i];
            assert(inside(t.cell(i as int)));
            self.set(r as usize, c as usize, Square::Occupied(color));
            assert forall|rr: int, cc: int| 0 <= rr < HEIGHT && 0 <= cc < WIDTH implies
                covers_first(*t, i + 1, cc, rr) == (covers_first(*t, i as int, cc, rr) || (cc, rr) == t.cell(i as int)) by {
                if covers_first(*t, i + 1, cc, rr) {
                    let k = choose|k: int| 0 <= k < i + 1 && #[trigger] t.cell(k) == (cc, rr);
                    if k < i {
                        assert(covers_first(*t, i as int, cc, rr));
                    }
                }
                if covers_first(*t, i as int, cc, rr) {
                    let k = choose|k: int| 0 <= k < i && #[trigger] t.cell(k) == (cc, rr);
                    assert(covers_first(*t, i + 1, cc, rr));
                }
            }
            assert(self@ =~~= stamped_first(old(self)@, *t, i + 1));
            i = i + 1;
        }
    }

    /// Removes every full row, keeping the others in order, and puts as many empty
    /// rows on top. Returns the number of rows removed.
    pub fn clear_lines(&mut self) -> (r: usize)
        requires
            old(self).wf(),
        ensures
            final(self).wf(),
            r == full_count(old(self)@),
            final(self)@ == cleared(old(self)@),
            (forall|row: int| 0 <= row < HEIGHT ==> !is_full(#[trigger] old(self)@[row])) ==> r == 0
                && final(self)@ == old(self)@,
    {
        let ghost g = self@;
        let mut kept: Vec<[Square; WIDTH]> = Vec::new();
        let mut i: usize = 0;
        while i < self.rows.len()
            invariant
                i <= self.rows@.len(),
                self@ == g,
                self.wf(),
                rows_view(kept@) == kept_rows(g.subrange(0, i as int)),
            decreases self.rows@.len() - i,
        {
            let row = self.rows[i];
            assert(g.subrange(0, i + 1).drop_last() =~= g.subrange(0, i as int));
            assert(g.subrange(0, i + 1).last() == row@);
            if !row_is_full(&row) {
                kept.push(row);
            }
            assert(rows_view(kept@) =~= kept_rows(g.subrange(0, i + 1)));
            i = i + 1;
        }
        assert(g.subrange(0, HEIGHT as int) =~= g);
        proof {
            lemma_kept_rows_len(g);
        }
        let count = HEIGHT - kept.len();
        let mut rows: Vec<[Square; WIDTH]> = Vec::new();
        while rows.len() < count
            invariant
                rows@.len() <= count,
                rows_view(rows@) == Seq::new(rows@.len(), |k: int| empty_row()),
            decreases count - rows@.len(),
        {
            let ghost before = rows@;
            rows.push([Square::Empty; WIDTH]);
            assert forall|k: int| 0 <= k < rows@.len() implies #[trigger] rows_view(rows@)[k] == empty_row() by {
                if k < before.len() {
                    assert(rows@[k] == before[k]);
                    assert(rows_view(before)[k] == Seq::new(before.len(), |k: int| empty_row())[k]);
                } else {
                    assert(rows@[k]@ =~= empty_row());
                }
            }
            assert(rows_view(rows@) =~= Seq::new(rows@.len(), |k: int| empty_row()));
        }
        let mut j: usize = 0;
        while j < kept.len()
            invariant
                j <= kept@.len(),
                count + kept@.len() == HEIGHT,
                rows@.len() == count + j,
                rows_view(kept@) == kept_rows(g),
                rows_view(rows@) == Seq::new(count as nat, |k: int| empty_row())
                    + kept_rows(g).subrange(0, j as int),
            decreases kept@.len() - j,
        {
            let ghost before = rows@;
            rows.push(kept[j]);
            assert(rows_view(rows@) =~= rows_view(before).push(kept@[j as int]@));
            assert(rows_view(kept@)[j as int] == kept@[j as int]@);
            assert(rows_view(rows@) =~= Seq::new(count as nat, |k: int| empty_row())
                + kept_rows(g).subrange(0, j + 1));
            j = j + 1;
        }
        assert(kept_rows(g).subrange(0, kept@.len() as int) =~= kept_rows(g));
        self.rows = rows;
        assert(self@ =~= cleared(g));
        count
    }
}

impl Clone for Field {
    fn clone(&self) -> (r: Field)
        ensures
            r@ == self@,
    {
        Field { rows: self.rows.clone() }
    }
}

} // verus!

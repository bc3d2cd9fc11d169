//! The frame buffer, and what drawing a sprite on it means.
//!
//! A sprite is drawn by exclusive or: each bit that is set flips its cell. The place of
//! the sprite wraps around the buffer; the sprite itself does not: what would lie right
//! of the last column or below the last row is left out.
use vstd::prelude::*;
use crate::traits;

verus! {

/// Whether `grid` has `height` rows of `width` cells each.
pub open spec fn is_grid(grid: Seq<Seq<bool>>, width: nat, height: nat) -> bool {
    &&& grid.len() == height
    &&& forall|row: int| 0 <= row < grid.len() ==> (#[trigger] grid[row]).len() == width
}

/// A grid of `height` rows of `width` cells that are all unset.
pub open spec fn blank_grid(width: nat, height: nat) -> Seq<Seq<bool>> {
    Seq::new(height, |row: int| Seq::new(width, |column: int| false))
}

/// Whether the sprite has a set bit in its row `row` at place `column`, the most
/// significant bit of a byte being place 0.
pub open spec fn sprite_bit(sprite: Seq<u8>, row: int, column: int) -> bool {
    &&& 0 <= row < sprite.len()
    &&& 0 <= column < 8
    &&& sprite[row] & (0x80u8 >> (column as u8)) != 0
}

/// The column at which a sprite drawn at `x` starts: `x` wrapped to the grid's width.
pub open spec fn origin_column(grid: Seq<Seq<bool>>, x: u8) -> int {
    x as int % grid[0].len() as int
}

/// The row at which a sprite drawn at `y` starts: `y` wrapped to the grid's height.
pub open spec fn origin_row(grid: Seq<Seq<bool>>, y: u8) -> int {
    y as int % grid.len() as int
}

/// Whether drawing the first `count` rows of `sprite` at (`x`, `y`) toggles the cell at
/// `row`, `column`. Only the origin wraps: what would lie right of the last column or
/// below the last row is not drawn.
pub open spec fn toggles(
    grid: Seq<Seq<bool>>,
    x: u8,
    y: u8,
    sprite: Seq<u8>,
    count: nat,
    row: int,
    column: int,
) -> bool {
    &&& 0 <= row < grid.len()
    &&& 0 <= column < grid[row].len()
    &&& row - origin_row(grid, y) < count
    &&& sprite_bit(sprite, row - origin_row(grid, y), column - origin_column(grid, x))
}

/// The grid after the first `count` rows of `sprite` were drawn at (`x`, `y`): each cell
/// that the sprite toggles is flipped, each other cell is as before.
pub open spec fn blit(grid: Seq<Seq<bool>>, x: u8, y: u8, sprite: Seq<u8>, count: nat) -> Seq<
    Seq<bool>,
> {
    Seq::new(
        grid.len(),
        |row: int|
            Seq::new(
                grid[row].len(),
                |column: int| grid[row][column] != toggles(grid, x, y, sprite, count, row, column),
            ),
    )
}

/// Whether drawing erases the cell at `row`, `column`: the cell is set and is toggled.
pub open spec fn erases(
    grid: Seq<Seq<bool>>,
    x: u8,
    y: u8,
    sprite: Seq<u8>,
    count: nat,
    row: int,
    column: int,
) -> bool {
    toggles(grid, x, y, sprite, count, row, column) && grid[row][column]
}

/// Whether drawing erases any cell: the collision that a draw reports.
pub open spec fn collides(grid: Seq<Seq<bool>>, x: u8, y: u8, sprite: Seq<u8>, count: nat) -> bool {
    exists|row: int, column: int| erases(grid, x, y, sprite, count, row, column)
}

/// Whether drawing sets the cell at `row`, `column`: the cell is unset and is toggled.
pub open spec fn sets(
    grid: Seq<Seq<bool>>,
    x: u8,
    y: u8,
    sprite: Seq<u8>,
    count: nat,
    row: int,
    column: int,
) -> bool {
    toggles(grid, x, y, sprite, count, row, column) && !grid[row][column]
}

/// A sprite that is drawn on a buffer that was just cleared erases nothing: the first
/// draw reports no collision.
pub proof fn lemma_first_draw_erases_nothing(
    width: nat,
    height: nat,
    x: u8,
    y: u8,
    sprite: Seq<u8>,
    count: nat,
)
    ensures
        !collides(blank_grid(width, height), x, y, sprite, count),
{
    let grid = blank_grid(width, height);
    assert forall|row: int, column: int| !erases(grid, x, y, sprite, count, row, column) by {
        if toggles(grid, x, y, sprite, count, row, column) {
            assert(!grid[row][column]);
        }
    }
}

/// Drawing the same sprite twice at the same place gives back the grid that was there
/// before, and the second draw erases exactly the cells that the first one set: it
/// reports a collision if and only if the first draw set a cell.
pub proof fn lemma_draw_twice_restores(
    grid: Seq<Seq<bool>>,
    x: u8,
    y: u8,
    sprite: Seq<u8>,
    count: nat,
)
    ensures
        blit(blit(grid, x, y, sprite, count), x, y, sprite, count) == grid,
        forall|row: int, column: int|
            #[trigger] erases(blit(grid, x, y, sprite, count), x, y, sprite, count, row, column)
                == sets(grid, x, y, sprite, count, row, column),
        collides(blit(grid, x, y, sprite, count), x, y, sprite, count) == (exists|
            row: int,
            column: int,
        | sets(grid, x, y, sprite, count, row, column)),
{
    let once = blit(grid, x, y, sprite, count);
    let twice = blit(once, x, y, sprite, count);
    if grid.len() > 0 {
        assert(once[0].len() == grid[0].len());
    }
    assert forall|row: int, column: int|
        toggles(once, x, y, sprite, count, row, column) == toggles(
            grid,
            x,
            y,
            sprite,
            count,
            row,
            column,
        ) by {
        if 0 <= row < grid.len() {
            assert(once[row].len() == grid[row].len());
        }
    }
    assert forall|row: int| 0 <= row < grid.len() implies twice[row] =~= grid[row] by {
        assert(once[row].len() == grid[row].len());
    }
    assert(twice =~= grid);
    assert forall|row: int, column: int|
        #[trigger] erases(once, x, y, sprite, count, row, column) == sets(
            grid,
            x,
            y,
            sprite,
            count,
            row,
            column,
        ) by {
        if toggles(grid, x, y, sprite, count, row, column) {
            assert(once[row][column] == !grid[row][column]);
        }
    }
    if collides(once, x, y, sprite, count) {
        let (row, column) = choose|row: int, column: int|
            erases(once, x, y, sprite, count, row, column);
        assert(sets(grid, x, y, sprite, count, row, column));
    }
    if exists|row: int, column: int| sets(grid, x, y, sprite, count, row, column) {
        let (row, column) = choose|row: int, column: int|
            sets(grid, x, y, sprite, count, row, column);
        assert(erases(once, x, y, sprite, count, row, column));
    }
}

/// Flips one cell of a grid and says whether it was set.
fn flip(rows: &mut Vec<Vec<bool>>, row: usize, column: usize) -> (was_set: bool)
    requires
        row < old(rows)@.len(),
        column < old(rows)@[row as int]@.len(),
    ensures
        was_set == old(rows)@[row as int]@[column as int],
        final(rows)@.len() == old(rows)@.len(),
        final(rows)@[row as int]@ == old(rows)@[row as int]@.update(column as int, !was_set),
        forall|other: int|
            0 <= other < old(rows)@.len() && other != row ==> final(rows)@[other] == old(
                rows,
            )@[other],
    no_unwind
{
    let was_set = rows[row][column];
    rows[row][column] = !was_set;
    was_set
}

/// The frame buffer: a grid of cells that are set or unset.
pub struct ScreenMemory {
    contents: Vec<Vec<bool>>,
    width: usize,
    height: usize,
}

impl View for ScreenMemory {
    type V = Seq<Seq<bool>>;

    closed spec fn view(&self) -> Seq<Seq<bool>> {
        Seq::new(self.contents@.len(), |row: int| self.contents@[row]@)
    }
}

impl ScreenMemory {
    #[verifier::type_invariant]
    spec fn well_formed(&self) -> bool {
        &&& self.contents@.len() == self.height
        &&& forall|row: int|
            0 <= row < self.contents@.len() ==> (#[trigger] self.contents@[row])@.len()
                == self.width
    }

    /// The number of cells in a row.
    pub closed spec fn spec_width(&self) -> usize {
        self.width
    }

    /// The number of rows.
    pub closed spec fn spec_height(&self) -> usize {
        self.height
    }

    fn blank_rows(width: usize, height: usize) -> (rows: Vec<Vec<bool>>)
        ensures
            rows@.len() == height,
            forall|row: int| 0 <= row < height ==> (#[trigger] rows@[row])@ == Seq::new(
                width as nat,
                |column: int| false,
            ),
    {
        let mut rows: Vec<Vec<bool>> = Vec::new();
        let mut index: usize = 0;
        while index < height
            invariant
                index <= height,
                rows@.len() == index,
                forall|row: int| 0 <= row < index ==> (#[trigger] rows@[row])@ == Seq::new(
                    width as nat,
                    |column: int| false,
                ),
            decreases height - index,
        {
            let row = vec![false; width];
            assert(row@ =~= Seq::new(width as nat, |column: int| false));
            rows.push(row);
            index += 1;
        }
        rows
    }

    pub fn new(width: usize, height: usize) -> (result: ScreenMemory)
        ensures
            result@ == blank_grid(width as nat, height as nat),
            result.spec_width() == width,
            result.spec_height() == height,
    {
        let result = ScreenMemory {
            contents: ScreenMemory::blank_rows(width, height),
            width,
            height,
        };
        assert(result@ =~= blank_grid(width as nat, height as nat));
        result
    }

    /// The canonical frame buffer: 64 columns, 32 rows.
    pub fn new_chip8() -> (result: ScreenMemory)
        ensures
            result@ == blank_grid(64, 32),
            result.spec_width() == 64,
            result.spec_height() == 32,
    {
        ScreenMemory::new(64, 32)
    }

    /// Gives the buffer a new size; every cell of it is unset.
    pub fn set_dimensions(&mut self, width: usize, height: usize)
        ensures
            final(self)@ == blank_grid(width as nat, height as nat),
            final(self).spec_width() == width,
            final(self).spec_height() == height,
    {
        *self = ScreenMemory::new(width, height);
    }

    /// The number of cells in a row.
    pub fn width(&self) -> (result: usize)
        ensures
            result == self.spec_width(),
            is_grid(self@, self.spec_width() as nat, self.spec_height() as nat),
    {
        proof {
            use_type_invariant(self);
        }
        self.width
    }

    /// The number of rows.
    pub fn height(&self) -> (result: usize)
        ensures
            result == self.spec_height(),
            is_grid(self@, self.spec_width() as nat, self.spec_height() as nat),
    {
        proof {
            use_type_invariant(self);
        }
        self.height
    }

    /// The rows, the top row first.
    pub fn rows(&self) -> (result: &Vec<Vec<bool>>)
        ensures
            result@.len() == self@.len(),
            forall|row: int| 0 <= row < result@.len() ==> (#[trigger] result@[row])@ == self@[row],
    {
        &self.contents
    }

    /// The rows, the top row first, to be walked.
    pub fn iter(&self) -> (result: std::slice::Iter<'_, Vec<bool>>)
        ensures
            vstd::std_specs::slice::into_iter_elts(result).len() == self@.len(),
            forall|row: int|
                0 <= row < self@.len() ==> (#[trigger] vstd::std_specs::slice::into_iter_elts(
                    result,
                )[row])@ == self@[row],
    {
        broadcast use vstd::std_specs::slice::axiom_spec_slice_iter;

        let result = self.contents.iter();
        assert(vstd::std_specs::slice::into_iter_elts(result) =~= self.contents@);
        result
    }

    /// Whether no cell is set.
    pub fn is_empty(&self) -> (result: bool)
        ensures
            result == (forall|row: int, column: int|
                0 <= row < self@.len() && 0 <= column < self@[row].len() ==> !self@[row][column]),
    {
        proof {
            use_type_invariant(self);
        }
        let mut row: usize = 0;
        while row < self.height
            invariant
                row <= self.height,
                self.contents@.len() == self.height,
                forall|r: int|
                    0 <= r < self.contents@.len() ==> (#[trigger] self.contents@[r])@.len()
                        == self.width,
                forall|r: int, c: int|
                    0 <= r < row && 0 <= c < self.width ==> !self.contents@[r]@[c],
            decreases self.height - row,
        {
            let mut column: usize = 0;
            while column < self.width
                invariant
                    row < self.height,
                    column <= self.width,
                    self.contents@.len() == self.height,
                    self.contents@[row as int]@.len() == self.width,
                    forall|c: int| 0 <= c < column ==> !self.contents@[row as int]@[c],
                decreases self.width - column,
            {
                if self.contents[row][column] {
                    assert(self@[row as int][column as int]);
                    return false;
                }
                column += 1;
            }
            row += 1;
        }
        assert forall|r: int, c: int|
            0 <= r < self@.len() && 0 <= c < self@[r].len() implies !self@[r][c] by {
            assert(self.contents@[r]@.len() == self.width);
        }
        true
    }
}

/// The cell at `row`, `column`.
spec fn cell(grid: Seq<Seq<bool>>, row: int, column: int) -> bool {
    grid[row][column]
}

/// Whether a draw that goes row by row from the top, and in a row from the left, has
/// come to the cell at `row`, `column` when it stands before `next_column` of `next_row`.
spec fn reached(next_row: int, next_column: int, row: int, column: int) -> bool {
    row < next_row || (row == next_row && column < next_column)
}

/// Whether `grid` is what a draw on `before` has made of it when it stands before
/// `next_column` of `next_row`.
spec fn drawn_until(
    grid: Seq<Seq<bool>>,
    before: Seq<Seq<bool>>,
    x: u8,
    y: u8,
    sprite: Seq<u8>,
    count: nat,
    next_row: int,
    next_column: int,
) -> bool {
    forall|row: int, column: int|
        0 <= row < before.len() && 0 <= column < before[row].len() ==> #[trigger] cell(
            grid,
            row,
            column,
        ) == if reached(next_row, next_column, row, column) {
            before[row][column] != toggles(before, x, y, sprite, count, row, column)
        } else {
            before[row][column]
        }
}

/// Whether a draw on `before` has erased a cell when it stands before `next_column` of
/// `next_row`.
spec fn erased_until(
    before: Seq<Seq<bool>>,
    x: u8,
    y: u8,
    sprite: Seq<u8>,
    count: nat,
    next_row: int,
    next_column: int,
) -> bool {
    exists|row: int, column: int|
        reached(next_row, next_column, row, column) && #[trigger] erases(
            before,
            x,
            y,
            sprite,
            count,
            row,
            column,
        )
}

/// A draw that stands at the start of a row has drawn as much as one that stands at the
/// sprite's first column in that row, and as one that is through with the row before.
proof fn lemma_row_start(
    grid: Seq<Seq<bool>>,
    before: Seq<Seq<bool>>,
    x: u8,
    y: u8,
    sprite: Seq<u8>,
    count: nat,
    row: int,
    through: int,
)
    requires
        before.len() > 0,
        is_grid(before, before[0].len(), before.len()),
        origin_column(before, x) + 8 <= through || before[0].len() <= through,
    ensures
        drawn_until(grid, before, x, y, sprite, count, row, 0) == drawn_until(
            grid,
            before,
            x,
            y,
            sprite,
            count,
            row,
            origin_column(before, x),
        ),
        erased_until(before, x, y, sprite, count, row, 0) == erased_until(
            before,
            x,
            y,
            sprite,
            count,
            row,
            origin_column(before, x),
        ),
        drawn_until(grid, before, x, y, sprite, count, row + 1, 0) == drawn_until(
            grid,
            before,
            x,
            y,
            sprite,
            count,
            row,
            through,
        ),
        erased_until(before, x, y, sprite, count, row + 1, 0) == erased_until(
            before,
            x,
            y,
            sprite,
            count,
            row,
            through,
        ),
{
    let first = origin_column(before, x);
    assert forall|r: int, c: int| 0 <= r < before.len() && 0 <= c < before[r].len() implies (
    reached(row, 0, r, c) != reached(row, first, r, c) ==> !toggles(
        before,
        x,
        y,
        sprite,
        count,
        r,
        c,
    )) && (reached(row + 1, 0, r, c) != reached(row, through, r, c) ==> !toggles(
        before,
        x,
        y,
        sprite,
        count,
        r,
        c,
    )) by {
        assert(before[r].len() == before[0].len());
    }
    if drawn_until(grid, before, x, y, sprite, count, row, 0) {
        assert forall|r: int, c: int|
            0 <= r < before.len() && 0 <= c < before[r].len() implies #[trigger] cell(grid, r, c)
            == if reached(row, first, r, c) {
            before[r][c] != toggles(before, x, y, sprite, count, r, c)
        } else {
            before[r][c]
        } by {}
    }
    if drawn_until(grid, before, x, y, sprite, count, row, first) {
        assert forall|r: int, c: int|
            0 <= r < before.len() && 0 <= c < before[r].len() implies #[trigger] cell(grid, r, c)
            == if reached(row, 0, r, c) {
            before[r][c] != toggles(before, x, y, sprite, count, r, c)
        } else {
            before[r][c]
        } by {}
    }
    if drawn_until(grid, before, x, y, sprite, count, row + 1, 0) {
        assert forall|r: int, c: int|
            0 <= r < before.len() && 0 <= c < before[r].len() implies #[trigger] cell(grid, r, c)
            == if reached(row, through, r, c) {
            before[r][c] != toggles(before, x, y, sprite, count, r, c)
        } else {
            before[r][c]
        } by {}
    }
    if drawn_until(grid, before, x, y, sprite, count, row, through) {
        assert forall|r: int, c: int|
            0 <= r < before.len() && 0 <= c < before[r].len() implies #[trigger] cell(grid, r, c)
            == if reached(row + 1, 0, r, c) {
            before[r][c] != toggles(before, x, y, sprite, count, r, c)
        } else {
            before[r][c]
        } by {}
    }
    lemma_erased_same(before, x, y, sprite, count, row, 0, row, first);
    lemma_erased_same(before, x, y, sprite, count, row + 1, 0, row, through);
}

/// Two stands of a draw between which no cell is toggled have erased the same.
proof fn lemma_erased_same(
    before: Seq<Seq<bool>>,
    x: u8,
    y: u8,
    sprite: Seq<u8>,
    count: nat,
    row_a: int,
    column_a: int,
    row_b: int,
    column_b: int,
)
    requires
        forall|r: int, c: int|
            0 <= r < before.len() && 0 <= c < before[r].len() && reached(row_a, column_a, r, c)
                != reached(row_b, column_b, r, c) ==> !#[trigger] toggles(
                before,
                x,
                y,
                sprite,
                count,
                r,
                c,
            ),
    ensures
        erased_until(before, x, y, sprite, count, row_a, column_a) == erased_until(
            before,
            x,
            y,
            sprite,
            count,
            row_b,
            column_b,
        ),
{
    if erased_until(before, x, y, sprite, count, row_a, column_a) {
        let (r, c) = choose|r: int, c: int|
            reached(row_a, column_a, r, c) && #[trigger] erases(before, x, y, sprite, count, r, c);
        assert(toggles(before, x, y, sprite, count, r, c));
        assert(reached(row_b, column_b, r, c) && erases(before, x, y, sprite, count, r, c));
    }
    if erased_until(before, x, y, sprite, count, row_b, column_b) {
        let (r, c) = choose|r: int, c: int|
            reached(row_b, column_b, r, c) && #[trigger] erases(before, x, y, sprite, count, r, c);
        assert(toggles(before, x, y, sprite, count, r, c));
        assert(reached(row_a, column_a, r, c) && erases(before, x, y, sprite, count, r, c));
    }
}

/// One more cell: the draw moves from `column` to the next column of `row`, having
/// flipped the cell there where the sprite toggles it.
proof fn lemma_next_cell(
    grid: Seq<Seq<bool>>,
    after: Seq<Seq<bool>>,
    before: Seq<Seq<bool>>,
    x: u8,
    y: u8,
    sprite: Seq<u8>,
    count: nat,
    row: int,
    column: int,
)
    requires
        0 <= row < before.len(),
        0 <= column < before[row].len(),
        drawn_until(grid, before, x, y, sprite, count, row, column),
        forall|r: int, c: int|
            0 <= r < before.len() && 0 <= c < before[r].len() && !(r == row && c == column)
                ==> cell(after, r, c) == #[trigger] cell(grid, r, c),
        cell(after, row, column) == (cell(grid, row, column) != toggles(
            before,
            x,
            y,
            sprite,
            count,
            row,
            column,
        )),
    ensures
        drawn_until(after, before, x, y, sprite, count, row, column + 1),
        cell(grid, row, column) == before[row][column],
        erased_until(before, x, y, sprite, count, row, column + 1) == (erased_until(
            before,
            x,
            y,
            sprite,
            count,
            row,
            column,
        ) || erases(before, x, y, sprite, count, row, column)),
{
    assert(cell(grid, row, column) == before[row][column]);
    assert forall|r: int, c: int|
        0 <= r < before.len() && 0 <= c < before[r].len() implies #[trigger] cell(after, r, c)
        == if reached(row, column + 1, r, c) {
        before[r][c] != toggles(before, x, y, sprite, count, r, c)
    } else {
        before[r][c]
    } by {
        assert(cell(grid, r, c) == if reached(row, column, r, c) {
            before[r][c] != toggles(before, x, y, sprite, count, r, c)
        } else {
            before[r][c]
        });
    }
    if erased_until(before, x, y, sprite, count, row, column + 1) {
        let (r, c) = choose|r: int, c: int|
            reached(row, column + 1, r, c) && #[trigger] erases(before, x, y, sprite, count, r, c);
        if !(r == row && c == column) {
            assert(reached(row, column, r, c) && erases(before, x, y, sprite, count, r, c));
        }
    }
    if erased_until(before, x, y, sprite, count, row, column) {
        let (r, c) = choose|r: int, c: int|
            reached(row, column, r, c) && #[trigger] erases(before, x, y, sprite, count, r, c);
        assert(reached(row, column + 1, r, c) && erases(before, x, y, sprite, count, r, c));
    }
    if erases(before, x, y, sprite, count, row, column) {
        assert(reached(row, column + 1, row, column) && erases(
            before,
            x,
            y,
            sprite,
            count,
            row,
            column,
        ));
    }
}

/// A grid without cells stays as it is, whatever is drawn on it, and nothing is erased.
proof fn lemma_nothing_to_draw(grid: Seq<Seq<bool>>, x: u8, y: u8, sprite: Seq<u8>, count: nat)
    requires
        grid.len() == 0 || forall|row: int| 0 <= row < grid.len() ==> (#[trigger] grid[row]).len()
            == 0,
    ensures
        grid == blit(grid, x, y, sprite, count),
        !collides(grid, x, y, sprite, count),
{
    let target = blit(grid, x, y, sprite, count);
    assert forall|row: int| 0 <= row < grid.len() implies grid[row] =~= target[row] by {}
    assert(grid =~= target);
    assert forall|row: int, column: int| !erases(grid, x, y, sprite, count, row, column) by {
        if 0 <= row < grid.len() {
            assert(grid[row].len() == 0);
        }
    }
}

/// A draw that has come to the row behind the last row that it was to draw, behind the
/// sprite's last or behind the grid's last is complete.
proof fn lemma_draw_complete(
    grid: Seq<Seq<bool>>,
    before: Seq<Seq<bool>>,
    x: u8,
    y: u8,
    sprite: Seq<u8>,
    count: nat,
    next_row: int,
)
    requires
        before.len() > 0,
        is_grid(before, before[0].len(), before.len()),
        is_grid(grid, before[0].len(), before.len()),
        next_row >= origin_row(before, y) + count || next_row >= origin_row(before, y)
            + sprite.len() || next_row >= before.len(),
        drawn_until(grid, before, x, y, sprite, count, next_row, 0),
    ensures
        grid == blit(before, x, y, sprite, count),
        erased_until(before, x, y, sprite, count, next_row, 0) == collides(
            before,
            x,
            y,
            sprite,
            count,
        ),
{
    let target = blit(before, x, y, sprite, count);
    assert forall|r: int| 0 <= r < grid.len() implies grid[r] =~= target[r] by {
        assert forall|c: int| 0 <= c < grid[r].len() implies grid[r][c] == target[r][c] by {
            assert(cell(grid, r, c) == if reached(next_row, 0, r, c) {
                before[r][c] != toggles(before, x, y, sprite, count, r, c)
            } else {
                before[r][c]
            });
        }
    }
    assert(grid =~= target);
    if collides(before, x, y, sprite, count) {
        let (r, c) = choose|r: int, c: int| erases(before, x, y, sprite, count, r, c);
        assert(reached(next_row, 0, r, c) && erases(before, x, y, sprite, count, r, c));
    }
    if erased_until(before, x, y, sprite, count, next_row, 0) {
        let (r, c) = choose|r: int, c: int|
            reached(next_row, 0, r, c) && #[trigger] erases(before, x, y, sprite, count, r, c);
        assert(erases(before, x, y, sprite, count, r, c));
    }
}

impl traits::ScreenMemory for ScreenMemory {
    open spec fn grid(&self) -> Seq<Seq<bool>> {
        self@
    }

    fn clear(&mut self) {
        proof {
            use_type_invariant(&*self);
        }
        self.set_dimensions(self.width, self.height);
    }

    fn display(&mut self, x: u8, y: u8, memory: &[u8], count: u8) -> (erased: bool) {
        proof {
            use_type_invariant(&*self);
        }
        if self.width == 0 || self.height == 0 {
            proof {
                lemma_nothing_to_draw(self@, x, y, memory@, count as nat);
            }
            return false;
        }
        let origin_x = (x as usize) % self.width;
        let origin_y = (y as usize) % self.height;
        let ghost before = self@;
        let ghost rows = count as nat;
        assert(origin_x == origin_column(before, x));
        assert(origin_y == origin_row(before, y));
        assert(is_grid(before, before[0].len(), before.len()));
        assert(!erased_until(before, x, y, memory@, rows, origin_y as int, 0)) by {
            if erased_until(before, x, y, memory@, rows, origin_y as int, 0) {
                let (r, c) = choose|r: int, c: int|
                    reached(origin_y as int, 0, r, c) && #[trigger] erases(
                        before,
                        x,
                        y,
                        memory@,
                        rows,
                        r,
                        c,
                    );
                assert(toggles(before, x, y, memory@, rows, r, c));
            }
        }
        assert(drawn_until(self@, before, x, y, memory@, rows, origin_y as int, 0)) by {
            assert forall|r: int, c: int|
                0 <= r < before.len() && 0 <= c < before[r].len() && reached(
                    origin_y as int,
                    0,
                    r,
                    c,
                ) implies !toggles(before, x, y, memory@, rows, r, c) by {}
        }

        let mut cleared = false;

        let mut index: usize = 0;
        while index < count as usize && index < memory.len() && index < self.height - origin_y
            invariant
                index <= count,
                index <= memory@.len(),
                rows == count,
                origin_x == origin_column(before, x),
                origin_y == origin_row(before, y),
                origin_x < self.width,
                origin_y < self.height,
                before.len() == self.height,
                before[0].len() == self.width,
                is_grid(before, self.width as nat, self.height as nat),
                self.contents@.len() == self.height,
                forall|r: int|
                    0 <= r < self.contents@.len() ==> (#[trigger] self.contents@[r])@.len()
                        == self.width,
                drawn_until(self@, before, x, y, memory@, rows, origin_y + index, 0),
                cleared == erased_until(before, x, y, memory@, rows, origin_y + index, 0),
            decreases count - index,
        {
            let row = origin_y + index;
            let memory_value = memory[index];
            proof {
                lemma_row_start(self@, before, x, y, memory@, rows, row as int, origin_x + 8);
            }

            let mut column: usize = 0;
            while column < 8 && column < self.width - origin_x
                invariant
                    column <= 8,
                    index < count,
                    index < memory@.len(),
                    rows == count,
                    row == origin_y + index,
                    row < self.height,
                    memory_value == memory@[index as int],
                    origin_x == origin_column(before, x),
                    origin_y == origin_row(before, y),
                    origin_x < self.width,
                    before.len() == self.height,
                    before[0].len() == self.width,
                    is_grid(before, self.width as nat, self.height as nat),
                    self.contents@.len() == self.height,
                    forall|r: int|
                        0 <= r < self.contents@.len() ==> (#[trigger] self.contents@[r])@.len()
                            == self.width,
                    drawn_until(self@, before, x, y, memory@, rows, row as int, origin_x + column),
                    cleared == erased_until(
                        before,
                        x,
                        y,
                        memory@,
                        rows,
                        row as int,
                        origin_x + column,
                    ),
                decreases 8 - column,
            {
                let target = origin_x + column;
                let ghost mid = self@;
                if memory_value & (0x80u8 >> (column as u8)) != 0 {
                    let was_set = flip(&mut self.contents, row, target);
                    if was_set {
                        cleared = true;
                    }
                }
                proof {
                    assert(sprite_bit(memory@, index as int, column as int) == (memory_value & (
                    0x80u8 >> (column as u8)) != 0));
                    assert(toggles(before, x, y, memory@, rows, row as int, target as int)
                        == sprite_bit(memory@, index as int, column as int));
                    lemma_next_cell(
                        mid,
                        self@,
                        before,
                        x,
                        y,
                        memory@,
                        rows,
                        row as int,
                        target as int,
                    );
                }
                column += 1;
            }
            proof {
                lemma_row_start(self@, before, x, y, memory@, rows, row as int, origin_x + column);
            }
            index += 1;
        }
        proof {
            assert(is_grid(self@, self.width as nat, self.height as nat));
            lemma_draw_complete(self@, before, x, y, memory@, rows, origin_y + index);
        }

        cleared
    }
}

} // verus!

//! A copy of the frame for frontends that show it as text.
use vstd::prelude::*;
use vstd::string::StringExecFns;

verus! {

/// The cells of rows of booleans.
pub open spec fn grid_of(rows: Seq<Vec<bool>>) -> Seq<Seq<bool>> {
    Seq::new(rows.len(), |row: int| rows[row]@)
}

/// One row as text: `set` for each cell that is set, `unset` for each that is not.
pub open spec fn row_text(row: Seq<bool>, set: Seq<char>, unset: Seq<char>) -> Seq<char>
    decreases row.len(),
{
    if row.len() == 0 {
        Seq::empty()
    } else {
        row_text(row.drop_last(), set, unset) + if row.last() {
            set
        } else {
            unset
        }
    }
}

/// Rows as text: each row as `row_text` gives it, and `end` behind each.
pub open spec fn rows_text(
    rows: Seq<Seq<bool>>,
    set: Seq<char>,
    unset: Seq<char>,
    end: Seq<char>,
) -> Seq<char>
    decreases rows.len(),
{
    if rows.len() == 0 {
        Seq::empty()
    } else {
        rows_text(rows.drop_last(), set, unset, end) + row_text(rows.last(), set, unset) + end
    }
}

/// The rows as text: `set` for each cell that is set, `unset` for each that is not, and
/// `end` behind each row.
pub fn rows_to_text(rows: &[Vec<bool>], set: &str, unset: &str, end: &str) -> (text: String)
    ensures
        text@ == rows_text(grid_of(rows@), set@, unset@, end@),
{
    let ghost grid = grid_of(rows@);
    let mut text = String::new();
    let mut index: usize = 0;
    assert(grid.subrange(0, 0) =~= Seq::<Seq<bool>>::empty());
    while index < rows.len()
        invariant
            index <= rows@.len(),
            grid == grid_of(rows@),
            text@ == rows_text(grid.subrange(0, index as int), set@, unset@, end@),
        decreases rows@.len() - index,
    {
        let row = &rows[index];
        let ghost start = text@;
        let mut column: usize = 0;
        assert(row@.subrange(0, 0) =~= Seq::<bool>::empty());
        assert(start + Seq::<char>::empty() =~= start);
        while column < row.len()
            invariant
                column <= row@.len(),
                text@ == start + row_text(row@.subrange(0, column as int), set@, unset@),
            decreases row@.len() - column,
        {
            let ghost done = row@.subrange(0, column as int);
            if row[column] {
                text.append(set);
            } else {
                text.append(unset);
            }
            column += 1;
            proof {
                let more = row@.subrange(0, column as int);
                assert(more.drop_last() =~= done);
                assert(text@ =~= start + row_text(more, set@, unset@));
            }
        }
        text.append(end);
        index += 1;
        proof {
            let more = grid.subrange(0, index as int);
            assert(more.drop_last() =~= grid.subrange(0, index - 1));
            assert(more.last() == row@);
            assert(row@.subrange(0, row@.len() as int) =~= row@);
        }
    }
    assert(grid.subrange(0, index as int) =~= grid);
    text
}

/// The rows as text: a filled square for each cell that is set, a blank for each that is
/// not, and a line feed behind each row.
pub fn fmt_rendered_memory(rendered_memory: &Vec<Vec<bool>>) -> (text: String)
    ensures
        text@ == rows_text(grid_of(rendered_memory@), "◼"@, " "@, "\n"@),
{
    rows_to_text(rendered_memory.as_slice(), "◼", " ", "\n")
}

/// A row after the cells of `source` were stored in it: the cells of `source` first, and
/// behind them what the row held there before.
pub open spec fn stored_row(row: Seq<bool>, source: Seq<bool>) -> Seq<bool> {
    Seq::new(
        if row.len() >= source.len() {
            row.len()
        } else {
            source.len()
        },
        |column: int|
            if column < source.len() {
                source[column]
            } else {
                row[column]
            },
    )
}

/// Rows after the rows of `source` were stored in them: each row of `source` is stored
/// in the row of its number, and the rows behind them are as before.
pub open spec fn stored_rows(rows: Seq<Seq<bool>>, source: Seq<Seq<bool>>) -> Seq<Seq<bool>> {
    Seq::new(
        if rows.len() >= source.len() {
            rows.len()
        } else {
            source.len()
        },
        |row: int|
            if row < source.len() {
                stored_row(
                    if row < rows.len() {
                        rows[row]
                    } else {
                        Seq::empty()
                    },
                    source[row],
                )
            } else {
                rows[row]
            },
    )
}

/// Stores the cells of `source` in `row`, which grows where it is shorter.
pub fn store_row(row: &mut Vec<bool>, source: &Vec<bool>)
    ensures
        final(row)@ == stored_row(old(row)@, source@),
{
    let mut column: usize = 0;
    while column < source.len()
        invariant
            column <= source@.len(),
            row@.len() == if old(row)@.len() >= column {
                old(row)@.len()
            } else {
                column as nat
            },
            forall|c: int| 0 <= c < column ==> row@[c] == source@[c],
            forall|c: int| column <= c < row@.len() ==> row@[c] == old(row)@[c],
        decreases source@.len() - column,
    {
        if column == row.len() {
            row.push(false);
        }
        row[column] = source[column];
        column += 1;
    }
    assert(row@ =~= stored_row(old(row)@, source@));
}

/// Stores the rows of `memory` in `rendered_memory`, which grows where it has fewer rows
/// or shorter ones. What `rendered_memory` holds beyond the rows and cells of `memory`
/// stays.
pub fn store_rows(rendered_memory: &mut Vec<Vec<bool>>, memory: &[Vec<bool>])
    ensures
        grid_of(final(rendered_memory)@) == stored_rows(
            grid_of(old(rendered_memory)@),
            grid_of(memory@),
        ),
{
    let ghost before = grid_of(rendered_memory@);
    let ghost source = grid_of(memory@);
    let mut row_index: usize = 0;
    while row_index < memory.len()
        invariant
            row_index <= memory@.len(),
            before == grid_of(old(rendered_memory)@),
            source == grid_of(memory@),
            rendered_memory@.len() == if before.len() >= row_index {
                before.len()
            } else {
                row_index as nat
            },
            forall|r: int|
                0 <= r < row_index ==> (#[trigger] rendered_memory@[r])@ == stored_rows(
                    before,
                    source,
                )[r],
            forall|r: int|
                row_index <= r < rendered_memory@.len() ==> (#[trigger] rendered_memory@[r])@
                    == before[r],
        decreases memory@.len() - row_index,
    {
        if row_index == rendered_memory.len() {
            rendered_memory.push(vec![]);
        }
        let ghost held = rendered_memory@;
        store_row(&mut rendered_memory[row_index], &memory[row_index]);
        proof {
            assert(rendered_memory@.len() == held.len());
            assert forall|r: int| 0 <= r < rendered_memory@.len() && r != row_index implies (
            #[trigger] rendered_memory@[r]) == held[r] by {}
        }
        row_index += 1;
    }
    assert(grid_of(rendered_memory@) =~= stored_rows(before, source));
}

} // verus!

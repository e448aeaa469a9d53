use vstd::prelude::*;

verus! {

/// The mark a player places on the board.
#[derive(Clone, Copy, Debug, PartialEq, Eq, Structural)]
pub enum PlayerMark {
    X,
    O,
}

/// The 3x3 grid, indexed `[row][column]`; `None` is an empty cell.
pub type Board = [[Option<PlayerMark>; 3]; 3];

/// The nine cells of a board in row-major order: cell `3 * row + column`.
pub open spec fn cells(board: Board) -> Seq<Option<PlayerMark>> {
    Seq::new(9, |i: int| board[i / 3][i % 3])
}

/// Whether the cells `a`, `b` and `c` all hold `mark`.
pub open spec fn three(cells: Seq<Option<PlayerMark>>, a: int, b: int, c: int, mark: PlayerMark) -> bool {
    &&& cells[a] == Some(mark)
    &&& cells[b] == Some(mark)
    &&& cells[c] == Some(mark)
}

/// Whether `mark` holds all of row `row`.
pub open spec fn row_held(cells: Seq<Option<PlayerMark>>, row: int, mark: PlayerMark) -> bool {
    three(cells, 3 * row, 3 * row + 1, 3 * row + 2, mark)
}

/// Whether `mark` holds all of column `col`.
pub open spec fn col_held(cells: Seq<Option<PlayerMark>>, col: int, mark: PlayerMark) -> bool {
    three(cells, col, col + 3, col + 6, mark)
}

/// Whether `mark` holds a full row, a full column or one of the two
/// diagonals.
pub open spec fn has_line(cells: Seq<Option<PlayerMark>>, mark: PlayerMark) -> bool {
    ||| three(cells, 0, 1, 2, mark)
    ||| three(cells, 3, 4, 5, mark)
    ||| three(cells, 6, 7, 8, mark)
    ||| three(cells, 0, 3, 6, mark)
    ||| three(cells, 1, 4, 7, mark)
    ||| three(cells, 2, 5, 8, mark)
    ||| three(cells, 0, 4, 8, mark)
    ||| three(cells, 2, 4, 6, mark)
}

/// Whether every cell is occupied.
pub open spec fn is_full(cells: Seq<Option<PlayerMark>>) -> bool {
    forall|i: int| 0 <= i < 9 ==> (#[trigger] cells[i]) is Some
}

/// Whether `mark` has completed three in a row on `board`.
pub fn check_win(board: &Board, mark: PlayerMark) -> (won: bool)
    ensures
        won == has_line(cells(*board), mark),
{
    let ghost cs = cells(*board);
    let mut row: usize = 0;
    while row < 3
        invariant
            row <= 3,
            cs == cells(*board),
            forall|k: int| 0 <= k < row ==> !#[trigger] row_held(cs, k, mark),
        decreases 3 - row,
    {
        if board[row][0] == Some(mark) && board[row][1] == Some(mark) && board[row][2] == Some(mark) {
            assert(row_held(cs, row as int, mark));
            return true;
        }
        row = row + 1;
    }
    assert(!row_held(cs, 0, mark) && !row_held(cs, 1, mark) && !row_held(cs, 2, mark));
    let mut col: usize = 0;
    while col < 3
        invariant
            col <= 3,
            cs == cells(*board),
            forall|k: int| 0 <= k < col ==> !#[trigger] col_held(cs, k, mark),
        decreases 3 - col,
    {
        if board[0][col] == Some(mark) && board[1][col] == Some(mark) && board[2][col] == Some(mark) {
            assert(col_held(cs, col as int, mark));
            return true;
        }
        col = col + 1;
    }
    assert(!col_held(cs, 0, mark) && !col_held(cs, 1, mark) && !col_held(cs, 2, mark));
    if (board[0][0] == Some(mark) && board[1][1] == Some(mark) && board[2][2] == Some(mark)) || (board[0][2]
        == Some(mark) && board[1][1] == Some(mark) && board[2][0] == Some(mark)) {
        return true;
    }
    false
}

/// Whether no empty cell is left on `board`.
pub fn check_draw(board: &Board) -> (full: bool)
    ensures
        full == is_full(cells(*board)),
{
    let ghost cs = cells(*board);
    let mut row: usize = 0;
    while row < 3
        invariant
            row <= 3,
            cs == cells(*board),
            forall|i: int| 0 <= i < 3 * row ==> (#[trigger] cs[i]) is Some,
        decreases 3 - row,
    {
        let mut col: usize = 0;
        while col < 3
            invariant
                row < 3,
                col <= 3,
                cs == cells(*board),
                forall|i: int| 0 <= i < 3 * row + col ==> (#[trigger] cs[i]) is Some,
            decreases 3 - col,
        {
            if board[row][col].is_none() {
                assert(cs[3 * row + col] is None);
                return false;
            }
            col = col + 1;
        }
        row = row + 1;
    }
    true
}

/// The cells of the board turned a quarter turn clockwise: what stood in
/// row `2 - c`, column `r` stands in row `r`, column `c`.
pub open spec fn quarter_turn(cells: Seq<Option<PlayerMark>>) -> Seq<Option<PlayerMark>> {
    Seq::new(9, |i: int| cells[3 * (2 - i % 3) + i / 3])
}

/// The cells of the board reflected left to right: what stood in row `r`,
/// column `2 - c` stands in row `r`, column `c`.
pub open spec fn mirrored(cells: Seq<Option<PlayerMark>>) -> Seq<Option<PlayerMark>> {
    Seq::new(9, |i: int| cells[3 * (i / 3) + (2 - i % 3)])
}

/// Where each cell goes in a quarter turn and in a reflection.
pub proof fn turned_cells(cells: Seq<Option<PlayerMark>>)
    ensures
        quarter_turn(cells).len() == 9,
        mirrored(cells).len() == 9,
        quarter_turn(cells)[0] == cells[6] && quarter_turn(cells)[1] == cells[3] && quarter_turn(cells)[2]
            == cells[0],
        quarter_turn(cells)[3] == cells[7] && quarter_turn(cells)[4] == cells[4] && quarter_turn(cells)[5]
            == cells[1],
        quarter_turn(cells)[6] == cells[8] && quarter_turn(cells)[7] == cells[5] && quarter_turn(cells)[8]
            == cells[2],
        mirrored(cells)[0] == cells[2] && mirrored(cells)[1] == cells[1] && mirrored(cells)[2] == cells[0],
        mirrored(cells)[3] == cells[5] && mirrored(cells)[4] == cells[4] && mirrored(cells)[5] == cells[3],
        mirrored(cells)[6] == cells[8] && mirrored(cells)[7] == cells[7] && mirrored(cells)[8] == cells[6],
{
}

/// Win detection does not depend on how the board is held: a quarter turn
/// or a reflection leaves every player's win, and the fullness of the
/// board, as they were. So the same holds of every rotation and reflection,
/// which are made of these two.
pub proof fn win_survives_turning(cells: Seq<Option<PlayerMark>>, mark: PlayerMark)
    ensures
        has_line(quarter_turn(cells), mark) == has_line(cells, mark),
        has_line(mirrored(cells), mark) == has_line(cells, mark),
        is_full(quarter_turn(cells)) == is_full(cells),
        is_full(mirrored(cells)) == is_full(cells),
{
    turned_cells(cells);
}

/// Four quarter turns, or two reflections, bring every cell back.
pub proof fn turning_comes_round(cells: Seq<Option<PlayerMark>>)
    requires
        cells.len() == 9,
    ensures
        quarter_turn(quarter_turn(quarter_turn(quarter_turn(cells)))) == cells,
        mirrored(mirrored(cells)) == cells,
{
    let once = quarter_turn(cells);
    let twice = quarter_turn(once);
    let thrice = quarter_turn(twice);
    turned_cells(cells);
    turned_cells(once);
    turned_cells(twice);
    turned_cells(thrice);
    turned_cells(mirrored(cells));
    assert forall|i: int| 0 <= i < 9 implies quarter_turn(thrice)[i] == cells[i] && mirrored(mirrored(cells))[i]
        == cells[i] by {
        if i == 0 {
        } else if i == 1 {
        } else if i == 2 {
        } else if i == 3 {
        } else if i == 4 {
        } else if i == 5 {
        } else if i == 6 {
        } else if i == 7 {
        } else {
        }
    }
    assert(quarter_turn(thrice) =~= cells);
    assert(mirrored(mirrored(cells)) =~= cells);
}

} // verus!

//! What holds of every game, proved over the model of the board.

use vstd::prelude::*;
use super::{GameErr, GameState, Token};
use super::board::Board;
use super::lines::{
    above, dia_at, dia_from, falling_at, first_four, four, four_along, four_at, has_four, hor_at,
    hor_from, line_win, rising_at, token_at, ver_at, ver_from, winner,
};
use super::zip::{zipped, Row};

verus! {

/// A legal move keeps the board valid: no column ever grows beyond the
/// board's height, and the game goes on only while nobody has four in a row.
pub proof fn law_drop_keeps_valid(board: Board, token: Token, x: int)
    requires
        board.valid(),
        board.refusal(x) is None,
    ensures
        board.after_drop(token, x).valid(),
        board.after_drop(token, x).cells[x].len() == board.cells[x].len() + 1,
        board.after_drop(token, x).cells[x].len() <= board.height,
{
}

/// While the game is being played, a move into a column that is filled to
/// the top is refused as `FullCol`.
pub proof fn law_full_column_refused(board: Board, x: int)
    requires
        board.valid(),
        board.state == GameState::Playing,
        0 <= x < board.width,
        board.cells[x].len() == board.height,
    ensures
        board.refusal(x) == Some(GameErr::FullCol),
{
}

/// While the game is being played, a move into a column that does not exist
/// is refused as `InvalidCol`.
pub proof fn law_missing_column_refused(board: Board, x: int)
    requires
        board.valid(),
        board.state == GameState::Playing,
        x < 0 || x >= board.width,
    ensures
        board.refusal(x) == Some(GameErr::InvalidCol),
{
}

/// Once the game is won or drawn, every move is refused as `InvalidState`,
/// whatever the column.
pub proof fn law_finished_game_refuses(board: Board, x: int)
    requires
        board.state != GameState::Playing,
    ensures
        board.refusal(x) == Some(GameErr::InvalidState),
{
}

/// The text of a board depends on the board alone: two renderings of one
/// board are the same text.
pub proof fn law_rendering_repeatable(board: Board, first: Seq<char>, second: Seq<char>)
    requires
        first == board.text(),
        second == board.text(),
    ensures
        first == second,
{
}

/// A row found from `from` on is a row of the sequence with four equal tokens.
proof fn lemma_first_four_found(rows: Seq<Row>, from: int, token: Token) -> (i: int)
    requires
        0 <= from,
        first_four(rows, from) == Some(token),
    ensures
        from <= i < rows.len(),
        four(rows[i]) == Some(token),
    decreases rows.len() - from,
{
    if four(rows[from]) is Some {
        from
    } else {
        lemma_first_four_found(rows, from + 1, token)
    }
}

/// A row with four equal tokens at or after `from` is not missed.
proof fn lemma_first_four_finds(rows: Seq<Row>, from: int, i: int)
    requires
        0 <= from <= i < rows.len(),
        four(rows[i]) is Some,
    ensures
        first_four(rows, from) is Some,
    decreases i - from,
{
    if from < i {
        lemma_first_four_finds(rows, from + 1, i);
    }
}

/// What a lock-step walk finds lies at one position of all four sequences.
proof fn lemma_line_found(
    a: Seq<Token>,
    b: Seq<Token>,
    c: Seq<Token>,
    d: Seq<Token>,
    token: Token,
) -> (i: int)
    requires
        line_win(a, b, c, d) == Some(token),
    ensures
        0 <= i < a.len(),
        i < b.len(),
        i < c.len(),
        i < d.len(),
        a[i] == token,
        b[i] == token,
        c[i] == token,
        d[i] == token,
{
    lemma_first_four_found(zipped(a, b, c, d), 0, token)
}

/// A lock-step walk finds something wherever four equal tokens share a
/// position.
proof fn lemma_line_finds(a: Seq<Token>, b: Seq<Token>, c: Seq<Token>, d: Seq<Token>, i: int)
    requires
        0 <= i < a.len(),
        i < b.len(),
        i < c.len(),
        i < d.len(),
        a[i] == b[i],
        b[i] == c[i],
        c[i] == d[i],
    ensures
        line_win(a, b, c, d) is Some,
{
    lemma_first_four_finds(zipped(a, b, c, d), 0, i);
}

/// A vertical four found from column `x` on is on the board.
proof fn lemma_ver_from_sound(cells: Seq<Seq<Token>>, x: int, token: Token)
    requires
        0 <= x,
        ver_from(cells, x) == Some(token),
    ensures
        has_four(cells, token),
    decreases cells.len() - x,
{
    if ver_at(cells, x) is Some {
        let col = cells[x];
        let i = lemma_line_found(col, above(col, 1), above(col, 2), above(col, 3), token);
        assert(four_along(cells, token, x, i, 0, 1));
        assert(four_at(cells, token, x, i));
    } else {
        lemma_ver_from_sound(cells, x + 1, token);
    }
}

/// A horizontal four found from column `c` on is on the board.
proof fn lemma_hor_from_sound(cells: Seq<Seq<Token>>, c: int, token: Token)
    requires
        0 <= c,
        hor_from(cells, c) == Some(token),
    ensures
        has_four(cells, token),
    decreases cells.len() - c,
{
    if hor_at(cells, c) is Some {
        let i = lemma_line_found(cells[c], cells[c + 1], cells[c + 2], cells[c + 3], token);
        assert(four_along(cells, token, c, i, 1, 0));
        assert(four_at(cells, token, c, i));
    } else {
        lemma_hor_from_sound(cells, c + 1, token);
    }
}

/// A diagonal four found from column `c` on is on the board.
proof fn lemma_dia_from_sound(cells: Seq<Seq<Token>>, c: int, token: Token)
    requires
        0 <= c,
        dia_from(cells, c) == Some(token),
    ensures
        has_four(cells, token),
    decreases cells.len() - c,
{
    if rising_at(cells, c) is Some {
        let i = lemma_line_found(
            cells[c],
            above(cells[c + 1], 1),
            above(cells[c + 2], 2),
            above(cells[c + 3], 3),
            token,
        );
        assert(four_along(cells, token, c, i, 1, 1));
        assert(four_at(cells, token, c, i));
    } else if falling_at(cells, c) is Some {
        let i = lemma_line_found(
            above(cells[c], 3),
            above(cells[c + 1], 2),
            above(cells[c + 2], 1),
            cells[c + 3],
            token,
        );
        assert(four_along(cells, token, c, i + 3, 1, -1));
        assert(four_at(cells, token, c, i + 3));
    } else {
        lemma_dia_from_sound(cells, c + 1, token);
    }
}

/// A vertical four in column `c` is met by the search that starts at `x`.
proof fn lemma_ver_from_complete(cells: Seq<Seq<Token>>, x: int, c: int)
    requires
        0 <= x <= c < cells.len(),
        ver_at(cells, c) is Some,
    ensures
        ver_from(cells, x) is Some,
    decreases c - x,
{
    if x < c {
        lemma_ver_from_complete(cells, x + 1, c);
    }
}

/// A horizontal four that starts in column `c` is met by the search that
/// starts at `x`.
proof fn lemma_hor_from_complete(cells: Seq<Seq<Token>>, x: int, c: int)
    requires
        0 <= x <= c,
        c + 4 <= cells.len(),
        hor_at(cells, c) is Some,
    ensures
        hor_from(cells, x) is Some,
    decreases c - x,
{
    if x < c {
        lemma_hor_from_complete(cells, x + 1, c);
    }
}

/// A diagonal four that starts in column `c` is met by the search that
/// starts at `x`.
proof fn lemma_dia_from_complete(cells: Seq<Seq<Token>>, x: int, c: int)
    requires
        0 <= x <= c,
        c + 4 <= cells.len(),
        dia_at(cells, c) is Some,
    ensures
        dia_from(cells, x) is Some,
    decreases c - x,
{
    if x < c {
        lemma_dia_from_complete(cells, x + 1, c);
    }
}

/// The search reports only what is on the board: a token is named the
/// winner only if four cells in a line hold it.
pub proof fn law_winner_has_four(cells: Seq<Seq<Token>>, token: Token)
    requires
        winner(cells) == Some(token),
    ensures
        has_four(cells, token),
{
    if ver_from(cells, 0) is Some {
        lemma_ver_from_sound(cells, 0, token);
    } else if hor_from(cells, 0) is Some {
        lemma_hor_from_sound(cells, 0, token);
    } else {
        lemma_dia_from_sound(cells, 0, token);
    }
}

/// The search misses nothing: wherever four cells in a line hold the same
/// token, vertically, horizontally or on either diagonal, a winner is found.
pub proof fn law_four_is_found(cells: Seq<Seq<Token>>, token: Token)
    requires
        has_four(cells, token),
    ensures
        winner(cells) is Some,
{
    let (col, row) = choose|col: int, row: int| #[trigger] four_at(cells, token, col, row);
    if four_along(cells, token, col, row, 0, 1) {
        let line = cells[col];
        lemma_line_finds(line, above(line, 1), above(line, 2), above(line, 3), row);
        lemma_ver_from_complete(cells, 0, col);
    } else if four_along(cells, token, col, row, 1, 0) {
        lemma_line_finds(cells[col], cells[col + 1], cells[col + 2], cells[col + 3], row);
        lemma_hor_from_complete(cells, 0, col);
    } else if four_along(cells, token, col, row, 1, 1) {
        lemma_line_finds(
            cells[col],
            above(cells[col + 1], 1),
            above(cells[col + 2], 2),
            above(cells[col + 3], 3),
            row,
        );
        lemma_dia_from_complete(cells, 0, col);
    } else {
        lemma_line_finds(
            above(cells[col], 3),
            above(cells[col + 1], 2),
            above(cells[col + 2], 1),
            cells[col + 3],
            row - 3,
        );
        lemma_dia_from_complete(cells, 0, col);
    }
}

/// On the empty board nobody has four in a row, so the board on which play
/// begins is valid.
pub proof fn law_empty_board_has_no_winner(width: nat, height: nat)
    ensures
        winner(Board::empty(width, height).cells) is None,
        Board::empty(width, height).valid(),
{
    let cells = Board::empty(width, height).cells;
    if let Some(token) = winner(cells) {
        law_winner_has_four(cells, token);
        let (col, row) = choose|col: int, row: int| #[trigger] four_at(cells, token, col, row);
        assert(token_at(cells, col, row) is None);
    }
}

/// After a legal move on a board without four in a row, only the token that
/// was dropped can have won.
pub proof fn law_winner_made_the_move(board: Board, token: Token, x: int, won: Token)
    requires
        board.refusal(x) is None,
        winner(board.cells) is None,
        board.after_drop(token, x).state == GameState::Won(won),
    ensures
        won == token,
{
    let old_cells = board.cells;
    let new_cells = board.dropped(token, x).cells;
    law_winner_has_four(new_cells, won);
    if won != token {
        let (col, row) = choose|col: int, row: int| #[trigger] four_at(new_cells, won, col, row);
        assert forall|c: int, r: int| token_at(new_cells, c, r) == Some(won) implies token_at(
            old_cells,
            c,
            r,
        ) == Some(won) by {}
        assert(four_at(old_cells, won, col, row));
        law_four_is_found(old_cells, won);
    }
}

/// What a legal move in a valid game leads to: the player who moved has won
/// exactly if four cells in a line now hold that player's token; otherwise
/// the game is drawn exactly if the board is full, and goes on if it is not.
/// The other player never wins by it.
pub proof fn law_move_outcome(board: Board, token: Token, x: int)
    requires
        board.valid(),
        board.refusal(x) is None,
    ensures
        board.after_drop(token, x).state == GameState::Won(token) <==> has_four(
            board.dropped(token, x).cells,
            token,
        ),
        board.after_drop(token, x).state != GameState::Won(token.other()),
        board.after_drop(token, x).state == GameState::Draw <==> !has_four(
            board.dropped(token, x).cells,
            token,
        ) && board.dropped(token, x).full(),
{
    let cells = board.dropped(token, x).cells;
    if let Some(won) = winner(cells) {
        law_winner_made_the_move(board, token, x, won);
        law_winner_has_four(cells, won);
    }
    if has_four(cells, token) {
        law_four_is_found(cells, token);
    }
}

} // verus!

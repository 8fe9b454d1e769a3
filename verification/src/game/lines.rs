//! What counts as four in a row, and in which order the board is searched.
//!
//! A board is a sequence of columns, each a sequence of tokens from the
//! bottom up. Every search below walks four sequences in lock step and
//! reports the first position at which the four tokens agree.

use vstd::prelude::*;
use super::Token;
use super::zip::{zip_rows, zipped, Row};

verus! {

/// The token of a row whose four tokens are equal.
pub open spec fn four(row: Row) -> Option<Token> {
    if row.0 == row.1 && row.1 == row.2 && row.2 == row.3 {
        Some(row.0)
    } else {
        None
    }
}

/// The first of two findings that is present.
pub open spec fn or_else(first: Option<Token>, second: Option<Token>) -> Option<Token> {
    if first is Some {
        first
    } else {
        second
    }
}

/// The token of the first row at or after `from` whose four tokens are equal.
pub open spec fn first_four(rows: Seq<Row>, from: int) -> Option<Token>
    decreases rows.len() - from,
{
    if from < 0 || from >= rows.len() {
        None
    } else {
        or_else(four(rows[from]), first_four(rows, from + 1))
    }
}

/// The first four equal tokens met when `a`, `b`, `c` and `d` are walked in
/// lock step.
pub open spec fn line_win(a: Seq<Token>, b: Seq<Token>, c: Seq<Token>, d: Seq<Token>) -> Option<
    Token,
> {
    first_four(zipped(a, b, c, d), 0)
}

/// What is left of `col` above its lowest `k` cells.
pub open spec fn above(col: Seq<Token>, k: int) -> Seq<Token> {
    col.subrange(k, col.len() as int)
}

/// Four equal tokens stacked in column `x`, lowest window first.
pub open spec fn ver_at(cells: Seq<Seq<Token>>, x: int) -> Option<Token> {
    let col = cells[x];
    if col.len() < 4 {
        None
    } else {
        line_win(col, above(col, 1), above(col, 2), above(col, 3))
    }
}

/// Four equal tokens side by side in columns `c` to `c + 3`, lowest row first.
pub open spec fn hor_at(cells: Seq<Seq<Token>>, c: int) -> Option<Token> {
    line_win(cells[c], cells[c + 1], cells[c + 2], cells[c + 3])
}

/// Four equal tokens rising to the right through columns `c` to `c + 3`.
pub open spec fn rising_at(cells: Seq<Seq<Token>>, c: int) -> Option<Token> {
    if cells[c].len() >= 1 && cells[c + 1].len() >= 2 && cells[c + 2].len() >= 3 && cells[c
        + 3].len() >= 4 {
        line_win(cells[c], above(cells[c + 1], 1), above(cells[c + 2], 2), above(cells[c + 3], 3))
    } else {
        None
    }
}

/// Four equal tokens falling to the right through columns `c` to `c + 3`.
pub open spec fn falling_at(cells: Seq<Seq<Token>>, c: int) -> Option<Token> {
    if cells[c].len() >= 4 && cells[c + 1].len() >= 3 && cells[c + 2].len() >= 2 && cells[c
        + 3].len() >= 1 {
        line_win(above(cells[c], 3), above(cells[c + 1], 2), above(cells[c + 2], 1), cells[c + 3])
    } else {
        None
    }
}

/// A diagonal through columns `c` to `c + 3`: rising before falling.
pub open spec fn dia_at(cells: Seq<Seq<Token>>, c: int) -> Option<Token> {
    or_else(rising_at(cells, c), falling_at(cells, c))
}

/// The first vertical four in the columns from `x` on.
pub open spec fn ver_from(cells: Seq<Seq<Token>>, x: int) -> Option<Token>
    decreases cells.len() - x,
{
    if x < 0 || x >= cells.len() {
        None
    } else {
        or_else(ver_at(cells, x), ver_from(cells, x + 1))
    }
}

/// The first horizontal four in the groups of four columns from `c` on.
pub open spec fn hor_from(cells: Seq<Seq<Token>>, c: int) -> Option<Token>
    decreases cells.len() - c,
{
    if c < 0 || c + 4 > cells.len() {
        None
    } else {
        or_else(hor_at(cells, c), hor_from(cells, c + 1))
    }
}

/// The first diagonal four in the groups of four columns from `c` on.
pub open spec fn dia_from(cells: Seq<Seq<Token>>, c: int) -> Option<Token>
    decreases cells.len() - c,
{
    if c < 0 || c + 4 > cells.len() {
        None
    } else {
        or_else(dia_at(cells, c), dia_from(cells, c + 1))
    }
}

/// The token that has four in a row on the board, if any: vertical lines are
/// searched first, then horizontal ones, then diagonals, each from the
/// leftmost column on.
pub open spec fn winner(cells: Seq<Seq<Token>>) -> Option<Token> {
    or_else(ver_from(cells, 0), or_else(hor_from(cells, 0), dia_from(cells, 0)))
}

/// The token in column `col` at height `row`, if the board has one there.
pub open spec fn token_at(cells: Seq<Seq<Token>>, col: int, row: int) -> Option<Token> {
    if 0 <= col < cells.len() && 0 <= row < cells[col].len() {
        Some(cells[col][row])
    } else {
        None
    }
}

/// The cell at (`col`, `row`) and the next three in the direction
/// (`dc`, `dr`) all hold `token`.
pub open spec fn four_along(
    cells: Seq<Seq<Token>>,
    token: Token,
    col: int,
    row: int,
    dc: int,
    dr: int,
) -> bool {
    &&& token_at(cells, col, row) == Some(token)
    &&& token_at(cells, col + dc, row + dr) == Some(token)
    &&& token_at(cells, col + 2 * dc, row + 2 * dr) == Some(token)
    &&& token_at(cells, col + 3 * dc, row + 3 * dr) == Some(token)
}

/// Four cells in a line that starts at (`col`, `row`) all hold `token`: the
/// line goes up, to the right, up and to the right, or down and to the right.
pub open spec fn four_at(cells: Seq<Seq<Token>>, token: Token, col: int, row: int) -> bool {
    ||| four_along(cells, token, col, row, 0, 1)
    ||| four_along(cells, token, col, row, 1, 0)
    ||| four_along(cells, token, col, row, 1, 1)
    ||| four_along(cells, token, col, row, 1, -1)
}

/// Somewhere on the board four cells in a line all hold `token`.
pub open spec fn has_four(cells: Seq<Seq<Token>>, token: Token) -> bool {
    exists|col: int, row: int| #[trigger] four_at(cells, token, col, row)
}

/// The common token of four equal tokens.
pub fn check_4(a: &Token, b: &Token, c: &Token, d: &Token) -> (found: Option<Token>)
    ensures
        found == four((*a, *b, *c, *d)),
{
    if *a == *b && *b == *c && *c == *d {
        Some(*a)
    } else {
        None
    }
}

/// Walks four runs of cells in lock step and reports the first position at
/// which all four hold the same token.
pub fn find_four(a: &[Token], b: &[Token], c: &[Token], d: &[Token]) -> (found: Option<Token>)
    ensures
        found == line_win(a@, b@, c@, d@),
{
    let rows = zip_rows(a, b, c, d);
    let mut i: usize = 0;
    while i < rows.len()
        invariant
            i <= rows.len(),
            rows@ == zipped(a@, b@, c@, d@),
            first_four(rows@, 0) == first_four(rows@, i as int),
        decreases rows.len() - i,
    {
        let (p, q, r, s) = rows[i];
        let hit = check_4(&p, &q, &r, &s);
        if hit.is_some() {
            return hit;
        }
        i += 1;
    }
    None
}

} // verus!

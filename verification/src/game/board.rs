//! The mathematical model of a game: what a move does to it, and how it reads
//! as text.

use vstd::prelude::*;
use super::{GameErr, GameState, Token};
use super::lines::{token_at, winner};

verus! {

/// A game as a value: its dimensions, its columns from left to right, each
/// from the bottom up, and where the game stands.
pub struct Board {
    pub state: GameState,
    pub width: nat,
    pub height: nat,
    pub cells: Seq<Seq<Token>>,
}

/// The glyph of a red token.
pub const RED_GLYPH: char = '🔴';

/// The glyph of a green token.
pub const GREEN_GLYPH: char = '🟢';

/// The glyph of a cell that holds no token.
pub const EMPTY_GLYPH: char = '⚪';

/// The glyph that stands for a cell.
pub open spec fn glyph_of(cell: Option<Token>) -> char {
    match cell {
        Some(Token::Red) => RED_GLYPH,
        Some(Token::Green) => GREEN_GLYPH,
        None => EMPTY_GLYPH,
    }
}

impl Board {
    /// The board of `width` empty columns on which play begins.
    pub open spec fn empty(width: nat, height: nat) -> Board {
        Board {
            state: GameState::Playing,
            width,
            height,
            cells: Seq::new(width, |c: int| Seq::<Token>::empty()),
        }
    }

    /// There are `width` columns, none of them is higher than `height`, and
    /// while the game is being played nobody has four in a row.
    pub open spec fn valid(self) -> bool {
        &&& self.cells.len() == self.width
        &&& forall|c: int| 0 <= c < self.cells.len() ==> (#[trigger] self.cells[c]).len() <= self.height
        &&& self.state == GameState::Playing ==> winner(self.cells) is None
    }

    /// Every column is filled to the top.
    pub open spec fn full(self) -> bool {
        forall|c: int| 0 <= c < self.cells.len() ==> (#[trigger] self.cells[c]).len() >= self.height
    }

    /// The token in column `col` at height `row`, if there is one.
    pub open spec fn cell(self, col: int, row: int) -> Option<Token> {
        token_at(self.cells, col, row)
    }

    /// Why a token cannot be dropped into column `x`, if it cannot: the state
    /// is looked at first, then the column's index, then its height.
    pub open spec fn refusal(self, x: int) -> Option<GameErr> {
        if self.state != GameState::Playing {
            Some(GameErr::InvalidState)
        } else if !(0 <= x < self.cells.len()) {
            Some(GameErr::InvalidCol)
        } else if self.cells[x].len() >= self.height {
            Some(GameErr::FullCol)
        } else {
            None
        }
    }

    /// Where a game with these cells stands: won by whoever has four in a
    /// row, else drawn if the board is full, else still being played.
    pub open spec fn outcome(self) -> GameState {
        match winner(self.cells) {
            Some(token) => GameState::Won(token),
            None => if self.full() {
                GameState::Draw
            } else {
                GameState::Playing
            },
        }
    }

    /// The cells after `token` has come to rest on top of column `x`.
    pub open spec fn dropped(self, token: Token, x: int) -> Board {
        Board { cells: self.cells.update(x, self.cells[x].push(token)), ..self }
    }

    /// The game after `token` has been dropped into column `x`: the token
    /// lies on top of that column and the state is the new board's outcome.
    pub open spec fn after_drop(self, token: Token, x: int) -> Board {
        let placed = self.dropped(token, x);
        Board { state: placed.outcome(), ..placed }
    }

    /// Row `row` as text: one glyph per column from left to right, then a
    /// line break.
    pub open spec fn row_text(self, row: int) -> Seq<char> {
        Seq::new(
            self.width + 1,
            |col: int|
                if col < self.width {
                    glyph_of(self.cell(col, row))
                } else {
                    '\n'
                },
        )
    }

    /// The lowest `rows` rows as text, the highest of them first.
    pub open spec fn text_below(self, rows: int) -> Seq<char>
        decreases rows,
    {
        if rows <= 0 {
            Seq::empty()
        } else {
            self.row_text(rows - 1) + self.text_below(rows - 1)
        }
    }

    /// The whole board as text, top row first.
    pub open spec fn text(self) -> Seq<char> {
        self.text_below(self.height as int)
    }
}

} // verus!

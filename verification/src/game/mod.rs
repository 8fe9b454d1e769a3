//! The game: its tokens, its board and the one move that changes it.

use vstd::prelude::*;
use vstd::slice::slice_subrange;
use vstd::string::StringExecFns;
use self::board::{glyph_of, Board};
use self::laws::{law_empty_board_has_no_winner, law_winner_made_the_move};
use self::lines::{dia_at, dia_from, find_four, hor_at, hor_from, ver_at, ver_from, winner};

pub mod board;
pub mod laws;
pub mod lines;
pub mod zip;

verus! {

/// A player's marker.
#[derive(Clone, Copy, Debug, PartialEq, Eq, Structural)]
pub enum Token {
    Red,
    Green,
}

/// Where a game stands. `Won` and `Draw` are final.
#[derive(Clone, Copy, Debug, PartialEq, Eq, Structural)]
pub enum GameState {
    Playing,
    Won(Token),
    Draw,
}

/// Why a move was refused.
#[derive(Clone, Copy, Debug, PartialEq, Eq, Structural)]
pub enum GameErr {
    /// The game is already won or drawn.
    InvalidState,
    /// The board has no column of that index.
    InvalidCol,
    /// The column holds as many tokens as the board is high.
    FullCol,
}

/// A game in progress or finished: a grid of columns that fill from the
/// bottom up, and the state the last move left it in.
pub struct Game {
    state: GameState,
    width: usize,
    height: usize,
    grid: Vec<Vec<Token>>,
}

/// The columns of a grid as sequences.
pub open spec fn cells_of(grid: Seq<Vec<Token>>) -> Seq<Seq<Token>> {
    Seq::new(grid.len(), |c: int| grid[c]@)
}

impl Token {
    /// The other player's token.
    pub open spec fn other(self) -> Token {
        match self {
            Token::Red => Token::Green,
            Token::Green => Token::Red,
        }
    }

    /// Hands the turn to the other player.
    pub fn toggle(&mut self)
        ensures
            *final(self) == old(self).other(),
    {
        match *self {
            Token::Red => *self = Token::Green,
            Token::Green => *self = Token::Red,
        }
    }

    /// The glyph that shows this token on a rendered board.
    pub fn glyph(&self) -> (text: &'static str)
        ensures
            text@ == seq![glyph_of(Some(*self))],
    {
        proof {
            reveal_strlit("🔴");
            reveal_strlit("🟢");
        }
        let text = match *self {
            Token::Red => "🔴",
            Token::Green => "🟢",
        };
        assert(text@ =~= seq![glyph_of(Some(*self))]);
        text
    }
}

impl View for Game {
    type V = Board;

    closed spec fn view(&self) -> Board {
        Board {
            state: self.state,
            width: self.width as nat,
            height: self.height as nat,
            cells: cells_of(self.grid@),
        }
    }
}

impl Game {
    /// The game's board is valid: it has `width` columns, none higher than
    /// `height`, and nobody has four in a row while the game is being
    /// played. `new` makes such a game and `play` keeps it so.
    pub open spec fn wf(&self) -> bool {
        self@.valid()
    }

    /// A game on an empty board of `width` columns and `height` rows.
    pub fn new(width: usize, height: usize) -> (game: Game)
        ensures
            game.wf(),
            game@ == Board::empty(width as nat, height as nat),
    {
        let mut grid: Vec<Vec<Token>> = Vec::new();
        while grid.len() < width
            invariant
                grid.len() <= width,
                forall|c: int| 0 <= c < grid.len() ==> (#[trigger] grid@[c])@ == Seq::<Token>::empty(),
            decreases width - grid.len(),
        {
            grid.push(Vec::new());
        }
        let game = Game { state: GameState::Playing, width, height, grid };
        proof {
            assert(game@.cells =~= Board::empty(width as nat, height as nat).cells);
            law_empty_board_has_no_winner(width as nat, height as nat);
        }
        game
    }

    /// Where the game stands.
    pub fn state(&self) -> (state: GameState)
        ensures
            state == self@.state,
    {
        self.state
    }

    /// The number of columns.
    pub fn width(&self) -> (width: usize)
        ensures
            width == self@.width,
    {
        self.width
    }

    /// The number of rows.
    pub fn height(&self) -> (height: usize)
        ensures
            height == self@.height,
    {
        self.height
    }

    /// The token in column `col` at height `row`, counted from the bottom, if
    /// there is one.
    pub fn cell(&self, col: usize, row: usize) -> (token: Option<Token>)
        ensures
            token == self@.cell(col as int, row as int),
    {
        if col < self.grid.len() && row < self.grid[col].len() {
            Some(self.grid[col][row])
        } else {
            None
        }
    }

    /// Drops `token` into column `x`.
    ///
    /// The move is refused, and the game left as it was, when the game is
    /// over, when there is no column `x`, or when that column is full, in
    /// this order. Otherwise the token comes to rest on top of the column and
    /// the game's new state is returned: won by the token that has four in a
    /// row, else drawn if the board is full, else still being played. In a
    /// valid game only the token that was dropped can win.
    pub fn play(&mut self, token: Token, x: usize) -> (res: Result<GameState, GameErr>)
        ensures
            old(self).wf() ==> final(self).wf(),
            old(self).wf() ==> match res {
                Ok(GameState::Won(won)) => won == token,
                _ => true,
            },
            match res {
                Ok(state) => {
                    &&& old(self)@.refusal(x as int) is None
                    &&& final(self)@ == old(self)@.after_drop(token, x as int)
                    &&& state == final(self)@.state
                },
                Err(err) => {
                    &&& old(self)@.refusal(x as int) == Some(err)
                    &&& final(self)@ == old(self)@
                },
            },
    {
        match self.state {
            GameState::Playing => {},
            _ => {
                return Err(GameErr::InvalidState);
            },
        }
        if x >= self.grid.len() {
            return Err(GameErr::InvalidCol);
        }
        if self.grid[x].len() >= self.height {
            return Err(GameErr::FullCol);
        }
        self.grid[x].push(token);
        proof {
            assert(self@.cells =~= old(self)@.dropped(token, x as int).cells);
        }
        let state = match self.check_win() {
            Some(token) => GameState::Won(token),
            None => if self.is_full() {
                GameState::Draw
            } else {
                GameState::Playing
            },
        };
        self.state = state;
        proof {
            if let GameState::Won(won) = state {
                if old(self).wf() {
                    law_winner_made_the_move(old(self)@, token, x as int, won);
                }
            }
        }
        Ok(state)
    }

    /// Whether every column is filled to the top.
    pub fn is_full(&self) -> (full: bool)
        ensures
            full == self@.full(),
    {
        let mut c: usize = 0;
        while c < self.grid.len()
            invariant
                c <= self.grid.len(),
                forall|k: int| 0 <= k < c ==> (#[trigger] self@.cells[k]).len() >= self.height,
            decreases self.grid.len() - c,
        {
            if self.grid[c].len() < self.height {
                assert(self@.cells[c as int].len() < self.height);
                return false;
            }
            c += 1;
        }
        true
    }

    /// Searches the whole board for four in a row: vertical lines first, then
    /// horizontal ones, then diagonals.
    pub fn check_win(&self) -> (found: Option<Token>)
        ensures
            found == winner(self@.cells),
    {
        let ghost cells = self@.cells;
        let width = self.grid.len();
        let mut x: usize = 0;
        while x < width
            invariant
                width == self.grid.len(),
                cells == self@.cells,
                x <= width,
                ver_from(cells, 0) == ver_from(cells, x as int),
            decreases width - x,
        {
            let hit = self.win_ver(x);
            if hit.is_some() {
                return hit;
            }
            x += 1;
        }
        if width < 4 {
            return None;
        }
        let groups = width - 3;
        let mut c: usize = 0;
        while c < groups
            invariant
                width == self.grid.len(),
                groups == width - 3,
                cells == self@.cells,
                c <= groups,
                ver_from(cells, 0) is None,
                hor_from(cells, 0) == hor_from(cells, c as int),
            decreases groups - c,
        {
            let hit = self.win_hor(c);
            if hit.is_some() {
                return hit;
            }
            c += 1;
        }
        let mut c: usize = 0;
        while c < groups
            invariant
                width == self.grid.len(),
                groups == width - 3,
                cells == self@.cells,
                c <= groups,
                ver_from(cells, 0) is None,
                hor_from(cells, 0) is None,
                dia_from(cells, 0) == dia_from(cells, c as int),
            decreases groups - c,
        {
            let hit = self.win_dia(c);
            if hit.is_some() {
                return hit;
            }
            c += 1;
        }
        None
    }

    /// Searches column `x` for four equal tokens on top of each other.
    pub fn win_ver(&self, x: usize) -> (found: Option<Token>)
        requires
            x < self@.cells.len(),
        ensures
            found == ver_at(self@.cells, x as int),
    {
        let col = self.grid[x].as_slice();
        let n = col.len();
        if n < 4 {
            None
        } else {
            find_four(
                col,
                slice_subrange(col, 1, n),
                slice_subrange(col, 2, n),
                slice_subrange(col, 3, n),
            )
        }
    }

    /// Searches the columns `c` to `c + 3` for four equal tokens in one row.
    pub fn win_hor(&self, c: usize) -> (found: Option<Token>)
        requires
            c + 4 <= self@.cells.len(),
        ensures
            found == hor_at(self@.cells, c as int),
    {
        assert(self@.cells.len() == self.grid.len());
        find_four(
            self.grid[c].as_slice(),
            self.grid[c + 1].as_slice(),
            self.grid[c + 2].as_slice(),
            self.grid[c + 3].as_slice(),
        )
    }

    /// Searches the columns `c` to `c + 3` for four equal tokens on a
    /// diagonal, the rising ones before the falling ones.
    pub fn win_dia(&self, c: usize) -> (found: Option<Token>)
        requires
            c + 4 <= self@.cells.len(),
        ensures
            found == dia_at(self@.cells, c as int),
    {
        assert(self@.cells.len() == self.grid.len());
        let c0 = self.grid[c].as_slice();
        let c1 = self.grid[c + 1].as_slice();
        let c2 = self.grid[c + 2].as_slice();
        let c3 = self.grid[c + 3].as_slice();
        let (n0, n1, n2, n3) = (c0.len(), c1.len(), c2.len(), c3.len());
        let rising = if n0 >= 1 && n1 >= 2 && n2 >= 3 && n3 >= 4 {
            find_four(
                c0,
                slice_subrange(c1, 1, n1),
                slice_subrange(c2, 2, n2),
                slice_subrange(c3, 3, n3),
            )
        } else {
            None
        };
        if rising.is_some() {
            return rising;
        }
        if n0 >= 4 && n1 >= 3 && n2 >= 2 && n3 >= 1 {
            find_four(
                slice_subrange(c0, 3, n0),
                slice_subrange(c1, 2, n1),
                slice_subrange(c2, 1, n2),
                c3,
            )
        } else {
            None
        }
    }

    /// The board as text: one line per row, the top row first, and in each
    /// line one glyph per column from left to right.
    pub fn render(&self) -> (text: String)
        ensures
            text@ == self@.text(),
    {
        let mut text = String::new();
        let mut row = self.height;
        while row > 0
            invariant
                row <= self.height,
                text@ + self@.text_below(row as int) == self@.text(),
            decreases row,
        {
            row -= 1;
            let ghost done = text@;
            let ghost line = self@.row_text(row as int);
            let mut col: usize = 0;
            while col < self.width
                invariant
                    col <= self.width,
                    line == self@.row_text(row as int),
                    text@ == done + line.take(col as int),
                decreases self.width - col,
            {
                let glyph = match self.cell(col, row) {
                    Some(token) => token.glyph(),
                    None => "⚪",
                };
                proof {
                    reveal_strlit("⚪");
                    assert(glyph@ =~= seq![line[col as int]]);
                    assert(line.take(col + 1) =~= line.take(col as int) + glyph@);
                }
                text.append(glyph);
                col += 1;
            }
            text.append("\n");
            proof {
                reveal_strlit("\n");
                assert("\n"@ =~= seq![line[self.width as int]]);
                assert(text@ =~= done + line);
                assert(done + line + self@.text_below(row as int) =~= done + (line
                    + self@.text_below(row as int)));
            }
        }
        text
    }
}

} // verus!

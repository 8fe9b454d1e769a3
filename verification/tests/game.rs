use connect_four::game::lines::{check_4, find_four};
use connect_four::game::{Game, GameErr, GameState, Token};

const EMPTY_ROW: &str = "⚪⚪⚪⚪⚪⚪⚪\n";

fn drop_all(game: &mut Game, moves: &[(Token, usize)]) {
    for (token, x) in moves {
        assert_eq!(game.play(*token, *x), Ok(GameState::Playing));
    }
}

fn pattern(col: usize, row: usize) -> Token {
    if (col + row / 2) % 2 == 0 {
        Token::Red
    } else {
        Token::Green
    }
}

#[test]
fn toggle_flips_the_token() {
    let mut token = Token::Green;
    token.toggle();
    assert_eq!(token, Token::Red);
    token.toggle();
    assert_eq!(token, Token::Green);
}

#[test]
fn new_game_is_empty_and_playing() {
    let game = Game::new(7, 6);
    assert_eq!(game.state(), GameState::Playing);
    assert_eq!(game.width(), 7);
    assert_eq!(game.height(), 6);
    for col in 0..7 {
        for row in 0..6 {
            assert_eq!(game.cell(col, row), None);
        }
    }
    assert!(!game.is_full());
    assert_eq!(game.check_win(), None);
}

#[test]
fn token_lands_on_top_of_its_column() {
    let mut game = Game::new(7, 6);
    assert_eq!(game.play(Token::Red, 2), Ok(GameState::Playing));
    assert_eq!(game.play(Token::Green, 2), Ok(GameState::Playing));
    assert_eq!(game.cell(2, 0), Some(Token::Red));
    assert_eq!(game.cell(2, 1), Some(Token::Green));
    assert_eq!(game.cell(2, 2), None);
    assert_eq!(game.cell(1, 0), None);
    assert_eq!(game.cell(7, 0), None);
}

#[test]
fn vertical_win_on_fourth_drop() {
    let mut game = Game::new(7, 6);
    for _ in 0..3 {
        assert_eq!(game.play(Token::Red, 0), Ok(GameState::Playing));
    }
    assert_eq!(game.play(Token::Red, 0), Ok(GameState::Won(Token::Red)));
    assert_eq!(game.state(), GameState::Won(Token::Red));
}

#[test]
fn vertical_win_above_other_tokens() {
    let mut game = Game::new(7, 6);
    drop_all(
        &mut game,
        &[
            (Token::Red, 3),
            (Token::Green, 3),
            (Token::Green, 4),
            (Token::Green, 3),
            (Token::Green, 3),
        ],
    );
    assert_eq!(game.win_ver(3), None);
    assert_eq!(game.play(Token::Green, 3), Ok(GameState::Won(Token::Green)));
    assert_eq!(game.win_ver(3), Some(Token::Green));
    assert_eq!(game.win_ver(4), None);
}

#[test]
fn three_in_a_column_interrupted_is_no_win() {
    let mut game = Game::new(7, 6);
    drop_all(
        &mut game,
        &[(Token::Red, 0), (Token::Red, 0), (Token::Red, 0), (Token::Green, 0), (Token::Red, 0)],
    );
    assert_eq!(game.state(), GameState::Playing);
}

#[test]
fn horizontal_win_on_bottom_row() {
    let mut game = Game::new(7, 6);
    drop_all(&mut game, &[(Token::Green, 0), (Token::Green, 1), (Token::Green, 2)]);
    assert_eq!(game.play(Token::Green, 3), Ok(GameState::Won(Token::Green)));
    assert_eq!(game.win_hor(0), Some(Token::Green));
    assert_eq!(game.win_hor(1), None);
}

#[test]
fn horizontal_win_completed_in_the_middle() {
    let mut game = Game::new(7, 6);
    drop_all(
        &mut game,
        &[
            (Token::Green, 3),
            (Token::Red, 4),
            (Token::Red, 6),
            (Token::Red, 3),
            (Token::Red, 4),
            (Token::Red, 6),
        ],
    );
    assert_eq!(game.play(Token::Green, 5), Ok(GameState::Playing));
    assert_eq!(game.play(Token::Red, 5), Ok(GameState::Won(Token::Red)));
}

#[test]
fn horizontal_three_is_no_win() {
    let mut game = Game::new(7, 6);
    drop_all(
        &mut game,
        &[(Token::Red, 0), (Token::Red, 1), (Token::Red, 2), (Token::Green, 3), (Token::Red, 4)],
    );
    assert_eq!(game.state(), GameState::Playing);
    assert_eq!(game.check_win(), None);
}

#[test]
fn rising_diagonal_win() {
    let mut game = Game::new(7, 6);
    drop_all(
        &mut game,
        &[
            (Token::Red, 0),
            (Token::Green, 1),
            (Token::Red, 1),
            (Token::Green, 2),
            (Token::Green, 2),
            (Token::Red, 2),
            (Token::Green, 3),
            (Token::Green, 3),
            (Token::Green, 3),
        ],
    );
    assert_eq!(game.win_dia(0), None);
    assert_eq!(game.play(Token::Red, 3), Ok(GameState::Won(Token::Red)));
    assert_eq!(game.win_dia(0), Some(Token::Red));
}

#[test]
fn rising_diagonal_win_completed_out_of_order() {
    let mut game = Game::new(7, 6);
    drop_all(
        &mut game,
        &[
            (Token::Green, 3),
            (Token::Green, 3),
            (Token::Green, 3),
            (Token::Red, 3),
            (Token::Green, 2),
            (Token::Green, 2),
            (Token::Red, 2),
            (Token::Red, 0),
            (Token::Green, 1),
        ],
    );
    assert_eq!(game.play(Token::Red, 1), Ok(GameState::Won(Token::Red)));
}

#[test]
fn falling_diagonal_win() {
    let mut game = Game::new(7, 6);
    drop_all(
        &mut game,
        &[
            (Token::Green, 6),
            (Token::Red, 5),
            (Token::Green, 5),
            (Token::Red, 4),
            (Token::Red, 4),
            (Token::Green, 4),
            (Token::Red, 3),
            (Token::Red, 3),
            (Token::Red, 3),
        ],
    );
    assert_eq!(game.play(Token::Green, 3), Ok(GameState::Won(Token::Green)));
    assert_eq!(game.win_dia(3), Some(Token::Green));
    assert_eq!(game.win_dia(2), None);
}

#[test]
fn draw_when_last_column_fills_without_four() {
    let mut game = Game::new(7, 6);
    for col in 0..7 {
        for row in 0..6 {
            let expected = if col == 6 && row == 5 { GameState::Draw } else { GameState::Playing };
            assert_eq!(game.play(pattern(col, row), col), Ok(expected));
        }
    }
    assert_eq!(game.state(), GameState::Draw);
    assert!(game.is_full());
    assert_eq!(game.play(Token::Red, 0), Err(GameErr::InvalidState));
}

#[test]
fn draw_on_a_board_too_small_for_four() {
    let mut game = Game::new(1, 3);
    drop_all(&mut game, &[(Token::Red, 0), (Token::Red, 0)]);
    assert_eq!(game.play(Token::Red, 0), Ok(GameState::Draw));
}

#[test]
fn win_on_the_move_that_fills_the_board() {
    let mut game = Game::new(1, 4);
    drop_all(&mut game, &[(Token::Red, 0), (Token::Red, 0), (Token::Red, 0)]);
    assert_eq!(game.play(Token::Red, 0), Ok(GameState::Won(Token::Red)));
}

#[test]
fn full_column_is_refused_and_left_alone() {
    let mut game = Game::new(7, 6);
    for row in 0..6 {
        assert_eq!(game.play(pattern(0, row), 0), Ok(GameState::Playing));
    }
    let before = game.render();
    assert_eq!(game.play(Token::Red, 0), Err(GameErr::FullCol));
    assert_eq!(game.play(Token::Green, 0), Err(GameErr::FullCol));
    assert_eq!(game.render(), before);
    assert_eq!(game.cell(0, 5), Some(pattern(0, 5)));
    assert_eq!(game.cell(0, 6), None);
    assert_eq!(game.state(), GameState::Playing);
    assert_eq!(game.play(Token::Red, 1), Ok(GameState::Playing));
}

#[test]
fn missing_column_is_refused_and_state_kept() {
    let mut game = Game::new(7, 6);
    drop_all(&mut game, &[(Token::Red, 6)]);
    let before = game.render();
    assert_eq!(game.play(Token::Green, 7), Err(GameErr::InvalidCol));
    assert_eq!(game.play(Token::Green, usize::MAX), Err(GameErr::InvalidCol));
    assert_eq!(game.render(), before);
    assert_eq!(game.state(), GameState::Playing);
}

#[test]
fn finished_game_refuses_every_move() {
    let mut game = Game::new(7, 6);
    for _ in 0..3 {
        assert_eq!(game.play(Token::Green, 2), Ok(GameState::Playing));
    }
    assert_eq!(game.play(Token::Green, 2), Ok(GameState::Won(Token::Green)));
    let before = game.render();
    assert_eq!(game.play(Token::Red, 0), Err(GameErr::InvalidState));
    assert_eq!(game.play(Token::Red, 2), Err(GameErr::InvalidState));
    assert_eq!(game.play(Token::Red, 99), Err(GameErr::InvalidState));
    assert_eq!(game.render(), before);
    assert_eq!(game.state(), GameState::Won(Token::Green));
    assert_eq!(game.cell(0, 0), None);
}

#[test]
fn board_without_columns_or_rows() {
    let mut no_columns = Game::new(0, 6);
    assert_eq!(no_columns.play(Token::Red, 0), Err(GameErr::InvalidCol));
    assert_eq!(no_columns.render(), "\n\n\n\n\n\n");
    let mut no_rows = Game::new(7, 0);
    assert_eq!(no_rows.play(Token::Red, 0), Err(GameErr::FullCol));
    assert_eq!(no_rows.render(), "");
}

#[test]
fn empty_board_renders_empty_rows() {
    let game = Game::new(7, 6);
    assert_eq!(game.render(), EMPTY_ROW.repeat(6));
}

#[test]
fn first_token_shows_in_bottom_left() {
    let mut game = Game::new(7, 6);
    drop_all(&mut game, &[(Token::Red, 0)]);
    let expected = format!("{}🔴⚪⚪⚪⚪⚪⚪\n", EMPTY_ROW.repeat(5));
    assert_eq!(game.render(), expected);
}

#[test]
fn render_shows_rows_top_first_and_columns_left_to_right() {
    let mut game = Game::new(3, 2);
    drop_all(&mut game, &[(Token::Red, 2), (Token::Green, 2), (Token::Green, 0)]);
    assert_eq!(game.render(), "⚪⚪🟢\n🟢⚪🔴\n");
}

#[test]
fn rendering_twice_gives_the_same_text() {
    let mut game = Game::new(7, 6);
    drop_all(&mut game, &[(Token::Red, 1), (Token::Green, 4), (Token::Red, 4)]);
    let first = game.render();
    let second = game.render();
    assert_eq!(first, second);
    assert_eq!(game.state(), game.state());
    assert_eq!(game.cell(4, 1), game.cell(4, 1));
}

#[test]
fn token_glyphs() {
    assert_eq!(Token::Red.glyph(), "🔴");
    assert_eq!(Token::Green.glyph(), "🟢");
}

#[test]
fn check_4_wants_all_four_equal() {
    let (r, g) = (Token::Red, Token::Green);
    assert_eq!(check_4(&r, &r, &r, &r), Some(Token::Red));
    assert_eq!(check_4(&g, &g, &g, &g), Some(Token::Green));
    assert_eq!(check_4(&r, &r, &r, &g), None);
    assert_eq!(check_4(&g, &r, &r, &r), None);
    assert_eq!(check_4(&r, &g, &r, &r), None);
}

#[test]
fn find_four_walks_in_lock_step() {
    let (r, g) = (Token::Red, Token::Green);
    assert_eq!(find_four(&[r, g, g], &[g, g], &[r, g, r], &[r, g, r, r]), Some(Token::Green));
    assert_eq!(find_four(&[g, r], &[g, r], &[g, r], &[g, r]), Some(Token::Green));
    assert_eq!(find_four(&[r, g, g], &[g], &[r, g, r], &[r, g, r, r]), None);
    assert_eq!(find_four(&[r], &[r], &[r], &[]), None);
    assert_eq!(find_four(&[r, r], &[r, g], &[g, r], &[r, r]), None);
}

use chip8::{
    GameStatus, Grid, GridData, HumanPlayer, MiniMaxAI, MouseEvent, PlayerProps, PlayerType,
    Symbol, Timer,
};

fn grid_with(size: usize, win: u32, moves: &[(usize, usize, Symbol)]) -> Grid {
    let mut g = Grid::new(size, win);
    for (x, y, s) in moves {
        g.set_symbol(*x, *y, *s);
    }
    g
}

#[test]
fn new_grid_is_empty_and_unfinished() {
    let g = Grid::new(3, 3);
    assert_eq!(g.grid_size(), 3);
    for x in 0..3 {
        for y in 0..3 {
            assert!(g.is_empty(x, y));
        }
    }
    // The last move defaults to (0, 0), which holds `Empty`: every window
    // of empty cells then counts as a run of `Empty`.
    assert_eq!(g.get_winner().0, GameStatus::Winner(Symbol::Empty));
    let g = grid_with(3, 3, &[(1, 1, Symbol::X)]);
    let (status, cells) = g.get_winner();
    assert_eq!(status, GameStatus::NotFinished);
    assert!(cells.is_none());
}

#[test]
fn cells_off_the_grid_read_empty() {
    let g = grid_with(3, 3, &[(2, 2, Symbol::X)]);
    assert_eq!(g.get_symbol(2, 2), Symbol::X);
    assert_eq!(g.get_symbol(3, 0), Symbol::Empty);
    assert_eq!(g.get_symbol(0, 7), Symbol::Empty);
}

#[test]
fn line_win() {
    let g = grid_with(3, 3, &[(0, 0, Symbol::X), (1, 0, Symbol::X), (2, 0, Symbol::X)]);
    assert_eq!(g.check_line(), Some(vec![(0, 0), (1, 0), (2, 0)]));
    assert_eq!(g.check_cols(), None);
    assert_eq!(g.check_diag(), None);
    assert_eq!(g.check_diag_rev(), None);
    let (status, cells) = g.get_winner();
    assert_eq!(status, GameStatus::Winner(Symbol::X));
    assert_eq!(cells, Some(vec![(0, 0), (1, 0), (2, 0)]));
}

#[test]
fn column_win() {
    let g = grid_with(3, 3, &[(1, 0, Symbol::O), (1, 1, Symbol::O), (1, 2, Symbol::O)]);
    assert_eq!(g.check_cols(), Some(vec![(1, 0), (1, 1), (1, 2)]));
    assert_eq!(g.get_winner().0, GameStatus::Winner(Symbol::O));
}

#[test]
fn diagonal_wins() {
    let g = grid_with(3, 3, &[(0, 0, Symbol::X), (1, 1, Symbol::X), (2, 2, Symbol::X)]);
    assert_eq!(g.check_diag(), Some(vec![(0, 0), (1, 1), (2, 2)]));
    assert_eq!(g.get_winner().0, GameStatus::Winner(Symbol::X));
    let g = grid_with(3, 3, &[(2, 0, Symbol::O), (1, 1, Symbol::O), (0, 2, Symbol::O)]);
    assert_eq!(g.check_diag_rev(), Some(vec![(2, 0), (1, 1), (0, 2)]));
    assert_eq!(g.get_winner().0, GameStatus::Winner(Symbol::O));
}

#[test]
fn short_runs_on_a_larger_grid() {
    let g = grid_with(5, 3, &[(1, 3, Symbol::X), (2, 3, Symbol::X), (3, 3, Symbol::X)]);
    assert_eq!(g.check_line(), Some(vec![(1, 3), (2, 3), (3, 3)]));
    let g = grid_with(5, 4, &[(1, 3, Symbol::X), (2, 3, Symbol::X), (3, 3, Symbol::X)]);
    assert_eq!(g.check_line(), None);
    assert_eq!(g.get_winner().0, GameStatus::NotFinished);
}

#[test]
fn full_grid_without_run_is_a_draw() {
    let g = grid_with(
        3,
        3,
        &[
            (0, 0, Symbol::X),
            (0, 1, Symbol::O),
            (0, 2, Symbol::X),
            (1, 0, Symbol::X),
            (1, 1, Symbol::O),
            (1, 2, Symbol::O),
            (2, 0, Symbol::O),
            (2, 1, Symbol::X),
            (2, 2, Symbol::X),
        ],
    );
    assert_eq!(g.get_winner(), (GameStatus::Draw, None));
}

#[test]
fn clearing_a_cell() {
    let mut g = grid_with(3, 3, &[(1, 1, Symbol::X)]);
    g.clear_cell(1, 1);
    assert!(g.is_empty(1, 1));
}

#[test]
fn ai_takes_the_winning_cell() {
    let mut g = grid_with(
        3,
        3,
        &[(0, 0, Symbol::X), (2, 0, Symbol::O), (0, 1, Symbol::X), (2, 1, Symbol::O)],
    );
    let mut ai = MiniMaxAI::new();
    ai.set_symbol(Symbol::O);
    assert_eq!(ai.get_best_move(&mut g), (2, 2));
    // The search leaves the cells as they were.
    assert!(g.is_empty(2, 2));
    assert_eq!(g.get_symbol(2, 0), Symbol::O);
}

#[test]
fn ai_plays_only_when_allowed() {
    let mut g = Grid::new(3, 3);
    let mut ai = MiniMaxAI::new();
    ai.set_symbol(Symbol::X);
    assert!(!ai.play(&mut g));
    assert!(g.is_empty(0, 0) && g.is_empty(1, 1) && g.is_empty(2, 2));
    ai.allow();
    assert!(ai.play(&mut g));
    let mut placed = 0;
    for x in 0..3 {
        for y in 0..3 {
            if g.get_symbol(x, y) == Symbol::X {
                placed += 1;
            }
        }
    }
    assert_eq!(placed, 1);
    ai.forbid();
    assert!(!ai.play(&mut g));
}

#[test]
fn ai_move_on_full_grid_is_origin() {
    let mut g = grid_with(1, 1, &[(0, 0, Symbol::X)]);
    let mut ai = MiniMaxAI::new();
    ai.set_symbol(Symbol::O);
    assert_eq!(ai.get_best_move(&mut g), (0, 0));
}

#[test]
fn human_player_clicks() {
    let mut h = HumanPlayer::new();
    assert_eq!(h.click(), None);
    h.on_event(MouseEvent::ButtonReleased { left: true, x: 5, y: 6 });
    assert_eq!(h.click(), None);
    h.allow();
    assert_eq!(h.click(), Some((5, 6)));
    h.on_event(MouseEvent::ButtonReleased { left: false, x: 9, y: 9 });
    assert_eq!(h.click(), Some((5, 6)));
    h.on_event(MouseEvent::Other);
    assert_eq!(h.click(), None);
    h.on_event(MouseEvent::ButtonReleased { left: true, x: 1, y: 2 });
    h.set_symbol(Symbol::O);
    assert_eq!(h.click(), Some((1, 2)));
    h.forbid();
    assert_eq!(h.click(), None);
}

#[test]
fn player_names_and_defaults() {
    assert_eq!(PlayerType::Human.name(), "Human");
    assert_eq!(PlayerType::AI.name(), "AI");
    let p = PlayerProps::new();
    assert!(!p.can_play);
    assert_eq!(p.symbol, Symbol::Empty);
    let d = GridData { grid_size: 3, sym_occs_win: 3 };
    assert_eq!(Grid::new(d.grid_size, d.sym_occs_win).grid_size(), 3);
}

#[test]
fn timer_measures_and_restarts() {
    let mut t = Timer::new();
    let first = t.elapsed();
    let second = t.elapsed();
    assert!(second >= first);
    let before = t.restart();
    assert!(before >= first);
    assert!(t.elapsed() <= before + t.elapsed());
}

use space_invaders::{
    Alien, FallingStar, GameError, GameState, Player, Projectile, TermSize,
};

fn sized(rows: u16, cols: u16) -> GameState {
    let mut state = GameState::new();
    assert_eq!(state.evaluate_state(Some(TermSize { rows, cols })), Ok(()));
    state
}

#[test]
fn new_state_is_empty() {
    let state = GameState::new();
    assert_eq!(state.size(), TermSize { rows: 0, cols: 0 });
    assert!(state.falling_stars().is_empty());
    assert_eq!(GameState::new().enemies(), Vec::<Alien>::new());
    assert_eq!(GameState::new().projectiles(), Vec::<Projectile>::new());
    assert_eq!(GameState::new().player(), Player { pos: 0 });
}

#[test]
fn evaluate_state_rejects_small_terminals() {
    let mut state = GameState::new();
    assert_eq!(
        state.evaluate_state(Some(TermSize { rows: 7, cols: 100 })),
        Err(GameError::TerminalTooSmall)
    );
    assert_eq!(
        state.evaluate_state(Some(TermSize { rows: 100, cols: 7 })),
        Err(GameError::TerminalTooSmall)
    );
    assert_eq!(state.size(), TermSize { rows: 0, cols: 0 });
    assert_eq!(state.evaluate_state(Some(TermSize { rows: 8, cols: 8 })), Ok(()));
    assert_eq!(state.size(), TermSize { rows: 8, cols: 8 });
}

#[test]
fn evaluate_state_reports_failed_query() {
    let mut state = sized(20, 30);
    assert_eq!(state.evaluate_state(None), Err(GameError::TerminalQueryFailed));
    assert_eq!(state.size(), TermSize { rows: 20, cols: 30 });
}

#[test]
fn evaluate_state_keeps_size_on_error() {
    let mut state = sized(20, 30);
    assert_eq!(
        state.evaluate_state(Some(TermSize { rows: 3, cols: 3 })),
        Err(GameError::TerminalTooSmall)
    );
    assert_eq!(state.size(), TermSize { rows: 20, cols: 30 });
    assert_eq!(state.evaluate_state(Some(TermSize { rows: 9, cols: 40 })), Ok(()));
    assert_eq!(state.size(), TermSize { rows: 9, cols: 40 });
}

#[test]
fn spawn_gives_distinct_columns() {
    for _ in 0..50 {
        let mut state = sized(8, 8);
        state.spawn_falling_stars(4);
        let stars = state.falling_stars();
        assert_eq!(stars.len(), 4);
        for (i, a) in stars.iter().enumerate() {
            assert_eq!(a.pos, 0);
            assert_eq!(a.entity, '*');
            assert!(a.col >= 1 && a.col < 8);
            for b in &stars[i + 1..] {
                assert_ne!(a.col, b.col);
            }
        }
    }
}

#[test]
fn spawn_stops_when_columns_run_out() {
    let mut state = sized(8, 8);
    state.spawn_falling_stars(4);
    state.spawn_falling_stars(10);
    let stars = state.falling_stars();
    assert_eq!(stars.len(), 7);
    let mut cols: Vec<u16> = stars.iter().map(|s| s.col).collect();
    cols.sort();
    assert_eq!(cols, vec![1, 2, 3, 4, 5, 6, 7]);
}

#[test]
fn spawn_avoids_existing_columns() {
    let mut state = sized(8, 9);
    for col in [1u16, 2, 3, 4, 5, 6] {
        state.add_falling_star(FallingStar { pos: 4, col, entity: '.' });
    }
    state.spawn_falling_stars(3);
    let stars = state.falling_stars();
    assert_eq!(stars.len(), 8);
    let mut new_cols: Vec<u16> = stars[6..].iter().map(|s| s.col).collect();
    new_cols.sort();
    assert_eq!(new_cols, vec![7, 8]);
}

#[test]
fn center_player_halves_rows() {
    let mut state = sized(13, 40);
    state.center_player();
    assert_eq!(state.player(), Player { pos: 6 });
    let mut state = sized(12, 40);
    state.center_player();
    assert_eq!(state.player(), Player { pos: 6 });
}

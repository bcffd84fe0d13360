use arcade::life::{next_cell_state, Game, LifeKey, Population, MAX_INTERVAL, MIN_INTERVAL};
use arcade::InvalidViewport;

fn board(cols: usize, rows: usize, alive: &[(usize, usize)]) -> Population {
    let mut p = Population::new(cols, rows);
    for &(x, y) in alive {
        p.switch(y, x);
    }
    p
}

fn alive_cells(p: &Population) -> Vec<(usize, usize)> {
    let mut out = Vec::new();
    for y in 0..p.rows {
        for x in 0..p.cols {
            if p.current_generation[y][x] {
                out.push((x, y));
            }
        }
    }
    out.sort();
    out
}

fn sorted(mut v: Vec<(usize, usize)>) -> Vec<(usize, usize)> {
    v.sort();
    v
}

#[test]
fn rule_table() {
    for n in 0..=8u8 {
        let stays = next_cell_state(true, n);
        let born = next_cell_state(false, n);
        assert_eq!(stays, n == 2 || n == 3, "alive with {} neighbors", n);
        assert_eq!(born, n == 3, "dead with {} neighbors", n);
    }
}

#[test]
fn isolated_cell_dies() {
    let mut p = board(5, 5, &[(2, 2)]);
    assert_eq!(p.count_live_neighbors(2, 2), 0);
    p.get_next_gen();
    assert!(alive_cells(&p).is_empty());
}

#[test]
fn neighbors_at_the_edge_are_clipped() {
    let p = board(3, 3, &[(0, 0), (1, 0), (0, 1), (1, 1), (2, 2)]);
    assert_eq!(p.count_live_neighbors(0, 0), 3);
    assert_eq!(p.count_live_neighbors(1, 1), 4);
    assert_eq!(p.count_live_neighbors(2, 2), 1);
    assert_eq!(p.count_live_neighbors(0, 2), 2);
}

#[test]
fn overpopulated_cell_dies() {
    let mut p = board(3, 3, &[(1, 1), (0, 0), (2, 0), (0, 2), (2, 2)]);
    p.get_next_gen();
    assert!(!p.current_generation[1][1]);
}

#[test]
fn block_is_still_life() {
    let cells = vec![(1, 1), (2, 1), (1, 2), (2, 2)];
    let mut p = board(4, 4, &cells);
    p.get_next_gen();
    assert_eq!(alive_cells(&p), sorted(cells.clone()));
    p.get_next_gen();
    assert_eq!(alive_cells(&p), sorted(cells));
}

#[test]
fn block_in_corner_is_still_life() {
    let cells = vec![(0, 0), (1, 0), (0, 1), (1, 1)];
    let mut p = board(6, 4, &cells);
    p.get_next_gen();
    assert_eq!(alive_cells(&p), sorted(cells));
}

#[test]
fn blinker_oscillates() {
    let horizontal = vec![(1, 2), (2, 2), (3, 2)];
    let vertical = vec![(2, 1), (2, 2), (2, 3)];
    let mut p = board(5, 5, &horizontal);
    p.get_next_gen();
    assert_eq!(alive_cells(&p), sorted(vertical));
    p.get_next_gen();
    assert_eq!(alive_cells(&p), sorted(horizontal));
}

#[test]
fn glider_moves_diagonally() {
    let glider = vec![(1, 0), (2, 1), (0, 2), (1, 2), (2, 2)];
    let mut p = board(5, 5, &glider);
    for _ in 0..4 {
        p.get_next_gen();
    }
    let moved: Vec<(usize, usize)> = glider.iter().map(|&(x, y)| (x + 1, y + 1)).collect();
    assert_eq!(alive_cells(&p), sorted(moved));
}

#[test]
fn history_keeps_two_generations() {
    let horizontal = vec![(1, 2), (2, 2), (3, 2)];
    let mut p = board(5, 5, &horizontal);
    let first = p.current_generation.clone();
    p.get_next_gen();
    assert_eq!(p.dying_generation, first);
    assert!(p.ghost_generation.iter().all(|row| row.iter().all(|c| !c)));
    let second = p.current_generation.clone();
    p.get_next_gen();
    assert_eq!(p.dying_generation, second);
    assert_eq!(p.ghost_generation, first);
}

#[test]
fn life_empty_viewport_is_refused() {
    assert!(matches!(Game::new(0, 10), Err(InvalidViewport)));
    assert!(matches!(Game::new(10, 0), Err(InvalidViewport)));
    assert!(Game::new(1, 1).is_ok());
}

#[test]
fn new_game_is_paused_and_centered() {
    let g = Game::new(9, 6).unwrap();
    assert!(g.paused);
    assert_eq!(g.running_time, 0);
    assert_eq!((g.cursor.col, g.cursor.row), (4, 3));
    assert_eq!(g.population.rows, 6);
    assert_eq!(g.population.cols, 9);
    assert!(alive_cells(&g.population).is_empty());
}

#[test]
fn cursor_stays_on_the_board() {
    let mut g = Game::new(3, 2).unwrap();
    for _ in 0..5 {
        g.handle_key(LifeKey::Right);
        g.handle_key(LifeKey::Up);
    }
    assert_eq!((g.cursor.col, g.cursor.row), (2, 1));
    for _ in 0..5 {
        g.handle_key(LifeKey::Left);
        g.handle_key(LifeKey::Down);
    }
    assert_eq!((g.cursor.col, g.cursor.row), (0, 0));
    g.move_cursor(7, 7);
    assert_eq!((g.cursor.col, g.cursor.row), (2, 1));
}

#[test]
fn toggle_cell_leaves_history() {
    let mut g = Game::new(5, 5).unwrap();
    g.handle_key(LifeKey::ToggleCell);
    assert_eq!(alive_cells(&g.population), vec![(2, 2)]);
    g.handle_key(LifeKey::ToggleCell);
    assert!(alive_cells(&g.population).is_empty());
    assert!(g.population.dying_generation.iter().all(|row| row.iter().all(|c| !c)));
}

#[test]
fn paused_game_does_not_tick_but_single_steps() {
    let mut g = Game::new(5, 5).unwrap();
    g.population = board(5, 5, &[(1, 2), (2, 2), (3, 2)]);
    g.tick();
    assert_eq!(alive_cells(&g.population), vec![(1, 2), (2, 2), (3, 2)]);
    assert_eq!(g.running_time, 0);
    g.handle_key(LifeKey::SingleStep);
    assert_eq!(alive_cells(&g.population), vec![(2, 1), (2, 2), (2, 3)]);
}

#[test]
fn running_game_ticks_and_counts_time() {
    let mut g = Game::new(5, 5).unwrap();
    g.population = board(5, 5, &[(1, 2), (2, 2), (3, 2)]);
    assert!(!g.handle_key(LifeKey::TogglePause));
    assert!(!g.paused);
    g.tick();
    assert_eq!(alive_cells(&g.population), vec![(2, 1), (2, 2), (2, 3)]);
    assert_eq!(g.running_time, 400);
    g.handle_key(LifeKey::SingleStep);
    assert_eq!(alive_cells(&g.population), vec![(2, 1), (2, 2), (2, 3)]);
}

#[test]
fn clear_kills_pauses_and_resets_timer() {
    let mut g = Game::new(5, 5).unwrap();
    g.population = board(5, 5, &[(1, 2), (2, 2), (3, 2)]);
    g.handle_key(LifeKey::TogglePause);
    g.tick();
    g.handle_key(LifeKey::Clear);
    assert!(g.paused);
    assert_eq!(g.running_time, 0);
    assert!(alive_cells(&g.population).is_empty());
    assert!(g.population.dying_generation.iter().all(|row| row.iter().all(|c| !c)));
    assert!(g.population.ghost_generation.iter().all(|row| row.iter().all(|c| !c)));
}

#[test]
fn interval_is_bounded() {
    let mut g = Game::new(5, 5).unwrap();
    for _ in 0..100 {
        g.handle_key(LifeKey::LongerInterval);
    }
    assert_eq!(g.frame_rate, MAX_INTERVAL);
    for _ in 0..100 {
        g.handle_key(LifeKey::ShorterInterval);
    }
    assert_eq!(g.frame_rate, MIN_INTERVAL);
}

#[test]
fn quit_and_history_keys() {
    let mut g = Game::new(5, 5).unwrap();
    assert!(g.handle_key(LifeKey::Quit));
    assert!(!g.handle_key(LifeKey::ToggleHistory));
    assert!(g.show_history);
}

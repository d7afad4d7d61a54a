use gravity_worm::game::{Game, GameError};

fn back(t: &std::collections::VecDeque<i32>) -> i32 {
    *t.back().unwrap()
}

fn front(t: &std::collections::VecDeque<i32>) -> i32 {
    *t.front().unwrap()
}

#[test]
fn boundary_small_screen() {
    let g = Game::with_size(8, 3).unwrap();
    assert_eq!(g.worm_len(), 2);
    assert_eq!(g.worm_track().len(), 2);
    assert_eq!(g.near_wall().len(), 2);
    assert_eq!(g.far_wall().len(), 1);
    assert!(g.near_wall().iter().all(|&c| c == 1));
    assert!(g.far_wall().iter().all(|&c| c == 1));
    assert!(g.worm_track().iter().all(|&w| w == 2));
    assert_eq!(g.gap(), 7);
    assert!(!g.cave_incr());
    assert!(!g.worm_decr());
    assert_eq!(g.score(), 0);
    assert!(g.worm_alive());
}

#[test]
fn construction_formulas() {
    let g = Game::with_size(100, 50).unwrap();
    assert_eq!(g.worm_len(), 26);
    assert_eq!(g.worm_track().len(), 26);
    assert_eq!(g.near_wall().len(), 26);
    assert_eq!(g.far_wall().len(), 24);
    assert_eq!(back(g.near_wall()), 12);
    assert_eq!(back(g.far_wall()), 12);
    assert_eq!(back(g.worm_track()), 25);
    assert_eq!(g.gap(), 84);
}

#[test]
fn invalid_dimensions_are_rejected() {
    assert!(matches!(Game::with_size(0, 10), Err(GameError::InvalidDimension)));
    assert!(matches!(Game::with_size(-4, 10), Err(GameError::InvalidDimension)));
    assert!(matches!(Game::with_size(10, 0), Err(GameError::InvalidDimension)));
    assert!(matches!(Game::with_size(10, -3), Err(GameError::InvalidDimension)));
    assert!(matches!(Game::with_size(10, 2), Err(GameError::InvalidDimension)));
    assert!(Game::with_size(1, 3).is_ok());
}

#[test]
fn reversal_at_floor_narrows_gap() {
    let mut g = Game::with_size(8, 3).unwrap();
    assert_eq!(back(g.far_wall()) + g.gap(), 8);
    g.advance_one_step();
    assert!(!g.cave_incr());
    assert_eq!(g.gap(), 6);
}

#[test]
fn reversal_keeps_gap_of_one() {
    let mut g = Game::with_size(8, 3).unwrap();
    let mut seen_gap_one = false;
    for i in 0..2000 {
        g.set_worm_decr(i % 2 == 0);
        let b = back(g.far_wall());
        let gap = g.gap();
        g.advance_one_step();
        if b + gap >= 8 {
            assert!(!g.cave_incr());
            if gap > 1 {
                assert_eq!(g.gap(), gap - 1);
            } else {
                assert_eq!(g.gap(), 1);
                seen_gap_one = true;
            }
        } else {
            assert_eq!(g.gap(), gap);
        }
    }
    assert!(seen_gap_one);
}

#[test]
fn reversal_at_ceiling_turns_up() {
    let mut g = Game::with_size(8, 3).unwrap();
    g.advance_one_step();
    assert_eq!(back(g.far_wall()), 0);
    g.advance_one_step();
    assert!(g.cave_incr());
    assert_eq!(back(g.far_wall()), 1);
    assert_eq!(g.gap(), 6);
}

#[test]
fn gap_never_below_one() {
    let mut g = Game::with_size(9, 5).unwrap();
    for i in 0..3000 {
        g.set_worm_decr(i % 2 == 1);
        g.advance_one_step();
        assert!(g.gap() >= 1);
    }
    assert_eq!(g.gap(), 1);
}

#[test]
fn tracks_keep_their_lengths() {
    let mut g = Game::with_size(40, 30).unwrap();
    for i in 0..500 {
        g.set_worm_decr(i % 3 == 0);
        g.advance_one_step();
        assert_eq!(g.worm_track().len(), 16);
        assert_eq!(g.near_wall().len(), 16);
        assert_eq!(g.far_wall().len(), 14);
    }
}

#[test]
fn runs_are_deterministic() {
    let mut a = Game::with_size(60, 41).unwrap();
    let mut b = Game::with_size(60, 41).unwrap();
    for i in 0..300 {
        let d = (i / 7) % 2 == 0;
        a.set_worm_decr(d);
        b.set_worm_decr(d);
        a.advance_one_step();
        b.advance_one_step();
        assert_eq!(a.worm_track(), b.worm_track());
        assert_eq!(a.near_wall(), b.near_wall());
        assert_eq!(a.far_wall(), b.far_wall());
        assert_eq!(a.gap(), b.gap());
        assert_eq!(a.worm_alive(), b.worm_alive());
    }
}

#[test]
fn death_on_touching_ceiling() {
    let mut g = Game::with_size(80, 40).unwrap();
    g.set_worm_decr(true);
    for _ in 0..9 {
        g.advance_one_step();
        assert!(g.worm_alive());
    }
    assert_eq!(back(g.worm_track()), 11);
    assert_eq!(back(g.near_wall()), 10);
    g.advance_one_step();
    assert_eq!(back(g.worm_track()), back(g.near_wall()));
    assert!(!g.worm_alive());
}

#[test]
fn death_on_touching_floor() {
    let mut g = Game::with_size(16, 3).unwrap();
    assert_eq!(g.gap(), 14);
    g.advance_one_step();
    assert_eq!(back(g.near_wall()), 2);
    assert_eq!(back(g.worm_track()), 5);
    assert!(g.worm_alive());
    let mut ticks = 1;
    while g.worm_alive() {
        g.advance_one_step();
        ticks += 1;
        assert!(ticks < 100);
    }
    assert_eq!(ticks, 9);
    assert_eq!(back(g.near_wall()), 0);
    assert_eq!(g.gap(), 12);
    assert_eq!(back(g.worm_track()), 13);
}

#[test]
fn sliding_moves_far_wall_into_near_wall() {
    let mut g = Game::with_size(80, 40).unwrap();
    for i in 0..50 {
        g.set_worm_decr(i % 2 == 0);
        let far_front = front(g.far_wall());
        let far_back = back(g.far_wall());
        let head = back(g.worm_track());
        let decr = g.worm_decr();
        g.advance_one_step();
        assert_eq!(back(g.near_wall()), far_front);
        let step = if g.cave_incr() { 1 } else { -1 };
        assert_eq!(back(g.far_wall()), far_back + step);
        assert_eq!(back(g.worm_track()), if decr { head - 1 } else { head + 1 });
    }
}

#[test]
fn first_step_values() {
    let mut g = Game::with_size(80, 40).unwrap();
    g.advance_one_step();
    assert!(!g.cave_incr());
    assert_eq!(g.gap(), 69);
    assert_eq!(back(g.far_wall()), 9);
    assert_eq!(back(g.near_wall()), 10);
    assert_eq!(back(g.worm_track()), 21);
}

#[test]
fn steer_space_goes_up_other_keys_down() {
    let mut g = Game::with_size(80, 40).unwrap();
    g.steer('x');
    assert!(g.worm_decr());
    g.steer(' ');
    assert!(!g.worm_decr());
}

#[test]
fn tick_last_key_wins() {
    let mut g = Game::with_size(80, 40).unwrap();
    assert!(g.tick(&vec![' ', 'a']));
    assert!(g.worm_decr());
    assert_eq!(back(g.worm_track()), 19);
    assert!(g.tick(&vec!['a', ' ']));
    assert!(!g.worm_decr());
    assert_eq!(back(g.worm_track()), 20);
    assert!(g.tick(&vec![]));
    assert!(!g.worm_decr());
    assert_eq!(back(g.worm_track()), 21);
    assert_eq!(g.score(), 3);
}

#[test]
fn tick_scores_only_when_alive() {
    let mut g = Game::with_size(8, 3).unwrap();
    let alive = g.tick(&vec!['d']);
    assert!(!alive);
    assert_eq!(g.score(), 0);
    assert!(!g.worm_alive());
}

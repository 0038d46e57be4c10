use zetalan::game::{
    u32_dec_chars, Bounds, GameSettings, GameState, Operation, Problem,
};

fn chars_of(s: &str) -> Vec<char> {
    s.chars().collect()
}

fn check_solvable(p: &Problem) {
    match p.operation {
        Operation::Add => assert_eq!(p.answer, p.first + p.second),
        Operation::Subtract => assert_eq!(p.first, p.second + p.answer),
        Operation::Multiply => assert_eq!(p.answer, p.first * p.second),
        Operation::Divide => assert_eq!(p.first, p.second * p.answer),
    }
}

#[test]
fn default_settings_values() {
    let s = GameSettings::default();
    assert_eq!(s.total_time_seconds, 120);
    assert_eq!(s.addition_first, Bounds { lo: 2, hi: 10 });
    assert_eq!(s.addition_second, Bounds { lo: 2, hi: 100 });
    assert_eq!(s.multiplication_first, Bounds { lo: 2, hi: 12 });
    assert_eq!(s.multiplication_second, Bounds { lo: 2, hi: 100 });
}

#[test]
fn fresh_game_state() {
    let g = GameState::from_options(7, GameSettings::default());
    assert_eq!(g.seed, 7);
    assert_eq!(g.score, 0);
    assert!(g.start_time.is_none());
    check_solvable(&g.current_problem);
}

#[test]
fn every_problem_is_solvable_and_in_range() {
    let settings = GameSettings::default();
    let mut g = GameState::from_options(12345, settings);
    for _ in 0..200 {
        g.next_problem();
        let p = g.current_problem;
        check_solvable(&p);
        match p.operation {
            Operation::Add => {
                assert!((2..=10).contains(&p.first));
                assert!((2..=100).contains(&p.second));
            }
            Operation::Subtract => {
                assert!((2..=10).contains(&p.second));
                assert!((2..=100).contains(&p.answer));
            }
            Operation::Multiply => {
                assert!((2..=12).contains(&p.first));
                assert!((2..=100).contains(&p.second));
            }
            Operation::Divide => {
                assert!((2..=12).contains(&p.second));
                assert!((2..=100).contains(&p.answer));
            }
        }
    }
}

#[test]
fn same_seed_replays_same_game() {
    let mut a = GameState::from_options(99, GameSettings::default());
    let mut b = GameState::from_options(99, GameSettings::default());
    for _ in 0..20 {
        assert_eq!(a.current_problem, b.current_problem);
        a.next_problem();
        b.next_problem();
    }
}

#[test]
fn different_seeds_diverge() {
    let mut a = GameState::from_options(1, GameSettings::default());
    let mut b = GameState::from_options(2, GameSettings::default());
    let mut all_equal = true;
    for _ in 0..20 {
        if a.current_problem != b.current_problem {
            all_equal = false;
        }
        a.next_problem();
        b.next_problem();
    }
    assert!(!all_equal);
}

#[test]
fn is_correct_accepts_exact_answer() {
    let g = GameState::from_options(5, GameSettings::default());
    let right = chars_of(&g.current_problem.answer.to_string());
    assert!(g.is_correct(&right));
    let wrong = chars_of("98765432");
    assert!(!g.is_correct(&wrong));
    assert!(!g.is_correct(&Vec::new()));
}

#[test]
fn decimal_rendering() {
    assert_eq!(u32_dec_chars(0), chars_of("0"));
    assert_eq!(u32_dec_chars(7), chars_of("7"));
    assert_eq!(u32_dec_chars(42), chars_of("42"));
    assert_eq!(u32_dec_chars(1200), chars_of("1200"));
    assert_eq!(u32_dec_chars(u32::MAX), chars_of("4294967295"));
}

#[test]
fn operation_signs() {
    assert_eq!(Operation::Add.char(), '+');
    assert_eq!(Operation::Subtract.char(), '-');
    assert_eq!(Operation::Multiply.char(), '*');
    assert_eq!(Operation::Divide.char(), '/');
}

#[test]
fn problem_display() {
    let p = Problem { first: 12, second: 7, answer: 19, operation: Operation::Add };
    assert_eq!(p.display_chars(), chars_of("12 + 7"));
    let q = Problem { first: 84, second: 12, answer: 7, operation: Operation::Divide };
    assert_eq!(q.display_chars(), chars_of("84 / 12"));
}

#[test]
fn clock_before_start_is_full_round() {
    let g = GameState::from_options(3, GameSettings::default());
    assert_eq!(g.clock_time(), 120);
}

#[test]
fn remaining_time_counts_down_and_floors_at_zero() {
    let mut g = GameState::from_options(3, GameSettings::default());
    g.start_time = Some(1000);
    assert_eq!(g.remaining_at(1000), 120);
    assert_eq!(g.remaining_at(1060), 60);
    assert_eq!(g.remaining_at(1120), 0);
    assert_eq!(g.remaining_at(5000), 0);
    // A clock that ran backwards yields more than the round, never less
    // than zero.
    assert_eq!(g.remaining_at(900), 220);
}

#[test]
fn start_game_sets_the_clock() {
    let mut g = GameState::from_options(3, GameSettings::default());
    assert!(g.start_time.is_none());
    g.start_game();
    assert!(g.start_time.is_some());
}

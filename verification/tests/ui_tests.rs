use zetalan::ui::{App, KeyPress, Screen};

fn typed(app: &mut App, s: &str) {
    for c in s.chars() {
        app.handle_key_event(KeyPress::Character(c));
    }
}

#[test]
fn fresh_app_shows_the_game() {
    let app = App::new();
    assert_eq!(app.current_screen, Screen::Game);
    assert!(!app.exit);
    assert!(app.user_input.is_empty());
    assert_eq!(app.game_state.score, 0);
}

#[test]
fn q_asks_to_quit() {
    let mut app = App::new();
    app.handle_key_event(KeyPress::Character('q'));
    assert!(app.exit);
    assert!(app.user_input.is_empty());
}

#[test]
fn typing_the_answer_scores_and_clears() {
    let mut app = App::new();
    let answer = app.game_state.current_problem.answer.to_string();
    typed(&mut app, &answer);
    assert_eq!(app.game_state.score, 1);
    assert!(app.user_input.is_empty());
    // And the problem moved on: solving it again scores again.
    let next = app.game_state.current_problem.answer.to_string();
    typed(&mut app, &next);
    assert_eq!(app.game_state.score, 2);
}

#[test]
fn wrong_input_accumulates() {
    let mut app = App::new();
    // No answer under the default settings has more than four digits, so
    // an 'x' prefix keeps any digits from matching.
    typed(&mut app, "x12");
    assert_eq!(app.user_input, vec!['x', '1', '2']);
    assert_eq!(app.game_state.score, 0);
}

#[test]
fn input_is_capped_at_seven_characters() {
    let mut app = App::new();
    typed(&mut app, "xxxxxxxxxx");
    assert_eq!(app.user_input.len(), 7);
}

#[test]
fn backspace_erases_one_character() {
    let mut app = App::new();
    typed(&mut app, "x81");
    app.handle_key_event(KeyPress::Backspace);
    assert_eq!(app.user_input, vec!['x', '8']);
    app.handle_key_event(KeyPress::Backspace);
    app.handle_key_event(KeyPress::Backspace);
    app.handle_key_event(KeyPress::Backspace);
    assert!(app.user_input.is_empty());
}

#[test]
fn backspace_then_correct_digit_scores() {
    let mut app = App::new();
    let answer = app.game_state.current_problem.answer.to_string();
    // Type the answer with a wrong last digit, then fix it.
    typed(&mut app, &answer[..answer.len() - 1]);
    let last = answer.chars().last().unwrap();
    let wrong = if last == '0' { '1' } else { '0' };
    app.handle_key_event(KeyPress::Character(wrong));
    assert_eq!(app.game_state.score, 0);
    app.handle_key_event(KeyPress::Backspace);
    app.handle_key_event(KeyPress::Character(last));
    assert_eq!(app.game_state.score, 1);
    assert!(app.user_input.is_empty());
}

#[test]
fn other_keys_are_ignored() {
    let mut app = App::new();
    typed(&mut app, "x5");
    app.handle_key_event(KeyPress::Other);
    assert_eq!(app.user_input, vec!['x', '5']);
    assert!(!app.exit);
    assert_eq!(app.game_state.score, 0);
}

#[test]
fn exit_keeps_the_rest_of_the_state() {
    let mut app = App::new();
    typed(&mut app, "x3");
    app.exit();
    assert!(app.exit);
    assert_eq!(app.user_input, vec!['x', '3']);
    assert_eq!(app.current_screen, Screen::Game);
}

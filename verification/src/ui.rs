//! The front end's decisions: what a keystroke does to the game.
//!
//! Drawing and reading the terminal are I/O and live outside the library;
//! the loop out there reads one key event, maps it to a [`KeyPress`], and
//! calls [`App::handle_key_event`]. Everything that changes state — the
//! input buffer's editing rules, answer checking, scoring, quitting — is
//! decided and verified here.

use vstd::prelude::*;

use crate::game::{dec_chars, GameState};

verus! {

/// The screens the front end can show.
#[derive(Clone, Copy, Debug, PartialEq, Eq, Structural)]
pub enum Screen {
    Menu,
    Lobby,
    Game,
    Settings,
}

/// A key event, reduced to what the game reacts to.
#[derive(Clone, Copy, Debug, PartialEq, Eq)]
pub enum KeyPress {
    Character(char),
    Backspace,
    Other,
}

/// The front end's state: the game, the answer being typed, the screen
/// shown, and whether the user asked to quit.
pub struct App {
    pub game_state: GameState,
    pub user_input: Vec<char>,
    pub current_screen: Screen,
    pub exit: bool,
}

/// The exact decimal rendering of the current problem's answer — what the
/// typed input is checked against.
pub open spec fn answer_text(app: App) -> Seq<char> {
    dec_chars(app.game_state.current_problem.answer as nat)
}

/// How a key edits the input buffer: a typed character is appended while
/// the buffer is shorter than seven characters (`'q'` quits instead),
/// backspace removes the last character if there is one, and any other key
/// leaves the buffer alone.
pub open spec fn edited_input(input: Seq<char>, key: KeyPress) -> Seq<char> {
    match key {
        KeyPress::Character(c) => if c == 'q' {
            input
        } else if input.len() < 7 {
            input.push(c)
        } else {
            input
        },
        KeyPress::Backspace => if input.len() > 0 {
            input.drop_last()
        } else {
            input
        },
        KeyPress::Other => input,
    }
}

/// Whether the key leads to an answer check: appending a character does,
/// and so does backspace; `'q'`, a full buffer, and other keys do not.
pub open spec fn key_checks_answer(input: Seq<char>, key: KeyPress) -> bool {
    match key {
        KeyPress::Character(c) => c != 'q' && input.len() < 7,
        KeyPress::Backspace => true,
        KeyPress::Other => false,
    }
}

impl App {
    pub open spec fn wf(self) -> bool {
        self.game_state.wf()
    }

    /// A fresh front end on the game screen.
    pub fn new() -> (r: App)
        ensures
            r.wf(),
            r.user_input@ == Seq::<char>::empty(),
            r.current_screen == Screen::Game,
            !r.exit,
            r.game_state.score == 0,
            r.game_state.start_time is None,
            r.game_state.settings == crate::game::default_settings(),
    {
        App {
            game_state: GameState::new(),
            user_input: Vec::new(),
            current_screen: Screen::Game,
            exit: false,
        }
    }

    /// Ask the event loop to end.
    pub fn exit(&mut self)
        ensures
            final(self).exit,
            final(self).game_state == old(self).game_state,
            final(self).user_input@ == old(self).user_input@,
            final(self).current_screen == old(self).current_screen,
    {
        self.exit = true;
    }

    /// Score the typed input: if it is exactly the current answer, count a
    /// point, clear the buffer and draw the next problem; otherwise change
    /// nothing.
    pub fn check_answer(&mut self)
        requires
            old(self).wf(),
            old(self).game_state.score < u32::MAX,
        ensures
            final(self).wf(),
            final(self).current_screen == old(self).current_screen,
            final(self).exit == old(self).exit,
            final(self).game_state.settings == old(self).game_state.settings,
            final(self).game_state.seed == old(self).game_state.seed,
            final(self).game_state.start_time == old(self).game_state.start_time,
            old(self).user_input@ != answer_text(*old(self)) ==> *final(self) == *old(self),
            old(self).user_input@ == answer_text(*old(self)) ==> {
                &&& final(self).game_state.score == old(self).game_state.score + 1
                &&& final(self).user_input@ == Seq::<char>::empty()
                &&& final(self).game_state.current_problem.in_ranges(old(self).game_state.settings)
            },
    {
        if self.game_state.is_correct(&self.user_input) {
            self.game_state.next_problem();
            self.user_input = Vec::new();
            let score = self.game_state.score;
            self.game_state.score = score + 1;
        }
    }

    /// React to one key: `'q'` quits; another character is appended while
    /// the buffer is short enough and the result is scored; backspace
    /// erases one character and the result is scored; anything else is
    /// ignored.
    pub fn handle_key_event(&mut self, key: KeyPress)
        requires
            old(self).wf(),
            old(self).game_state.score < u32::MAX,
        ensures
            final(self).wf(),
            final(self).current_screen == old(self).current_screen,
            final(self).game_state.settings == old(self).game_state.settings,
            final(self).game_state.seed == old(self).game_state.seed,
            final(self).game_state.start_time == old(self).game_state.start_time,
            final(self).exit == (old(self).exit || (key matches KeyPress::Character(c) && c
                == 'q')),
            !key_checks_answer(old(self).user_input@, key) ==> {
                &&& final(self).user_input@ == old(self).user_input@
                &&& final(self).game_state == old(self).game_state
            },
            key_checks_answer(old(self).user_input@, key) && edited_input(
                old(self).user_input@,
                key,
            ) != answer_text(*old(self)) ==> {
                &&& final(self).user_input@ == edited_input(old(self).user_input@, key)
                &&& final(self).game_state == old(self).game_state
            },
            key_checks_answer(old(self).user_input@, key) && edited_input(
                old(self).user_input@,
                key,
            ) == answer_text(*old(self)) ==> {
                &&& final(self).user_input@ == Seq::<char>::empty()
                &&& final(self).game_state.score == old(self).game_state.score + 1
                &&& final(self).game_state.current_problem.in_ranges(old(self).game_state.settings)
            },
    {
        match key {
            KeyPress::Character(c) => {
                if c == 'q' {
                    self.exit();
                } else if self.user_input.len() < 7 {
                    self.user_input.push(c);
                    self.check_answer();
                }
            },
            KeyPress::Backspace => {
                self.user_input.pop();
                self.check_answer();
            },
            KeyPress::Other => {},
        }
    }
}

} // verus!

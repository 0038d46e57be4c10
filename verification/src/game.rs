//! The arithmetic game: a seeded problem generator and its scoring state.
//!
//! Every problem is built so that its answer is a non-negative integer:
//! subtraction problems are made by naming a sum and one addend, division
//! problems by naming a product and one factor. The random draws come from
//! a seeded generator held by the state, so a given seed replays the same
//! game; what each drawn value yields is verified for every value the
//! generator can produce.

use vstd::prelude::*;

use rand::Rng;
use rand::SeedableRng;

verus! {

/// Declares `rand_chacha::ChaCha8Rng`, the seeded generator the game holds;
/// the verifier treats its values as opaque.
#[verifier::external_type_specification]
#[verifier::external_body]
pub struct ExChaCha8Rng(rand_chacha::ChaCha8Rng);

/// Relies on `rand_core::SeedableRng::seed_from_u64` for `ChaCha8Rng`:
/// builds a generator from a 64-bit seed.
#[verifier::external_body]
fn seed_rng(seed: u64) -> (r: rand_chacha::ChaCha8Rng) {
    rand_chacha::ChaCha8Rng::seed_from_u64(seed)
}

/// Relies on `rand::Rng::random_range`: a value drawn from the inclusive
/// range. It panics on an empty range, so the bounds must be ordered.
#[verifier::external_body]
fn draw_inclusive(rng: &mut rand_chacha::ChaCha8Rng, lo: u32, hi: u32) -> (r: u32)
    requires
        lo <= hi,
    ensures
        lo <= r <= hi,
{
    rng.random_range(lo..=hi)
}

/// Relies on `rand::random`: a fresh 64-bit value from the thread-local
/// generator.
#[verifier::external_body]
fn fresh_seed() -> (r: u64) {
    rand::random::<u64>()
}

/// Relies on `chrono::Utc::now` and `DateTime::timestamp`: the current time
/// as whole seconds since the Unix epoch.
#[verifier::external_body]
fn now_timestamp() -> (r: i64) {
    chrono::Utc::now().timestamp()
}

/// An inclusive range of operand values.
#[derive(Clone, Copy, Debug, PartialEq, Eq, Structural)]
pub struct Bounds {
    pub lo: u32,
    pub hi: u32,
}

impl Bounds {
    pub open spec fn wf(self) -> bool {
        self.lo <= self.hi
    }

    /// `v` lies inside the range.
    pub open spec fn holds(self, v: u32) -> bool {
        self.lo <= v <= self.hi
    }
}

/// The game's tunable settings: the round length and the operand ranges.
/// Addition and subtraction draw from the addition ranges, multiplication
/// and division from the multiplication ranges.
#[derive(Clone, Copy, Debug, PartialEq, Eq, Structural)]
pub struct GameSettings {
    pub total_time_seconds: i64,
    pub addition_first: Bounds,
    pub addition_second: Bounds,
    pub multiplication_first: Bounds,
    pub multiplication_second: Bounds,
}

/// The stock settings: a 120-second round, addends from 2..=10 and 2..=100,
/// factors from 2..=12 and 2..=100.
pub open spec fn default_settings() -> GameSettings {
    GameSettings {
        total_time_seconds: 120,
        addition_first: Bounds { lo: 2, hi: 10 },
        addition_second: Bounds { lo: 2, hi: 100 },
        multiplication_first: Bounds { lo: 2, hi: 12 },
        multiplication_second: Bounds { lo: 2, hi: 100 },
    }
}

impl GameSettings {
    /// Well-formed settings: ordered ranges whose sums and products fit a
    /// `u32`, and a non-negative round length.
    pub open spec fn wf(self) -> bool {
        &&& self.addition_first.wf()
        &&& self.addition_second.wf()
        &&& self.multiplication_first.wf()
        &&& self.multiplication_second.wf()
        &&& self.addition_first.hi + self.addition_second.hi <= u32::MAX
        &&& self.multiplication_first.hi * self.multiplication_second.hi <= u32::MAX
        &&& 0 <= self.total_time_seconds
    }
}

impl Default for GameSettings {
    fn default() -> (s: GameSettings)
        ensures
            s == default_settings(),
            s.wf(),
    {
        GameSettings {
            total_time_seconds: 120,
            addition_first: Bounds { lo: 2, hi: 10 },
            addition_second: Bounds { lo: 2, hi: 100 },
            multiplication_first: Bounds { lo: 2, hi: 12 },
            multiplication_second: Bounds { lo: 2, hi: 100 },
        }
    }
}

/// The four problem kinds.
#[derive(Clone, Copy, Debug, PartialEq, Eq, Structural)]
pub enum Operation {
    Add,
    Subtract,
    Multiply,
    Divide,
}

impl Operation {
    pub open spec fn spec_char(self) -> char {
        match self {
            Operation::Add => '+',
            Operation::Subtract => '-',
            Operation::Multiply => '*',
            Operation::Divide => '/',
        }
    }

    /// The operator sign shown between the operands.
    pub fn char(&self) -> (r: char)
        ensures
            r == self.spec_char(),
    {
        match self {
            Operation::Add => '+',
            Operation::Subtract => '-',
            Operation::Multiply => '*',
            Operation::Divide => '/',
        }
    }
}

/// One problem: `first <op> second`, with the expected answer. The answer
/// is always exact and non-negative by construction.
#[derive(Clone, Copy, Debug, PartialEq, Eq, Structural)]
pub struct Problem {
    pub first: u32,
    pub second: u32,
    pub answer: u32,
    pub operation: Operation,
}

impl Problem {
    /// The answer solves the displayed problem exactly.
    pub open spec fn wf(self) -> bool {
        match self.operation {
            Operation::Add => self.answer == self.first + self.second,
            Operation::Subtract => self.first == self.second + self.answer,
            Operation::Multiply => self.answer == self.first * self.second,
            Operation::Divide => self.first == self.second * self.answer,
        }
    }

    /// The problem's operands were drawn from the given settings: addition
    /// and subtraction from the addition ranges, multiplication and
    /// division from the multiplication ranges, the hidden operand of the
    /// inverse forms counted where it was drawn.
    pub open spec fn in_ranges(self, s: GameSettings) -> bool {
        match self.operation {
            Operation::Add => s.addition_first.holds(self.first) && s.addition_second.holds(
                self.second,
            ),
            Operation::Subtract => s.addition_first.holds(self.second)
                && s.addition_second.holds(self.answer),
            Operation::Multiply => s.multiplication_first.holds(self.first)
                && s.multiplication_second.holds(self.second),
            Operation::Divide => s.multiplication_first.holds(self.second)
                && s.multiplication_second.holds(self.answer),
        }
    }

    /// The problem as display text: `"<first> <op> <second>"`.
    pub open spec fn spec_display(self) -> Seq<char> {
        dec_chars(self.first as nat) + seq![' ', self.operation.spec_char(), ' ']
            + dec_chars(self.second as nat)
    }

    /// Render the problem for display.
    pub fn display_chars(&self) -> (r: Vec<char>)
        ensures
            r@ == self.spec_display(),
    {
        let mut v = u32_dec_chars(self.first);
        v.push(' ');
        v.push(self.operation.char());
        v.push(' ');
        let second = u32_dec_chars(self.second);
        let mut j: usize = 0;
        while j < second.len()
            invariant
                j <= second@.len(),
                second@ == dec_chars(self.second as nat),
                v@ == dec_chars(self.first as nat) + seq![
                    ' ',
                    self.operation.spec_char(),
                    ' ',
                ] + second@.subrange(0, j as int),
            decreases second@.len() - j,
        {
            v.push(second[j]);
            proof {
                assert(v@ =~= dec_chars(self.first as nat) + seq![
                    ' ',
                    self.operation.spec_char(),
                    ' ',
                ] + second@.subrange(0, j + 1));
            }
            j += 1;
        }
        proof {
            assert(v@ =~= self.spec_display());
        }
        v
    }
}

/// The decimal digit `d` as its character.
pub open spec fn digit_char(d: nat) -> char {
    if d == 0 {
        '0'
    } else if d == 1 {
        '1'
    } else if d == 2 {
        '2'
    } else if d == 3 {
        '3'
    } else if d == 4 {
        '4'
    } else if d == 5 {
        '5'
    } else if d == 6 {
        '6'
    } else if d == 7 {
        '7'
    } else if d == 8 {
        '8'
    } else {
        '9'
    }
}

/// The usual decimal rendering of `n`: most significant digit first, no
/// leading zeros except for `n == 0` itself.
pub open spec fn dec_chars(n: nat) -> Seq<char>
    decreases n,
{
    if n < 10 {
        seq![digit_char(n)]
    } else {
        dec_chars(n / 10).push(digit_char(n % 10))
    }
}

fn digit_to_char(d: u32) -> (r: char)
    requires
        d < 10,
    ensures
        r == digit_char(d as nat),
{
    if d == 0 {
        '0'
    } else if d == 1 {
        '1'
    } else if d == 2 {
        '2'
    } else if d == 3 {
        '3'
    } else if d == 4 {
        '4'
    } else if d == 5 {
        '5'
    } else if d == 6 {
        '6'
    } else if d == 7 {
        '7'
    } else if d == 8 {
        '8'
    } else {
        '9'
    }
}

/// `n` written in decimal.
pub fn u32_dec_chars(n: u32) -> (r: Vec<char>)
    ensures
        r@ == dec_chars(n as nat),
    decreases n,
{
    if n < 10 {
        let mut v: Vec<char> = Vec::new();
        v.push(digit_to_char(n));
        proof {
            assert(v@ =~= dec_chars(n as nat));
        }
        v
    } else {
        let mut v = u32_dec_chars(n / 10);
        v.push(digit_to_char(n % 10));
        v
    }
}

/// Compare two character sequences.
fn chars_eq(a: &Vec<char>, b: &Vec<char>) -> (r: bool)
    ensures
        r == (a@ == b@),
{
    if a.len() != b.len() {
        return false;
    }
    let mut i: usize = 0;
    while i < a.len()
        invariant
            a@.len() == b@.len(),
            i <= a@.len(),
            forall|j: int| 0 <= j < i ==> a@[j] == b@[j],
        decreases a@.len() - i,
    {
        if a[i] != b[i] {
            return false;
        }
        i += 1;
    }
    proof {
        assert(a@ =~= b@);
    }
    true
}

/// The time left on the clock: the round length, less the seconds elapsed
/// since the start, floored at zero (and capped at the widest value the
/// clock can report); the full round length while the game has not started.
pub open spec fn spec_remaining(total: int, start_time: Option<i64>, now: int) -> int {
    match start_time {
        None => total,
        Some(st) => {
            let rem = total - (now - st);
            if rem < 0 {
                0
            } else if rem > i64::MAX {
                i64::MAX as int
            } else {
                rem
            }
        },
    }
}

/// The whole game: the problem on screen, the score, the clock, and the
/// seeded generator that produces the next problem.
pub struct GameState {
    pub current_problem: Problem,
    pub seed: u64,
    pub score: u32,
    pub start_time: Option<i64>,
    pub settings: GameSettings,
    pub rng: rand_chacha::ChaCha8Rng,
}

impl GameState {
    /// Sound state: well-formed settings and a solvable problem.
    pub open spec fn wf(self) -> bool {
        self.settings.wf() && self.current_problem.wf()
    }

    /// A fresh game with the stock settings and a random seed.
    pub fn new() -> (r: GameState)
        ensures
            r.wf(),
            r.score == 0,
            r.start_time is None,
            r.settings == default_settings(),
            r.current_problem.in_ranges(r.settings),
    {
        let seed = fresh_seed();
        let settings = GameSettings::default();
        GameState::from_options(seed, settings)
    }

    /// A game replayable from a known seed.
    pub fn from_options(seed: u64, settings: GameSettings) -> (r: GameState)
        requires
            settings.wf(),
        ensures
            r.wf(),
            r.seed == seed,
            r.score == 0,
            r.start_time is None,
            r.settings == settings,
            r.current_problem.in_ranges(settings),
    {
        let mut game_state = GameState {
            score: 0,
            start_time: None,
            current_problem: Problem {
                first: 0,
                second: 0,
                answer: 0,
                operation: Operation::Add,
            },
            rng: seed_rng(seed),
            settings,
            seed,
        };
        game_state.next_problem();
        game_state
    }

    /// Start the clock at the current time.
    pub fn start_game(&mut self)
        ensures
            final(self).start_time is Some,
            final(self).current_problem == old(self).current_problem,
            final(self).seed == old(self).seed,
            final(self).score == old(self).score,
            final(self).settings == old(self).settings,
            final(self).rng == old(self).rng,
    {
        self.start_time = Some(now_timestamp());
    }

    /// The seconds left for a given reading of the clock.
    pub fn remaining_at(&self, now: i64) -> (r: i64)
        requires
            0 <= self.settings.total_time_seconds,
        ensures
            r == spec_remaining(self.settings.total_time_seconds as int, self.start_time, now as int),
            0 <= r,
    {
        match self.start_time {
            None => self.settings.total_time_seconds,
            Some(st) => {
                let rem: i128 = self.settings.total_time_seconds as i128 - (now as i128
                    - st as i128);
                if rem < 0 {
                    0
                } else if rem > i64::MAX as i128 {
                    i64::MAX
                } else {
                    rem as i64
                }
            },
        }
    }

    /// The seconds left right now. Whatever the clock reads, the result is
    /// never negative, and before the game starts it is the full round.
    pub fn clock_time(&self) -> (r: i64)
        requires
            0 <= self.settings.total_time_seconds,
        ensures
            0 <= r,
            self.start_time is None ==> r == self.settings.total_time_seconds,
    {
        let now = now_timestamp();
        self.remaining_at(now)
    }

    /// Does the typed answer solve the current problem? The comparison is
    /// against the answer's exact decimal rendering.
    pub fn is_correct(&self, user_input: &Vec<char>) -> (r: bool)
        ensures
            r == (user_input@ == dec_chars(self.current_problem.answer as nat)),
    {
        let expected = u32_dec_chars(self.current_problem.answer);
        chars_eq(user_input, &expected)
    }

    /// Draw the next problem.
    ///
    /// The operation is drawn first; addition and subtraction then share
    /// one pair of draws (a subtraction problem presents the sum and asks
    /// for the hidden addend), and multiplication and division share the
    /// other (a division problem presents the product and asks for the
    /// hidden factor). So every answer is exact, whatever the draws.
    pub fn next_problem(&mut self)
        requires
            old(self).settings.wf(),
        ensures
            final(self).settings == old(self).settings,
            final(self).seed == old(self).seed,
            final(self).score == old(self).score,
            final(self).start_time == old(self).start_time,
            final(self).current_problem.wf(),
            final(self).current_problem.in_ranges(old(self).settings),
    {
        let op_index = draw_inclusive(&mut self.rng, 0, 3);
        let operation = if op_index == 0 {
            Operation::Add
        } else if op_index == 1 {
            Operation::Subtract
        } else if op_index == 2 {
            Operation::Multiply
        } else {
            Operation::Divide
        };

        self.current_problem = match operation {
            Operation::Add | Operation::Subtract => {
                let n0 = draw_inclusive(
                    &mut self.rng,
                    self.settings.addition_first.lo,
                    self.settings.addition_first.hi,
                );
                let n1 = draw_inclusive(
                    &mut self.rng,
                    self.settings.addition_second.lo,
                    self.settings.addition_second.hi,
                );
                let sum = n0 + n1;
                if op_index == 0 {
                    Problem { first: n0, second: n1, answer: sum, operation }
                } else {
                    Problem { first: sum, second: n0, answer: n1, operation }
                }
            },
            Operation::Multiply | Operation::Divide => {
                let n0 = draw_inclusive(
                    &mut self.rng,
                    self.settings.multiplication_first.lo,
                    self.settings.multiplication_first.hi,
                );
                let n1 = draw_inclusive(
                    &mut self.rng,
                    self.settings.multiplication_second.lo,
                    self.settings.multiplication_second.hi,
                );
                proof {
                    assert(n0 * n1 <= self.settings.multiplication_first.hi
                        * self.settings.multiplication_second.hi) by (nonlinear_arith)
                        requires
                            n0 <= self.settings.multiplication_first.hi,
                            n1 <= self.settings.multiplication_second.hi,
                    ;
                }
                let product = n0 * n1;
                if op_index == 2 {
                    Problem { first: n0, second: n1, answer: product, operation }
                } else {
                    Problem { first: product, second: n0, answer: n1, operation }
                }
            },
        };
    }
}

} // verus!

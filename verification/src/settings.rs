//! The two numbers a game is set up with, and the bounds they are held to.

use vstd::prelude::*;

use crate::code::random_code;
use crate::draft::DraftView;
use crate::game::Status;
use crate::session::Session;

verus! {

/// The fewest pegs a code can have.
pub const MIN_PEGS: u8 = 3;

/// The most pegs a code can have.
pub const MAX_PEGS: u8 = 6;

/// The number of pegs of a code where none is asked for.
pub const DEFAULT_PEGS: u8 = 4;

/// The fewest guesses a player can be given.
pub const MIN_GUESSES: u8 = 8;

/// The most guesses a player can be given.
pub const MAX_GUESSES: u8 = 12;

/// The number of guesses where none is asked for.
pub const DEFAULT_GUESSES: u8 = 10;

/// Whether a game can be set up with these numbers.
pub open spec fn acceptable(pegs: u8, guesses: u8) -> bool {
    MIN_PEGS <= pegs <= MAX_PEGS && MIN_GUESSES <= guesses <= MAX_GUESSES
}

/// The set-up of a game, fixed for as long as the game lasts.
#[derive(Clone, Copy, Debug)]
pub struct Settings {
    pegs: u8,
    guesses: u8,
}

impl Settings {
    #[verifier::type_invariant]
    spec fn valid(self) -> bool {
        acceptable(self.pegs, self.guesses)
    }

    /// Number of color code pegs to guess each turn.
    pub closed spec fn peg_count(self) -> nat {
        self.pegs as nat
    }

    /// Number of guesses before game ends.
    pub closed spec fn turn_limit(self) -> nat {
        self.guesses as nat
    }

    /// The set-up with the given numbers, if they are within the bounds.
    pub fn new(pegs: u8, guesses: u8) -> (settings: Option<Settings>)
        ensures
            settings is Some <==> acceptable(pegs, guesses),
            settings matches Some(s) ==> s.peg_count() == pegs && s.turn_limit() == guesses,
    {
        if MIN_PEGS <= pegs && pegs <= MAX_PEGS && MIN_GUESSES <= guesses && guesses <= MAX_GUESSES {
            Some(Settings { pegs, guesses })
        } else {
            None
        }
    }

    /// Number of color code pegs to guess each turn.
    pub fn pegs(&self) -> (pegs: u8)
        ensures
            pegs == self.peg_count(),
            MIN_PEGS <= pegs <= MAX_PEGS,
    {
        proof {
            use_type_invariant(self);
        }
        self.pegs
    }

    /// Number of guesses before game ends.
    pub fn guesses(&self) -> (guesses: u8)
        ensures
            guesses == self.turn_limit(),
            MIN_GUESSES <= guesses <= MAX_GUESSES,
    {
        proof {
            use_type_invariant(self);
        }
        self.guesses
    }
}

impl Default for Settings {
    fn default() -> (settings: Settings)
        ensures
            settings.peg_count() == DEFAULT_PEGS,
            settings.turn_limit() == DEFAULT_GUESSES,
    {
        Settings { pegs: DEFAULT_PEGS, guesses: DEFAULT_GUESSES }
    }
}

impl Session {
    /// Sits down to a game on an answer drawn at random. Whatever the
    /// answer, it has the number of pegs asked for, no turn is played yet,
    /// and the draft is blank.
    pub fn start(settings: &Settings) -> (session: Session)
        ensures
            session@.wf(),
            session@.game.peg_count() == settings.peg_count(),
            session@.game.turn_limit == settings.turn_limit(),
            session@.game.history.len() == 0,
            session@.game.status() == Status::AwaitingGuess,
            session@.draft == DraftView::blank(settings.peg_count()),
    {
        let pegs = settings.pegs();
        let guesses = settings.guesses();
        let answer = random_code(pegs as usize);
        match Session::new(answer, guesses as usize) {
            Some(session) => session,
            None => vstd::pervasive::unreached(),
        }
    }
}

} // verus!

//! A sitting at the board: one game and the guess under construction, driven
//! by the player's keystrokes.

use vstd::prelude::*;

use crate::draft::{Command, Draft, DraftView, Key};
use crate::game::{Game, GameView, Status};
use crate::peg::ColorPeg;

verus! {

/// What the caller is to do after a keystroke.
#[derive(Clone, Copy, Debug, PartialEq, Eq, Structural)]
pub enum Reaction {
    /// Show the board again and wait for the next key.
    Redraw,
    /// Show the board a last time, with the verdict, and end.
    Finish(Status),
    /// End at once.
    Quit,
}

/// A sitting as a mathematical value.
pub struct SessionView {
    pub game: GameView,
    pub draft: DraftView,
}

impl SessionView {
    /// What holds of every sitting: game and draft are sound, and the draft
    /// has as many pegs as the answer.
    pub open spec fn wf(self) -> bool {
        &&& self.game.wf()
        &&& self.draft.wf()
        &&& self.draft.pegs.len() == self.game.peg_count()
    }

    /// The sitting after a keystroke. Leaving changes nothing, and nothing
    /// changes once the game is over. Handing in records the draft as a turn
    /// and, if the game goes on, lays out a blank draft; every other key
    /// edits the draft.
    pub open spec fn press(self, key: Key) -> SessionView {
        let command = key.meaning();
        if command == Command::Quit || self.game.status() != Status::AwaitingGuess {
            self
        } else if command == Command::Submit {
            let game = self.game.submit(self.draft.pegs);
            SessionView {
                game,
                draft: if game.status() == Status::AwaitingGuess {
                    DraftView::blank(self.game.peg_count())
                } else {
                    self.draft
                },
            }
        } else {
            SessionView { draft: self.draft.apply(command), ..self }
        }
    }

    /// What the caller is to do after a keystroke.
    pub open spec fn reaction(self, key: Key) -> Reaction {
        let command = key.meaning();
        if command == Command::Quit {
            Reaction::Quit
        } else if self.press(key).game.status() == Status::AwaitingGuess {
            Reaction::Redraw
        } else {
            Reaction::Finish(self.press(key).game.status())
        }
    }
}

/// A sitting at the board.
pub struct Session {
    game: Game,
    draft: Draft,
}

impl View for Session {
    type V = SessionView;

    closed spec fn view(&self) -> SessionView {
        SessionView { game: self.game@, draft: self.draft@ }
    }
}

impl Session {
    #[verifier::type_invariant]
    spec fn valid(self) -> bool {
        self@.wf()
    }

    /// Sits down to a game on the given answer with the given number of
    /// turns. There is no game on an empty answer.
    pub fn new(answer: Vec<ColorPeg>, turn_limit: usize) -> (session: Option<Session>)
        ensures
            session is Some <==> answer@.len() > 0,
            session matches Some(s) ==> {
                &&& s@.game == GameView::start(answer@, turn_limit as nat)
                &&& s@.draft == DraftView::blank(answer@.len())
                &&& s@.wf()
            },
    {
        let pegs = answer.len();
        match (Game::new(answer, turn_limit), Draft::new(pegs)) {
            (Some(game), Some(draft)) => Some(Session { game, draft }),
            _ => None,
        }
    }

    /// The game.
    pub fn game(&self) -> (game: &Game)
        ensures
            game@ == self@.game,
            self@.wf(),
    {
        proof {
            use_type_invariant(self);
        }
        &self.game
    }

    /// The guess under construction.
    pub fn draft(&self) -> (draft: &Draft)
        ensures
            draft@ == self@.draft,
            self@.wf(),
    {
        proof {
            use_type_invariant(self);
        }
        &self.draft
    }

    /// Takes a keystroke and says what to do next. Leaving is granted at
    /// once, in every state, and leaves the history as it was. The draft
    /// that is handed in always has the length of the answer, so the game
    /// never refuses it.
    pub fn press(self, key: Key) -> (next: (Session, Reaction))
        ensures
            next.0@ == self@.press(key),
            next.1 == self@.reaction(key),
            next.0@.wf(),
            key.meaning() == Command::Quit ==> next.0@ == self@ && next.1 == Reaction::Quit,
    {
        proof {
            use_type_invariant(&self);
        }
        let command = key.command();
        if command == Command::Quit {
            return (self, Reaction::Quit);
        }
        let status = self.game.status();
        if status != Status::AwaitingGuess {
            return (self, Reaction::Finish(status));
        }
        let Session { mut game, mut draft } = self;
        if command == Command::Submit {
            let pegs = game.peg_count();
            match game.submit(draft.to_guess()) {
                Ok(Status::AwaitingGuess) => match Draft::new(pegs) {
                    Some(blank) => (Session { game, draft: blank }, Reaction::Redraw),
                    None => vstd::pervasive::unreached(),
                },
                Ok(over) => (Session { game, draft }, Reaction::Finish(over)),
                Err(_) => vstd::pervasive::unreached(),
            }
        } else {
            draft.apply(command);
            (Session { game, draft }, Reaction::Redraw)
        }
    }
}

} // verus!

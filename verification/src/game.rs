//! One game: the hidden answer, the turns played so far, and the rule that
//! decides after every guess whether the game goes on.

use vstd::prelude::*;

use crate::feedback::{
    color_only, exact_matches, lemma_marks_within_pegs, score, Feedback, EMPTY_GUESS,
    LENGTH_MISMATCH,
};
use crate::peg::ColorPeg;

verus! {

/// Where a game stands.
#[derive(Clone, Copy, Debug, PartialEq, Eq, Structural)]
pub enum Status {
    /// The next guess is awaited.
    AwaitingGuess,
    /// The last guess matched the answer in every position.
    Won,
    /// The turns are used up and the answer was not found.
    Lost,
}

/// Why a guess was not taken.
#[derive(Clone, Copy, Debug)]
pub enum Rejected {
    /// The game was over before the guess came.
    GameOver,
    /// The guess cannot be scored; the payload is the scorer's reason.
    InvalidInput(&'static str),
}

/// What the player hands to the game when a turn is due.
#[derive(Clone, Debug)]
pub enum Move {
    /// A completed guess.
    Guess(Vec<ColorPeg>),
    /// The wish to leave.
    Quit,
}

/// What the game answers to a move.
#[derive(Clone, Copy, Debug)]
pub enum Outcome {
    /// The guess was scored and recorded; the game stands as told.
    Played(Status),
    /// The player left; nothing was recorded.
    Abandoned,
    /// The guess was not taken; nothing was recorded.
    Refused(Rejected),
}

/// A completed turn: the guess and the feedback it earned.
#[derive(Clone, Debug, PartialEq, Eq)]
pub struct Turn {
    pub guess: Vec<ColorPeg>,
    pub feedback: Feedback,
}

/// A completed turn as a mathematical value.
pub struct TurnView {
    pub guess: Seq<ColorPeg>,
    pub feedback: Feedback,
}

impl View for Turn {
    type V = TurnView;

    open spec fn view(&self) -> TurnView {
        TurnView { guess: self.guess@, feedback: self.feedback }
    }
}

/// The turns of a history as mathematical values.
pub open spec fn turn_views(turns: Seq<Turn>) -> Seq<TurnView> {
    turns.map_values(|turn: Turn| turn@)
}

/// A game as a mathematical value.
pub struct GameView {
    /// The code to be found.
    pub answer: Seq<ColorPeg>,
    /// The completed turns, oldest first.
    pub history: Seq<TurnView>,
    /// The number of turns the player is given.
    pub turn_limit: nat,
}

impl GameView {
    /// The number of pegs in the answer and in every guess.
    pub open spec fn peg_count(self) -> nat {
        self.answer.len()
    }

    /// The number of completed turns, which is the index of the turn to come.
    pub open spec fn turn_index(self) -> nat {
        self.history.len()
    }

    /// The turn holds a guess of the right length with the feedback it earns.
    pub open spec fn scored(self, turn: TurnView) -> bool {
        &&& turn.guess.len() == self.answer.len()
        &&& turn.feedback.right == exact_matches(turn.guess, self.answer)
        &&& turn.feedback.wrong == color_only(turn.guess, self.answer)
    }

    /// The turn's guess matched the answer in every position.
    pub open spec fn winning(self, turn: TurnView) -> bool {
        turn.feedback.right == self.answer.len()
    }

    /// What holds of every game: the answer is not empty and no longer than
    /// a machine can count, no more turns were played than the limit allows,
    /// every turn carries the feedback of its guess, and only the last turn
    /// can be a winning one.
    pub open spec fn wf(self) -> bool {
        &&& 0 < self.answer.len() <= usize::MAX
        &&& self.history.len() <= self.turn_limit
        &&& forall|i: int| 0 <= i < self.history.len() ==> self.scored(#[trigger] self.history[i])
        &&& forall|i: int|
            0 <= i < self.history.len() - 1 ==> !self.winning(#[trigger] self.history[i])
    }

    /// Where the game stands. A winning last turn wins even on the last turn
    /// allowed; otherwise the game is lost once the turns are used up.
    pub open spec fn status(self) -> Status {
        if self.history.len() > 0 && self.winning(self.history.last()) {
            Status::Won
        } else if self.history.len() >= self.turn_limit {
            Status::Lost
        } else {
            Status::AwaitingGuess
        }
    }

    /// A game before its first turn.
    pub open spec fn start(answer: Seq<ColorPeg>, turn_limit: nat) -> GameView {
        GameView { answer, history: Seq::empty(), turn_limit }
    }

    /// Whether a guess is taken: the game awaits one, and the guess has as
    /// many pegs as the answer.
    pub open spec fn accepts(self, guess: Seq<ColorPeg>) -> bool {
        self.status() == Status::AwaitingGuess && guess.len() == self.answer.len()
    }

    /// The game with one more turn: the guess and its feedback.
    pub open spec fn record(self, guess: Seq<ColorPeg>) -> GameView {
        GameView {
            history: self.history.push(TurnView { guess, feedback: score(guess, self.answer) }),
            ..self
        }
    }

    /// The game after a guess was handed in: a guess that is not taken
    /// changes nothing.
    pub open spec fn submit(self, guess: Seq<ColorPeg>) -> GameView {
        if self.accepts(guess) {
            self.record(guess)
        } else {
            self
        }
    }

    /// The game after a run of guesses, handed in one after the other.
    pub open spec fn play(self, guesses: Seq<Seq<ColorPeg>>) -> GameView
        decreases guesses.len(),
    {
        if guesses.len() == 0 {
            self
        } else {
            self.play(guesses.drop_last()).submit(guesses.last())
        }
    }
}

/// A game in play.
pub struct Game {
    answer: Vec<ColorPeg>,
    history: Vec<Turn>,
    turn_limit: usize,
}

impl View for Game {
    type V = GameView;

    closed spec fn view(&self) -> GameView {
        GameView {
            answer: self.answer@,
            history: turn_views(self.history@),
            turn_limit: self.turn_limit as nat,
        }
    }
}

impl Game {
    #[verifier::type_invariant]
    spec fn valid(self) -> bool {
        self@.wf()
    }

    /// Starts a game on the given answer with the given number of turns.
    /// There is no game on an empty answer.
    pub fn new(answer: Vec<ColorPeg>, turn_limit: usize) -> (game: Option<Game>)
        ensures
            game is Some <==> answer@.len() > 0,
            game matches Some(g) ==> g@ == GameView::start(answer@, turn_limit as nat) && g@.wf(),
    {
        if answer.len() == 0 {
            None
        } else {
            let game = Game { answer, history: Vec::new(), turn_limit };
            proof {
                assert(game@.history =~= Seq::<TurnView>::empty());
            }
            Some(game)
        }
    }

    /// Where the game stands.
    pub fn status(&self) -> (status: Status)
        ensures
            status == self@.status(),
            self@.wf(),
    {
        proof {
            use_type_invariant(self);
        }
        let turns = self.history.len();
        if turns > 0 && self.history[turns - 1].feedback.right == self.answer.len() {
            Status::Won
        } else if turns >= self.turn_limit {
            Status::Lost
        } else {
            Status::AwaitingGuess
        }
    }

    /// Takes a guess: scores it, records the turn, and says where the game
    /// stands then. A guess that comes after the end of the game, or that
    /// cannot be scored, is rejected and leaves the game as it was.
    pub fn submit(&mut self, guess: Vec<ColorPeg>) -> (verdict: Result<Status, Rejected>)
        ensures
            final(self)@ == old(self)@.submit(guess@),
            final(self)@.wf(),
            old(self)@.history.is_prefix_of(final(self)@.history),
            verdict is Ok <==> old(self)@.accepts(guess@),
            verdict is Ok ==> final(self)@.turn_index() == old(self)@.turn_index() + 1,
            verdict matches Ok(status) ==> status == final(self)@.status(),
            verdict matches Ok(Status::Won) <==> old(self)@.accepts(guess@) && guess@ == old(
                self,
            )@.answer,
            verdict matches Ok(Status::Lost) <==> old(self)@.accepts(guess@) && guess@ != old(
                self,
            )@.answer && old(self)@.turn_index() + 1 == old(self)@.turn_limit,
            verdict matches Err(Rejected::GameOver) ==> old(self)@.status() != Status::AwaitingGuess,
            verdict matches Err(Rejected::InvalidInput(reason)) ==> {
                &&& old(self)@.status() == Status::AwaitingGuess
                &&& reason@ == if guess@.len() == 0 {
                    EMPTY_GUESS@
                } else {
                    LENGTH_MISMATCH@
                }
            },
    {
        proof {
            use_type_invariant(&*self);
            lemma_history_append_only(self@, guess@);
            if self@.accepts(guess@) {
                lemma_all_exact_is_equal(guess@, self@.answer);
                lemma_marks_within_pegs(guess@, self@.answer);
            }
        }
        if self.status() != Status::AwaitingGuess {
            return Err(Rejected::GameOver);
        }
        match Feedback::new(guess.as_slice(), self.answer.as_slice()) {
            Err(reason) => Err(Rejected::InvalidInput(reason)),
            Ok(feedback) => {
                let ghost before = self@;
                let ghost after = before.record(guess@);
                // the history leaves the game while it grows, so that the
                // game is whole at every step
                let mut turns: Vec<Turn> = Vec::new();
                std::mem::swap(&mut self.history, &mut turns);
                turns.push(Turn { guess, feedback });
                proof {
                    assert(turn_views(turns@) =~= after.history);
                    assert(after.wf());
                }
                std::mem::swap(&mut self.history, &mut turns);
                Ok(self.status())
            },
        }
    }

    /// Takes the player's move for the turn that is due. A guess is handed
    /// in as by `submit`. Leaving is granted at once and in every state, and
    /// changes nothing.
    pub fn take_turn(&mut self, player: Move) -> (outcome: Outcome)
        ensures
            final(self)@.wf(),
            player is Quit ==> final(self)@ == old(self)@ && outcome is Abandoned,
            player matches Move::Guess(guess) ==> {
                &&& final(self)@ == old(self)@.submit(guess@)
                &&& outcome is Played <==> old(self)@.accepts(guess@)
                &&& outcome matches Outcome::Played(status) ==> status == final(self)@.status()
                &&& outcome matches Outcome::Refused(Rejected::GameOver) ==> old(self)@.status()
                    != Status::AwaitingGuess
                &&& outcome matches Outcome::Refused(Rejected::InvalidInput(reason)) ==> {
                    &&& old(self)@.status() == Status::AwaitingGuess
                    &&& reason@ == if guess@.len() == 0 {
                        EMPTY_GUESS@
                    } else {
                        LENGTH_MISMATCH@
                    }
                }
                &&& outcome !is Abandoned
            },
    {
        proof {
            use_type_invariant(&*self);
        }
        match player {
            Move::Quit => Outcome::Abandoned,
            Move::Guess(guess) => match self.submit(guess) {
                Ok(status) => Outcome::Played(status),
                Err(rejected) => Outcome::Refused(rejected),
            },
        }
    }

    /// The number of pegs in the answer and in every guess.
    pub fn peg_count(&self) -> (pegs: usize)
        ensures
            pegs == self@.peg_count(),
            pegs > 0,
    {
        proof {
            use_type_invariant(self);
        }
        self.answer.len()
    }

    /// The number of turns the player is given.
    pub fn turn_limit(&self) -> (limit: usize)
        ensures
            limit == self@.turn_limit,
    {
        self.turn_limit
    }

    /// The number of completed turns, which is the index of the turn to
    /// come; it never passes the limit.
    pub fn turn_index(&self) -> (index: usize)
        ensures
            index == self@.turn_index(),
            index == self@.history.len(),
            index <= self@.turn_limit,
    {
        proof {
            use_type_invariant(self);
        }
        self.history.len()
    }

    /// The completed turns, oldest first.
    pub fn history(&self) -> (turns: &Vec<Turn>)
        ensures
            turn_views(turns@) == self@.history,
            self@.wf(),
    {
        proof {
            use_type_invariant(self);
        }
        &self.history
    }

    /// The answer, which is shown only once the game is over.
    pub fn revealed_answer(&self) -> (answer: Option<&Vec<ColorPeg>>)
        ensures
            answer is Some <==> self@.status() != Status::AwaitingGuess,
            answer matches Some(pegs) ==> pegs@ == self@.answer,
    {
        match self.status() {
            Status::AwaitingGuess => None,
            _ => Some(&self.answer),
        }
    }
}

/// A guess matches the answer in every position exactly when it is the answer.
pub proof fn lemma_all_exact_is_equal(guess: Seq<ColorPeg>, answer: Seq<ColorPeg>)
    requires
        guess.len() == answer.len(),
    ensures
        exact_matches(guess, answer) <= guess.len(),
        exact_matches(guess, answer) == guess.len() <==> guess == answer,
    decreases guess.len(),
{
    if guess.len() > 0 {
        lemma_all_exact_is_equal(guess.drop_last(), answer.drop_last());
        if guess.drop_last() == answer.drop_last() && guess.last() == answer.last() {
            assert(guess =~= guess.drop_last().push(guess.last()));
            assert(answer =~= answer.drop_last().push(answer.last()));
        }
    } else {
        assert(guess =~= answer);
    }
}

/// A guess handed in changes the history only at its end: the turns played
/// before stay as they were, and at most one turn is added.
pub proof fn lemma_history_append_only(game: GameView, guess: Seq<ColorPeg>)
    ensures
        game.history.is_prefix_of(game.submit(guess).history),
        game.submit(guess).history.len() == game.history.len() + if game.accepts(guess) {
            1nat
        } else {
            0nat
        },
        game.submit(guess).answer == game.answer,
        game.submit(guess).turn_limit == game.turn_limit,
{
    let next = game.submit(guess);
    assert(next.history.subrange(0, game.history.len() as int) =~= game.history);
}

/// What holds of every game still holds after a guess was handed in.
pub proof fn lemma_submit_keeps_wf(game: GameView, guess: Seq<ColorPeg>)
    requires
        game.wf(),
    ensures
        game.submit(guess).wf(),
{
    if game.accepts(guess) {
        lemma_marks_within_pegs(guess, game.answer);
    }
}

/// A guess that matches the answer in every position, taken on any turn
/// before the limit, wins the game at once: the history ends with that turn,
/// however many turns were left.
pub proof fn lemma_winning_guess_wins(game: GameView, guess: Seq<ColorPeg>)
    requires
        game.wf(),
        game.status() == Status::AwaitingGuess,
        guess.len() == game.peg_count(),
        exact_matches(guess, game.answer) == game.peg_count(),
    ensures
        game.turn_index() < game.turn_limit,
        game.submit(guess).status() == Status::Won,
        game.submit(guess).history.len() == game.turn_index() + 1,
        game.submit(guess).wf(),
{
    lemma_submit_keeps_wf(game, guess);
}

/// A game that is over takes no further guess: whatever is handed in, it
/// stays as it is.
pub proof fn lemma_over_is_final(game: GameView, guess: Seq<ColorPeg>)
    requires
        game.status() != Status::AwaitingGuess,
    ensures
        game.submit(guess) == game,
{
}

/// A run of guesses of the right length, none of which matches the answer
/// in every position and which is no longer than the limit, is recorded turn
/// by turn and wins nothing; the game is lost exactly when the run is as long
/// as the limit.
pub proof fn lemma_losing_run(
    answer: Seq<ColorPeg>,
    turn_limit: nat,
    guesses: Seq<Seq<ColorPeg>>,
)
    requires
        0 < answer.len() <= usize::MAX,
        guesses.len() <= turn_limit,
        forall|i: int|
            0 <= i < guesses.len() ==> (#[trigger] guesses[i]).len() == answer.len()
                && exact_matches(guesses[i], answer) != answer.len(),
    ensures
        ({
            let end = GameView::start(answer, turn_limit).play(guesses);
            &&& end.wf()
            &&& end.answer == answer
            &&& end.turn_limit == turn_limit
            &&& end.history.len() == guesses.len()
            &&& forall|i: int| 0 <= i < end.history.len() ==> !end.winning(#[trigger] end.history[i])
            &&& end.status() == if guesses.len() == turn_limit {
                Status::Lost
            } else {
                Status::AwaitingGuess
            }
        }),
    decreases guesses.len(),
{
    if guesses.len() > 0 {
        let earlier = guesses.drop_last();
        lemma_losing_run(answer, turn_limit, earlier);
        let before = GameView::start(answer, turn_limit).play(earlier);
        lemma_submit_keeps_wf(before, guesses.last());
        lemma_marks_within_pegs(guesses.last(), answer);
    }
}

/// As many guesses as the limit allows, none of which matches the answer in
/// every position, end the game lost, with one turn in the history for each.
pub proof fn lemma_turns_used_up_loses(
    answer: Seq<ColorPeg>,
    turn_limit: nat,
    guesses: Seq<Seq<ColorPeg>>,
)
    requires
        0 < answer.len() <= usize::MAX,
        guesses.len() == turn_limit,
        forall|i: int|
            0 <= i < guesses.len() ==> (#[trigger] guesses[i]).len() == answer.len()
                && exact_matches(guesses[i], answer) != answer.len(),
    ensures
        GameView::start(answer, turn_limit).play(guesses).status() == Status::Lost,
        GameView::start(answer, turn_limit).play(guesses).history.len() == turn_limit,
{
    lemma_losing_run(answer, turn_limit, guesses);
}

} // verus!

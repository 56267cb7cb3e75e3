//! Scoring a guess against the answer.
//!
//! A guess earns one *right* mark for every position that holds the answer's
//! colour, and one *wrong* mark for every further peg whose colour occurs
//! elsewhere in the answer. Every peg of the answer pays for at most one mark.

use vstd::prelude::*;

use crate::peg::ColorPeg;

verus! {

/// What `Feedback::new` answers to an empty guess.
pub const EMPTY_GUESS: &'static str = "Guess length was zero.";

/// What `Feedback::new` answers to a guess that is not as long as the answer.
pub const LENGTH_MISMATCH: &'static str = "Guess and answer length were not equal.";

/// How many pegs of `colour` a row holds.
pub open spec fn occurrences(row: Seq<ColorPeg>, colour: ColorPeg) -> nat
    decreases row.len(),
{
    if row.len() == 0 {
        0
    } else {
        occurrences(row.drop_last(), colour) + if row.last() == colour {
            1nat
        } else {
            0nat
        }
    }
}

/// How many pegs of `colour` guess and answer have in common: the guess can
/// claim no more of them than the answer holds.
pub open spec fn shared(guess: Seq<ColorPeg>, answer: Seq<ColorPeg>, colour: ColorPeg) -> nat {
    let g = occurrences(guess, colour);
    let a = occurrences(answer, colour);
    if g <= a {
        g
    } else {
        a
    }
}

/// How many pegs of `colour` the answer still holds once the guess has claimed
/// its share.
pub open spec fn unclaimed(guess: Seq<ColorPeg>, answer: Seq<ColorPeg>, colour: ColorPeg) -> nat {
    (occurrences(answer, colour) - shared(guess, answer, colour)) as nat
}

/// How many pegs guess and answer have in common whatever their position:
/// the sum of `shared` over the seven colours.
pub open spec fn overlap(guess: Seq<ColorPeg>, answer: Seq<ColorPeg>) -> nat {
    shared(guess, answer, ColorPeg::Red) + shared(guess, answer, ColorPeg::Green) + shared(
        guess,
        answer,
        ColorPeg::Yellow,
    ) + shared(guess, answer, ColorPeg::Blue) + shared(guess, answer, ColorPeg::Magenta) + shared(
        guess,
        answer,
        ColorPeg::Cyan,
    ) + shared(guess, answer, ColorPeg::White)
}

/// How many positions hold the same colour in both rows, for rows of one length.
pub open spec fn exact_matches(guess: Seq<ColorPeg>, answer: Seq<ColorPeg>) -> nat
    recommends
        guess.len() == answer.len(),
    decreases guess.len(),
{
    if guess.len() == 0 || answer.len() == 0 {
        0
    } else {
        exact_matches(guess.drop_last(), answer.drop_last()) + if guess.last() == answer.last() {
            1nat
        } else {
            0nat
        }
    }
}

/// How many pegs of the guess have their colour in the answer but stand in the
/// wrong place: the common pegs that are no exact match.
pub open spec fn color_only(guess: Seq<ColorPeg>, answer: Seq<ColorPeg>) -> nat
    recommends
        guess.len() == answer.len(),
{
    (overlap(guess, answer) - exact_matches(guess, answer)) as nat
}

/// Feedback provided to codebreaker by codemaker.
#[derive(Clone, Copy, Debug, PartialEq, Eq, Structural)]
pub struct Feedback {
    /// Number of correct color code pegs in wrong position.
    pub wrong: usize,
    /// Number of correct color code pegs in right position.
    pub right: usize,
}

/// The feedback that a guess earns against an answer of the same length.
pub open spec fn score(guess: Seq<ColorPeg>, answer: Seq<ColorPeg>) -> Feedback
    recommends
        guess.len() == answer.len(),
{
    Feedback {
        wrong: color_only(guess, answer) as usize,
        right: exact_matches(guess, answer) as usize,
    }
}

impl Default for Feedback {
    fn default() -> (feedback: Feedback)
        ensures
            feedback.wrong == 0,
            feedback.right == 0,
    {
        Feedback { wrong: 0, right: 0 }
    }
}

impl Feedback {
    /// Creates a new feedback structure based on the frequency of color code
    /// pegs in the guess and answer.
    ///
    /// # Errors
    ///
    /// - Guess length is zero.
    /// - Guess length is not equal to answer length.
    pub fn new(guess: &[ColorPeg], answer: &[ColorPeg]) -> (outcome: Result<Feedback, &'static str>)
        ensures
            outcome is Ok <==> guess@.len() > 0 && guess@.len() == answer@.len(),
            outcome matches Ok(feedback) ==> {
                &&& feedback == score(guess@, answer@)
                &&& feedback.right == exact_matches(guess@, answer@)
                &&& feedback.wrong == color_only(guess@, answer@)
                &&& feedback.right <= guess@.len()
                &&& feedback.wrong <= guess@.len()
                &&& feedback.right + feedback.wrong <= guess@.len()
                &&& guess@ == answer@ ==> feedback.right == guess@.len() && feedback.wrong == 0
            },
            outcome matches Err(reason) ==> reason@ == if guess@.len() == 0 {
                EMPTY_GUESS@
            } else {
                LENGTH_MISMATCH@
            },
    {
        if guess.len() == 0 {
            return Err(EMPTY_GUESS);
        } else if guess.len() != answer.len() {
            return Err(LENGTH_MISMATCH);
        }
        let pegs = guess.len();

        // how many pegs of each colour the answer has left to pay with
        let mut frequencies: Vec<usize> = vec![0usize; 7];
        let mut wrong: usize = 0;
        let mut right: usize = 0;

        let mut i: usize = 0;
        while i < pegs
            invariant
                i <= pegs,
                pegs == answer@.len(),
                frequencies@.len() == 7,
                forall|slot: int|
                    0 <= slot < 7 ==> #[trigger] frequencies@[slot] == occurrences(
                        answer@.take(i as int),
                        ColorPeg::at(slot),
                    ),
                forall|slot: int| 0 <= slot < 7 ==> #[trigger] frequencies@[slot] <= i,
            decreases pegs - i,
        {
            let slot = answer[i].index();
            proof {
                lemma_occurrences_step(answer@, i as int);
            }
            frequencies.set(slot, frequencies[slot] + 1);
            i += 1;
        }
        assert(answer@.take(pegs as int) =~= answer@);

        // common pegs: each takes one peg of its colour from the answer
        i = 0;
        while i < pegs
            invariant
                i <= pegs,
                pegs == guess@.len(),
                frequencies@.len() == 7,
                forall|slot: int|
                    0 <= slot < 7 ==> #[trigger] frequencies@[slot] == unclaimed(
                        guess@.take(i as int),
                        answer@,
                        ColorPeg::at(slot),
                    ),
                wrong == overlap(guess@.take(i as int), answer@),
                wrong <= i,
            decreases pegs - i,
        {
            let slot = guess[i].index();
            let ghost before = frequencies@;
            proof {
                lemma_overlap_step(guess@, answer@, i as int);
                assert(ColorPeg::at(slot as int) == guess@[i as int]);
            }
            if frequencies[slot] > 0 {
                frequencies.set(slot, frequencies[slot] - 1);
                wrong += 1;
            }
            proof {
                assert forall|other: int| 0 <= other < 7 implies #[trigger] frequencies@[other]
                    == unclaimed(guess@.take(i + 1), answer@, ColorPeg::at(other)) by {
                    if other != slot {
                        assert(frequencies@[other] == before[other]);
                        assert(ColorPeg::at(other) != guess@[i as int]);
                    }
                }
            }
            i += 1;
        }
        assert(guess@.take(pegs as int) =~= guess@);

        // exact matches: each was counted as a common peg above
        i = 0;
        while i < pegs
            invariant
                i <= pegs,
                pegs == guess@.len(),
                pegs == answer@.len(),
                right == exact_matches(guess@.take(i as int), answer@.take(i as int)),
                wrong == overlap(guess@, answer@) - right,
                right <= i,
            decreases pegs - i,
        {
            proof {
                assert(guess@.take(i + 1).drop_last() =~= guess@.take(i as int));
                assert(answer@.take(i + 1).drop_last() =~= answer@.take(i as int));
                lemma_exact_prefix(guess@, answer@, i + 1);
                lemma_exact_within_overlap(guess@, answer@);
            }
            if guess[i] == answer[i] {
                wrong -= 1;
                right += 1;
            }
            i += 1;
        }
        proof {
            assert(guess@.take(pegs as int) =~= guess@);
            assert(answer@.take(pegs as int) =~= answer@);
            lemma_marks_within_pegs(guess@, answer@);
            if guess@ == answer@ {
                lemma_answer_scores_all_exact(answer@);
            }
        }

        Ok(Feedback { wrong, right })
    }
}

/// Extending a row by one peg adds one occurrence of that peg's colour and
/// none of any other.
pub proof fn lemma_occurrences_step(row: Seq<ColorPeg>, i: int)
    requires
        0 <= i < row.len(),
    ensures
        forall|colour: ColorPeg| #[trigger]
            occurrences(row.take(i + 1), colour) == occurrences(row.take(i), colour) + if row[i]
                == colour {
                1nat
            } else {
                0nat
            },
{
    assert(row.take(i + 1).drop_last() =~= row.take(i));
}

/// One more peg of the guess changes what the guess has in common with the
/// answer in the colour of that peg alone, and there only if the answer
/// still holds an unclaimed peg of the colour.
pub proof fn lemma_shared_guess_step(
    guess: Seq<ColorPeg>,
    answer: Seq<ColorPeg>,
    i: int,
    colour: ColorPeg,
)
    requires
        0 <= i < guess.len(),
    ensures
        shared(guess.take(i + 1), answer, colour) == shared(guess.take(i), answer, colour)
            + if guess[i] == colour && unclaimed(guess.take(i), answer, colour) > 0 {
            1nat
        } else {
            0nat
        },
{
    lemma_occurrences_step(guess, i);
}

/// One more peg of the guess is one more common peg if the answer still
/// holds an unclaimed peg of its colour, and claims that peg; otherwise
/// nothing changes.
pub proof fn lemma_overlap_step(guess: Seq<ColorPeg>, answer: Seq<ColorPeg>, i: int)
    requires
        0 <= i < guess.len(),
    ensures
        forall|colour: ColorPeg|
            colour != guess[i] ==> #[trigger] unclaimed(guess.take(i + 1), answer, colour)
                == unclaimed(guess.take(i), answer, colour),
        unclaimed(guess.take(i), answer, guess[i]) > 0 ==> {
            &&& unclaimed(guess.take(i + 1), answer, guess[i]) == unclaimed(
                guess.take(i),
                answer,
                guess[i],
            ) - 1
            &&& overlap(guess.take(i + 1), answer) == overlap(guess.take(i), answer) + 1
        },
        unclaimed(guess.take(i), answer, guess[i]) == 0 ==> {
            &&& unclaimed(guess.take(i + 1), answer, guess[i]) == 0
            &&& overlap(guess.take(i + 1), answer) == overlap(guess.take(i), answer)
        },
{
    assert forall|colour: ColorPeg|
        colour != guess[i] implies #[trigger] unclaimed(guess.take(i + 1), answer, colour)
        == unclaimed(guess.take(i), answer, colour) by {
        lemma_shared_guess_step(guess, answer, i, colour);
    }
    lemma_shared_guess_step(guess, answer, i, ColorPeg::Red);
    lemma_shared_guess_step(guess, answer, i, ColorPeg::Green);
    lemma_shared_guess_step(guess, answer, i, ColorPeg::Yellow);
    lemma_shared_guess_step(guess, answer, i, ColorPeg::Blue);
    lemma_shared_guess_step(guess, answer, i, ColorPeg::Magenta);
    lemma_shared_guess_step(guess, answer, i, ColorPeg::Cyan);
    lemma_shared_guess_step(guess, answer, i, ColorPeg::White);
}

/// Every peg has one of the seven colours.
pub proof fn lemma_occurrences_total(row: Seq<ColorPeg>)
    ensures
        occurrences(row, ColorPeg::Red) + occurrences(row, ColorPeg::Green) + occurrences(
            row,
            ColorPeg::Yellow,
        ) + occurrences(row, ColorPeg::Blue) + occurrences(row, ColorPeg::Magenta) + occurrences(
            row,
            ColorPeg::Cyan,
        ) + occurrences(row, ColorPeg::White) == row.len(),
    decreases row.len(),
{
    if row.len() > 0 {
        lemma_occurrences_total(row.drop_last());
    }
}

/// A further peg on both rows takes nothing from what they have in common
/// of a colour, and adds to it where both pegs have that colour.
pub proof fn lemma_shared_step(guess: Seq<ColorPeg>, answer: Seq<ColorPeg>, colour: ColorPeg)
    requires
        guess.len() > 0,
        answer.len() > 0,
    ensures
        shared(guess, answer, colour) >= shared(guess.drop_last(), answer.drop_last(), colour)
            + if guess.last() == colour && answer.last() == colour {
            1nat
        } else {
            0nat
        },
{
}

/// Every exact match is a common peg.
pub proof fn lemma_exact_within_overlap(guess: Seq<ColorPeg>, answer: Seq<ColorPeg>)
    requires
        guess.len() == answer.len(),
    ensures
        exact_matches(guess, answer) <= overlap(guess, answer),
    decreases guess.len(),
{
    if guess.len() > 0 {
        lemma_exact_within_overlap(guess.drop_last(), answer.drop_last());
        lemma_shared_step(guess, answer, ColorPeg::Red);
        lemma_shared_step(guess, answer, ColorPeg::Green);
        lemma_shared_step(guess, answer, ColorPeg::Yellow);
        lemma_shared_step(guess, answer, ColorPeg::Blue);
        lemma_shared_step(guess, answer, ColorPeg::Magenta);
        lemma_shared_step(guess, answer, ColorPeg::Cyan);
        lemma_shared_step(guess, answer, ColorPeg::White);
    }
}

/// The exact matches among the first `n` positions are exact matches of the
/// whole rows.
pub proof fn lemma_exact_prefix(guess: Seq<ColorPeg>, answer: Seq<ColorPeg>, n: int)
    requires
        guess.len() == answer.len(),
        0 <= n <= guess.len(),
    ensures
        exact_matches(guess.take(n), answer.take(n)) <= exact_matches(guess, answer),
    decreases guess.len() - n,
{
    if n == guess.len() {
        assert(guess.take(n) =~= guess);
        assert(answer.take(n) =~= answer);
    } else {
        assert(guess.take(n + 1).drop_last() =~= guess.take(n));
        assert(answer.take(n + 1).drop_last() =~= answer.take(n));
        lemma_exact_prefix(guess, answer, n + 1);
    }
}

/// The marks of a guess never outnumber its pegs: neither kind does, nor do
/// both together.
pub proof fn lemma_marks_within_pegs(guess: Seq<ColorPeg>, answer: Seq<ColorPeg>)
    requires
        guess.len() == answer.len(),
    ensures
        exact_matches(guess, answer) <= guess.len(),
        color_only(guess, answer) <= guess.len(),
        exact_matches(guess, answer) + color_only(guess, answer) <= guess.len(),
        exact_matches(guess, answer) + color_only(guess, answer) == overlap(guess, answer),
{
    lemma_exact_within_overlap(guess, answer);
    lemma_occurrences_total(guess);
}

/// The answer itself, handed in as the guess, matches in every position and
/// leaves no peg in a wrong place.
pub proof fn lemma_answer_scores_all_exact(answer: Seq<ColorPeg>)
    ensures
        exact_matches(answer, answer) == answer.len(),
        color_only(answer, answer) == 0,
    decreases answer.len(),
{
    lemma_occurrences_total(answer);
    if answer.len() > 0 {
        lemma_answer_scores_all_exact(answer.drop_last());
    }
}

/// Guess and answer can change places: the marks count what the two rows
/// have in common, position by position and colour by colour.
pub proof fn lemma_score_symmetric(guess: Seq<ColorPeg>, answer: Seq<ColorPeg>)
    requires
        guess.len() == answer.len(),
    ensures
        exact_matches(guess, answer) == exact_matches(answer, guess),
        overlap(guess, answer) == overlap(answer, guess),
        color_only(guess, answer) == color_only(answer, guess),
    decreases guess.len(),
{
    if guess.len() > 0 {
        lemma_score_symmetric(guess.drop_last(), answer.drop_last());
    }
}

} // verus!

//! The common pegs of two rows are the pegs of both rows taken as multisets.

use vstd::multiset::Multiset;
use vstd::prelude::*;
use vstd::seq_lib::to_multiset_build;

use crate::feedback::{occurrences, overlap, shared};
use crate::peg::ColorPeg;

verus! {

/// How often a colour occurs in a row is how often the row, taken as a
/// multiset, holds it.
pub proof fn lemma_occurrences_is_count(row: Seq<ColorPeg>, colour: ColorPeg)
    ensures
        occurrences(row, colour) == row.to_multiset().count(colour),
    decreases row.len(),
{
    broadcast use vstd::multiset::group_multiset_axioms;

    if row.len() == 0 {
        vstd::seq_lib::to_multiset_len(row);
        vstd::multiset::lemma_multiset_empty_len(row.to_multiset());
    } else {
        let before = row.drop_last();
        lemma_occurrences_is_count(before, colour);
        to_multiset_build(before, row.last());
        assert(before.push(row.last()) =~= row);
        assert(row.to_multiset() =~= before.to_multiset().insert(row.last()));
        vstd::multiset::lemma_insert_increases_count_by_1(before.to_multiset(), row.last());
        if colour != row.last() {
            vstd::multiset::lemma_insert_other_elements_unchanged(
                before.to_multiset(),
                row.last(),
                colour,
            );
        }
    }
}

/// A multiset of pegs holds as many pegs as it holds of the seven colours
/// together.
pub proof fn lemma_pegs_by_colour(pegs: Multiset<ColorPeg>)
    ensures
        pegs.len() == pegs.count(ColorPeg::Red) + pegs.count(ColorPeg::Green) + pegs.count(
            ColorPeg::Yellow,
        ) + pegs.count(ColorPeg::Blue) + pegs.count(ColorPeg::Magenta) + pegs.count(
            ColorPeg::Cyan,
        ) + pegs.count(ColorPeg::White),
    decreases pegs.len(),
{
    broadcast use vstd::multiset::group_multiset_axioms;

    if pegs.len() == 0 {
        vstd::multiset::lemma_multiset_empty_len(pegs);
    } else {
        let peg = pegs.choose();
        lemma_pegs_by_colour(pegs.remove(peg));
    }
}

/// The pegs that guess and answer have in common are the pegs that both
/// hold when taken as multisets: a colour counts as often as the one that
/// holds less of it holds it.
pub proof fn lemma_overlap_is_intersection(guess: Seq<ColorPeg>, answer: Seq<ColorPeg>)
    ensures
        overlap(guess, answer) == guess.to_multiset().intersection_with(
            answer.to_multiset(),
        ).len(),
{
    broadcast use vstd::multiset::group_multiset_axioms;

    let common = guess.to_multiset().intersection_with(answer.to_multiset());
    lemma_pegs_by_colour(common);
    assert forall|colour: ColorPeg| common.count(colour) == shared(guess, answer, colour) by {
        lemma_occurrences_is_count(guess, colour);
        lemma_occurrences_is_count(answer, colour);
        vstd::multiset::lemma_intersection_count(
            guess.to_multiset(),
            answer.to_multiset(),
            colour,
        );
    }
}

} // verus!

use mastermind::feedback::{EMPTY_GUESS, LENGTH_MISMATCH};
use mastermind::{ColorPeg, Feedback};

use ColorPeg::{Blue, Cyan, Green, Magenta, Red, White, Yellow};

const WHEEL: [ColorPeg; 7] = [Red, Green, Yellow, Blue, Magenta, Cyan, White];

fn rows(length: usize) -> Vec<Vec<ColorPeg>> {
    let mut all: Vec<Vec<ColorPeg>> = vec![Vec::new()];
    for _ in 0..length {
        let mut longer = Vec::new();
        for row in &all {
            for peg in WHEEL {
                let mut next = row.clone();
                next.push(peg);
                longer.push(next);
            }
        }
        all = longer;
    }
    all
}

fn marks(guess: &[ColorPeg], answer: &[ColorPeg]) -> (usize, usize) {
    let feedback = Feedback::new(guess, answer).unwrap();
    (feedback.right, feedback.wrong)
}

#[test]
fn shifted_code_is_all_wrong_place() {
    let guess = [Red, Blue, Green, Yellow];
    let answer = [Blue, Green, Yellow, Red];
    assert_eq!(Feedback::new(&guess, &answer), Ok(Feedback { wrong: 4, right: 0 }));
}

#[test]
fn one_exact_two_shifted_one_absent() {
    // Blue stands in its place, Red and Magenta have changed places, and
    // the answer holds no Yellow: three pegs in common, one of them exact.
    let guess = [Blue, Yellow, Red, Magenta];
    let answer = [Blue, Green, Magenta, Red];
    assert_eq!(marks(&guess, &answer), (1, 2));
}

#[test]
fn second_red_finds_no_red_left() {
    assert_eq!(marks(&[Red, Red], &[Red, Green]), (1, 0));
}

#[test]
fn repeated_colour_in_guess_counts_once_per_answer_peg() {
    assert_eq!(marks(&[Red, Red, Red, Blue], &[Green, Red, Green, Green]), (1, 0));
    assert_eq!(marks(&[Red, Red, Green, Green], &[Green, Red, Red, Cyan]), (1, 2));
    assert_eq!(marks(&[White, White, White], &[Cyan, Cyan, Cyan]), (0, 0));
}

#[test]
fn exact_match_is_not_counted_as_wrong_place_too() {
    assert_eq!(marks(&[Red, Green, Green], &[Green, Green, Blue]), (1, 1));
    assert_eq!(marks(&[Yellow], &[Yellow]), (1, 0));
    assert_eq!(marks(&[Yellow], &[Blue]), (0, 0));
}

#[test]
fn empty_guess_is_refused() {
    assert_eq!(Feedback::new(&[], &[Red]), Err("Guess length was zero."));
    assert_eq!(Feedback::new(&[], &[]), Err(EMPTY_GUESS));
}

#[test]
fn unequal_lengths_are_refused() {
    assert_eq!(
        Feedback::new(&[Red, Blue], &[Red]),
        Err("Guess and answer length were not equal.")
    );
    assert_eq!(Feedback::new(&[Red], &[Red, Blue]), Err(LENGTH_MISMATCH));
    assert_eq!(Feedback::new(&[Red], &[]), Err(LENGTH_MISMATCH));
}

#[test]
fn answer_as_guess_is_all_exact() {
    for length in 1..=4 {
        for answer in rows(length) {
            assert_eq!(marks(&answer, &answer), (length, 0));
        }
    }
    let long = vec![Magenta; 1000];
    assert_eq!(marks(&long, &long), (1000, 0));
}

#[test]
fn marks_never_outnumber_pegs() {
    let all = rows(3);
    for guess in &all {
        for answer in &all {
            let (right, wrong) = marks(guess, answer);
            assert!(right <= 3);
            assert!(wrong <= 3);
            assert!(right + wrong <= 3);
        }
    }
}

#[test]
fn marks_are_exact_matches_and_remaining_overlap() {
    let all = rows(3);
    for guess in &all {
        for answer in &all {
            let exact = (0..3).filter(|&i| guess[i] == answer[i]).count();
            let mut overlap = 0;
            for peg in WHEEL {
                let in_guess = guess.iter().filter(|&&p| p == peg).count();
                let in_answer = answer.iter().filter(|&&p| p == peg).count();
                overlap += in_guess.min(in_answer);
            }
            assert_eq!(marks(guess, answer), (exact, overlap - exact));
        }
    }
}

#[test]
fn guess_and_answer_can_change_places() {
    let all = rows(3);
    for guess in &all {
        for answer in &all {
            assert_eq!(marks(guess, answer), marks(answer, guess));
        }
    }
}

#[test]
fn all_right_exactly_for_the_answer() {
    let all = rows(3);
    for guess in &all {
        for answer in &all {
            assert_eq!(marks(guess, answer).0 == 3, guess == answer);
        }
    }
}

#[test]
fn default_feedback_has_no_marks() {
    assert_eq!(Feedback::default(), Feedback { wrong: 0, right: 0 });
}

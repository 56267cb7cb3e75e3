use mastermind::code::{random_code, random_peg};
use mastermind::{ColorPeg, Feedback, Key, Reaction, Session, Settings, Status};

use ColorPeg::{Green, Red, White};

fn press(session: Session, keys: &[Key]) -> (Session, Reaction) {
    let mut session = session;
    let mut reaction = Reaction::Redraw;
    for key in keys {
        let (next, said) = session.press(*key);
        session = next;
        reaction = said;
    }
    (session, reaction)
}

#[test]
fn no_sitting_on_an_empty_answer() {
    assert!(Session::new(Vec::new(), 10).is_none());
}

#[test]
fn a_sitting_starts_with_a_blank_draft() {
    let session = Session::new(vec![Red, Green, Red], 8).unwrap();
    assert_eq!(session.draft().pegs(), &vec![White, White, White]);
    assert_eq!(session.draft().cursor(), 0);
    assert_eq!(session.game().status(), Status::AwaitingGuess);
    assert!(session.game().history().is_empty());
}

#[test]
fn arrows_edit_the_draft_and_ask_for_a_redraw() {
    let session = Session::new(vec![Red, Green, Red], 8).unwrap();
    let (session, reaction) = press(session, &[Key::Down]);
    assert_eq!(reaction, Reaction::Redraw);
    assert_eq!(session.draft().pegs(), &vec![Red, White, White]);
    let (session, reaction) = press(session, &[Key::Right, Key::Up, Key::Left, Key::Left]);
    assert_eq!(reaction, Reaction::Redraw);
    assert_eq!(session.draft().pegs(), &vec![Red, ColorPeg::Cyan, White]);
    assert_eq!(session.draft().cursor(), 2);
    assert!(session.game().history().is_empty());
}

#[test]
fn unknown_keys_change_nothing_and_ask_for_a_redraw() {
    let session = Session::new(vec![Red, Green, Red], 8).unwrap();
    let (session, reaction) = press(session, &[Key::Down, Key::Other, Key::Char('x')]);
    assert_eq!(reaction, Reaction::Redraw);
    assert_eq!(session.draft().pegs(), &vec![Red, White, White]);
    assert_eq!(session.draft().cursor(), 0);
    assert!(session.game().history().is_empty());
}

#[test]
fn handing_in_records_the_draft_and_lays_out_a_blank_one() {
    let session = Session::new(vec![Red, Green, Red], 8).unwrap();
    let (session, reaction) = press(session, &[Key::Down, Key::Right, Key::Char('\n')]);
    assert_eq!(reaction, Reaction::Redraw);
    let history = session.game().history();
    assert_eq!(history.len(), 1);
    assert_eq!(history[0].guess, vec![Red, White, White]);
    assert_eq!(history[0].feedback, Feedback { right: 1, wrong: 0 });
    assert_eq!(session.draft().pegs(), &vec![White, White, White]);
    assert_eq!(session.draft().cursor(), 0);
}

#[test]
fn the_right_guess_finishes_the_sitting_won() {
    let session = Session::new(vec![Red, Green, Red], 8).unwrap();
    let keys = [
        Key::Down,
        Key::Right,
        Key::Down,
        Key::Down,
        Key::Right,
        Key::Down,
        Key::Char(' '),
    ];
    let (session, reaction) = press(session, &keys);
    assert_eq!(reaction, Reaction::Finish(Status::Won));
    assert_eq!(session.game().status(), Status::Won);
    assert_eq!(session.game().history().len(), 1);
    assert_eq!(session.game().revealed_answer(), Some(&vec![Red, Green, Red]));
}

#[test]
fn the_last_miss_finishes_the_sitting_lost() {
    let session = Session::new(vec![Red, Green, Red], 3).unwrap();
    let (session, reaction) = press(session, &[Key::Char('\n'), Key::Char('\n')]);
    assert_eq!(reaction, Reaction::Redraw);
    let (session, reaction) = press(session, &[Key::Char('\n')]);
    assert_eq!(reaction, Reaction::Finish(Status::Lost));
    assert_eq!(session.game().history().len(), 3);
}

#[test]
fn a_finished_sitting_stays_finished() {
    let session = Session::new(vec![Red], 1).unwrap();
    let (session, reaction) = press(session, &[Key::Char('\n')]);
    assert_eq!(reaction, Reaction::Finish(Status::Lost));
    for key in [Key::Down, Key::Char('\n'), Key::Other, Key::Left] {
        let (after, reaction) = press(Session::new(vec![Red], 0).unwrap(), &[key]);
        assert_eq!(reaction, Reaction::Finish(Status::Lost));
        assert!(after.game().history().is_empty());
        assert_eq!(after.draft().pegs(), &vec![White]);
    }
    let (session, reaction) = press(session, &[Key::Down, Key::Char('\n')]);
    assert_eq!(reaction, Reaction::Finish(Status::Lost));
    assert_eq!(session.game().history().len(), 1);
}

#[test]
fn leaving_is_granted_at_once_and_changes_nothing() {
    for quit in [Key::Char('q'), Key::Ctrl('c'), Key::Ctrl('d')] {
        let session = Session::new(vec![Red, Green, Red], 2).unwrap();
        let (session, reaction) = press(session, &[quit]);
        assert_eq!(reaction, Reaction::Quit);
        assert!(session.game().history().is_empty());

        let (session, _) = press(session, &[Key::Char('\n'), Key::Down, Key::Right]);
        let history = session.game().history().clone();
        let (session, reaction) = press(session, &[quit]);
        assert_eq!(reaction, Reaction::Quit);
        assert_eq!(session.game().history(), &history);
        assert_eq!(session.draft().pegs(), &vec![Red, White, White]);
        assert_eq!(session.draft().cursor(), 1);

        let (session, _) = press(session, &[Key::Char('\n')]);
        let (session, reaction) = press(session, &[quit]);
        assert_eq!(reaction, Reaction::Quit);
        assert_eq!(session.game().history().len(), 2);
        assert_eq!(session.game().status(), Status::Lost);
    }
}

#[test]
fn settings_are_held_to_their_bounds() {
    for pegs in 0..=20 {
        for guesses in 0..=20 {
            let settings = Settings::new(pegs, guesses);
            let within = (3..=6).contains(&pegs) && (8..=12).contains(&guesses);
            assert_eq!(settings.is_some(), within);
            if let Some(settings) = settings {
                assert_eq!(settings.pegs(), pegs);
                assert_eq!(settings.guesses(), guesses);
            }
        }
    }
    assert!(Settings::new(255, 255).is_none());
}

#[test]
fn settings_default_to_four_pegs_and_ten_guesses() {
    let settings = Settings::default();
    assert_eq!(settings.pegs(), 4);
    assert_eq!(settings.guesses(), 10);
}

#[test]
fn a_started_sitting_has_the_numbers_asked_for() {
    for pegs in 3..=6 {
        for guesses in 8..=12 {
            let session = Session::start(&Settings::new(pegs, guesses).unwrap());
            assert_eq!(session.game().peg_count(), pegs as usize);
            assert_eq!(session.game().turn_limit(), guesses as usize);
            assert_eq!(session.game().status(), Status::AwaitingGuess);
            assert!(session.game().history().is_empty());
            assert!(session.game().revealed_answer().is_none());
            assert_eq!(session.draft().pegs(), &vec![White; pegs as usize]);
        }
    }
}

#[test]
fn a_random_code_has_the_length_asked_for() {
    for pegs in 0..20 {
        assert_eq!(random_code(pegs).len(), pegs);
    }
}

#[test]
fn random_pegs_are_not_all_the_same() {
    let first = random_peg();
    let code = random_code(400);
    assert!(code.iter().any(|peg| *peg != first));
    assert!(!code.iter().all(|peg| *peg == White));
}

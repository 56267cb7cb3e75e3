use mastermind::board::{
    board, digit_char, header, verdict, write_decimal, write_two_digits, INSTRUCTIONS,
};
use mastermind::render::{concatenate, paint, COLOR_PEG, FEEDBACK_PEG};
use mastermind::{ColorPeg, Draft, Command, Feedback, Game, Key, Session, Status, Tint};

use ColorPeg::{Blue, Cyan, Green, Magenta, Red, White, Yellow};

const BLACK_MARK: &str = "\u{1b}[38;5;0m\u{25c9}\u{1b}[m";
const WHITE_MARK: &str = "\u{1b}[38;5;7m\u{25c9}\u{1b}[m";
const RED_PEG: &str = "\u{1b}[38;5;1m\u{25cf}\u{1b}[m";
const GREEN_PEG: &str = "\u{1b}[38;5;2m\u{25cf}\u{1b}[m";
const WHITE_PEG: &str = "\u{1b}[38;5;7m\u{25cf}\u{1b}[m";

#[test]
fn glyphs_are_a_disc_and_a_fisheye() {
    assert_eq!(COLOR_PEG, "●");
    assert_eq!(FEEDBACK_PEG, "◉");
}

#[test]
fn a_peg_is_a_disc_in_its_colour() {
    assert_eq!(Red.to_string(), RED_PEG);
    assert_eq!(Green.to_string(), "\u{1b}[38;5;2m●\u{1b}[m");
    assert_eq!(Yellow.to_string(), "\u{1b}[38;5;3m●\u{1b}[m");
    assert_eq!(Blue.to_string(), "\u{1b}[38;5;4m●\u{1b}[m");
    assert_eq!(Magenta.to_string(), "\u{1b}[38;5;5m●\u{1b}[m");
    assert_eq!(Cyan.to_string(), "\u{1b}[38;5;6m●\u{1b}[m");
    assert_eq!(White.to_string(), WHITE_PEG);
}

#[test]
fn pegs_have_the_colours_of_their_names() {
    assert_eq!(Red.color(), Tint::Red);
    assert_eq!(Green.color(), Tint::Green);
    assert_eq!(Yellow.color(), Tint::Yellow);
    assert_eq!(Blue.color(), Tint::Blue);
    assert_eq!(Magenta.color(), Tint::Magenta);
    assert_eq!(Cyan.color(), Tint::Cyan);
    assert_eq!(White.color(), Tint::White);
}

#[test]
fn paint_agrees_with_the_terminal_library() {
    let reset = format!("{}", termion::style::Reset);
    assert_eq!(reset, "\u{1b}[m");
    let expected = [
        (Tint::Black, format!("{}", termion::color::Fg(termion::color::Black))),
        (Tint::Red, format!("{}", termion::color::Fg(termion::color::Red))),
        (Tint::Green, format!("{}", termion::color::Fg(termion::color::Green))),
        (Tint::Yellow, format!("{}", termion::color::Fg(termion::color::Yellow))),
        (Tint::Blue, format!("{}", termion::color::Fg(termion::color::Blue))),
        (Tint::Magenta, format!("{}", termion::color::Fg(termion::color::Magenta))),
        (Tint::Cyan, format!("{}", termion::color::Fg(termion::color::Cyan))),
        (Tint::White, format!("{}", termion::color::Fg(termion::color::White))),
    ];
    for (number, (tint, sequence)) in expected.iter().enumerate() {
        assert_eq!(sequence, &format!("\u{1b}[38;5;{}m", number));
        assert_eq!(paint(*tint, "x"), format!("{}x{}", sequence, reset));
        assert_eq!(paint(*tint, ""), format!("{}{}", sequence, reset));
    }
}

#[test]
fn feedback_shows_black_marks_then_white_marks() {
    assert_eq!(Feedback { right: 0, wrong: 0 }.to_string(), "");
    assert_eq!(Feedback { right: 1, wrong: 0 }.to_string(), BLACK_MARK);
    assert_eq!(Feedback { right: 0, wrong: 1 }.to_string(), WHITE_MARK);
    assert_eq!(
        Feedback { right: 2, wrong: 1 }.to_string(),
        format!("{} {} {}", BLACK_MARK, BLACK_MARK, WHITE_MARK)
    );
    assert_eq!(
        Feedback { right: 1, wrong: 3 }.to_string(),
        format!("{} {} {} {}", BLACK_MARK, WHITE_MARK, WHITE_MARK, WHITE_MARK)
    );
}

#[test]
fn parts_are_written_out_in_a_row() {
    assert_eq!(concatenate(&Vec::new()), "");
    let parts = vec![String::from("ab"), String::new(), String::from("c")];
    assert_eq!(concatenate(&parts), "abc");
}

#[test]
fn digits_are_written_in_decimal() {
    for value in 0..10 {
        assert_eq!(digit_char(value).to_string(), format!("{}", value));
    }
    for number in [0, 1, 9, 10, 11, 42, 99, 100, 101, 1000, 65535, 1234567890, usize::MAX] {
        let mut text = String::from("n=");
        write_decimal(&mut text, number);
        assert_eq!(text, format!("n={}", number));
    }
}

#[test]
fn turn_numbers_have_at_least_two_digits() {
    for number in [0, 1, 9, 10, 12, 99, 100, 4711] {
        let mut text = String::from("#");
        write_two_digits(&mut text, number);
        assert_eq!(text, format!("#{:0>2}", number));
    }
    let mut text = String::new();
    write_two_digits(&mut text, 7);
    assert_eq!(text, "07");
}

#[test]
fn the_header_clears_the_screen_and_shows_the_instructions() {
    let expected = format!(
        "{}{}{}\r\n",
        termion::clear::All,
        termion::cursor::Goto(1, 1),
        INSTRUCTIONS
    );
    assert_eq!(header(), expected);
    assert!(header().starts_with("\u{1b}[2J\u{1b}[1;1H╔═"));
    assert!(header().ends_with("╝\r\n\r\n"));
    assert_eq!(INSTRUCTIONS.lines().count(), 8);
    assert!(INSTRUCTIONS.contains("║ q   | quit the game              ║\r\n"));
}

#[test]
fn an_empty_board_shows_only_the_draft() {
    let draft = Draft::new(3).unwrap();
    let expected = format!("[ {} {} {} ]\r\n  ^      \r\n", WHITE_PEG, WHITE_PEG, WHITE_PEG);
    assert_eq!(board(&Vec::new(), Some(&draft)), expected);
    assert_eq!(board(&Vec::new(), None), "");
}

#[test]
fn the_caret_stands_under_the_cursor() {
    let mut draft = Draft::new(4).unwrap();
    draft.apply(Command::MoveRight);
    draft.apply(Command::MoveRight);
    draft.apply(Command::ShiftDown);
    let expected = format!(
        "[ {} {} {} {} ]\r\n      ^    \r\n",
        WHITE_PEG, WHITE_PEG, RED_PEG, WHITE_PEG
    );
    assert_eq!(board(&Vec::new(), Some(&draft)), expected);
}

#[test]
fn the_board_lists_the_turns_before_the_draft() {
    let mut game = Game::new(vec![Red, Green], 12).unwrap();
    game.submit(vec![Green, Green]).unwrap();
    game.submit(vec![Green, Red]).unwrap();
    let draft = Draft::new(2).unwrap();
    let first = format!("Guess 01: [ {} {} ] {}\r\n", GREEN_PEG, GREEN_PEG, BLACK_MARK);
    let second =
        format!("Guess 02: [ {} {} ] {} {}\r\n", GREEN_PEG, RED_PEG, WHITE_MARK, WHITE_MARK);
    let prompt = format!("[ {} {} ]\r\n  ^    \r\n", WHITE_PEG, WHITE_PEG);
    assert_eq!(
        board(game.history(), Some(&draft)),
        format!("{}{}\r\n{}", first, second, prompt)
    );
    assert_eq!(board(game.history(), None), format!("{}{}\r\n", first, second));
}

#[test]
fn turn_numbers_go_past_nine() {
    let mut game = Game::new(vec![Red], 12).unwrap();
    for _ in 0..11 {
        game.submit(vec![White]).unwrap();
    }
    let text = board(game.history(), None);
    let lines: Vec<&str> = text.split("\r\n").collect();
    assert_eq!(lines.len(), 13);
    assert_eq!(lines[0], format!("Guess 01: [ {} ] ", WHITE_PEG));
    assert_eq!(lines[8], format!("Guess 09: [ {} ] ", WHITE_PEG));
    assert_eq!(lines[9], format!("Guess 10: [ {} ] ", WHITE_PEG));
    assert_eq!(lines[10], format!("Guess 11: [ {} ] ", WHITE_PEG));
    assert_eq!(lines[11], "");
    assert_eq!(lines[12], "");
}

#[test]
fn the_screen_of_a_sitting_drops_the_draft_at_the_end() {
    let session = Session::new(vec![Red], 2).unwrap();
    assert_eq!(session.screen(), format!("[ {} ]\r\n  ^  \r\n", WHITE_PEG));
    let (session, _) = session.press(Key::Char('\n'));
    let turn = format!("Guess 01: [ {} ] \r\n", WHITE_PEG);
    assert_eq!(session.screen(), format!("{}\r\n[ {} ]\r\n  ^  \r\n", turn, WHITE_PEG));
    let (session, _) = session.press(Key::Down);
    let (session, _) = session.press(Key::Char('\n'));
    let won = format!("Guess 02: [ {} ] {}\r\n", RED_PEG, BLACK_MARK);
    assert_eq!(session.screen(), format!("{}{}\r\n", turn, won));
}

#[test]
fn the_verdict_names_the_end() {
    assert_eq!(verdict(Status::Won), "Congratulations, you won!\r\n");
    assert_eq!(verdict(Status::Lost), "Sorry, you lost!\r\n");
    assert_eq!(verdict(Status::AwaitingGuess), "");
}

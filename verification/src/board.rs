//! The screen: the instructions, the turns played, and the guess under
//! construction with its cursor, laid out as text for a terminal.

use termion::{clear, cursor};
use vstd::prelude::*;
use vstd::string::StringExecFns;

use crate::draft::{Draft, DraftView};
use crate::game::{turn_views, Status, Turn, TurnView};
use crate::peg::ColorPeg;
use crate::render::{joined, texts};
use crate::session::Session;

verus! {

/// What the keys do.
pub const INSTRUCTIONS: &'static str = "╔══════════════════════════════════╗\r\n\
                                        ╟----------- Mastermind -----------╢\r\n\
                                        ╠══════════════════════════════════╣\r\n\
                                        ║ ◀ ▶ | move cursor left and right ║\r\n\
                                        ║ ▼ ▲ | shuffle through colors     ║\r\n\
                                        ║ ↵   | submit guess               ║\r\n\
                                        ║ q   | quit the game              ║\r\n\
                                        ╚══════════════════════════════════╝\r\n\
                                        ";

/// What is said to the player who found the answer.
pub const WON: &'static str = "Congratulations, you won!\r\n";

/// What is said to the player who ran out of turns.
pub const LOST: &'static str = "Sorry, you lost!\r\n";

/// The character for a digit.
pub open spec fn digit(value: nat) -> char {
    if value == 0 {
        '0'
    } else if value == 1 {
        '1'
    } else if value == 2 {
        '2'
    } else if value == 3 {
        '3'
    } else if value == 4 {
        '4'
    } else if value == 5 {
        '5'
    } else if value == 6 {
        '6'
    } else if value == 7 {
        '7'
    } else if value == 8 {
        '8'
    } else {
        '9'
    }
}

/// A number written in decimal digits.
pub open spec fn decimal(number: nat) -> Seq<char>
    decreases number,
{
    if number < 10 {
        seq![digit(number)]
    } else {
        decimal(number / 10).push(digit(number % 10))
    }
}

/// A number written in at least two decimal digits, with a zero in front
/// where it has but one.
pub open spec fn two_digits(number: nat) -> Seq<char> {
    if number < 10 {
        seq!['0', digit(number)]
    } else {
        decimal(number)
    }
}

/// The escape sequence that clears the whole screen.
pub open spec fn clear_sequence() -> Seq<char> {
    seq!['\x1b', '[', '2', 'J']
}

/// The escape sequence that moves the cursor to a column and a row, both
/// counted from one.
pub open spec fn goto_sequence(column: nat, row: nat) -> Seq<char> {
    seq!['\x1b', '['] + decimal(row) + seq![';'] + decimal(column) + seq!['H']
}

/// The escape sequence that clears the whole screen.
///
/// Formats `termion::clear::All`, which writes the fixed sequence CSI `2J`.
#[verifier::external_body]
fn clear_all() -> (sequence: String)
    ensures
        sequence@ == clear_sequence(),
{
    format!("{}", clear::All)
}

/// The escape sequence that moves the cursor.
///
/// Formats `termion::cursor::Goto`, which writes CSI, the row in decimal,
/// `;`, the column in decimal and `H`. Its debug assertion refuses column
/// and row both zero, which `requires` keeps out.
#[verifier::external_body]
fn goto(column: u16, row: u16) -> (sequence: String)
    requires
        column != 0 || row != 0,
    ensures
        sequence@ == goto_sequence(column as nat, row as nat),
{
    format!("{}", cursor::Goto(column, row))
}

/// Appends a character to a string: `String::push` of std.
#[verifier::external_body]
fn push_char(text: &mut String, c: char)
    ensures
        final(text)@ == old(text)@.push(c),
{
    text.push(c)
}

/// The character for a digit.
pub fn digit_char(value: usize) -> (c: char)
    requires
        value < 10,
    ensures
        c == digit(value as nat),
{
    match value {
        0 => '0',
        1 => '1',
        2 => '2',
        3 => '3',
        4 => '4',
        5 => '5',
        6 => '6',
        7 => '7',
        8 => '8',
        _ => '9',
    }
}

/// Appends a number in decimal digits.
pub fn write_decimal(text: &mut String, number: usize)
    ensures
        final(text)@ == old(text)@ + decimal(number as nat),
    decreases number,
{
    if number >= 10 {
        write_decimal(text, number / 10);
    }
    push_char(text, digit_char(number % 10));
    proof {
        let before = old(text)@;
        if number >= 10 {
            assert(text@ =~= before + decimal(number as nat));
        } else {
            assert(text@ =~= before + decimal(number as nat));
        }
    }
}

/// Appends a number in at least two decimal digits.
pub fn write_two_digits(text: &mut String, number: usize)
    ensures
        final(text)@ == old(text)@ + two_digits(number as nat),
{
    if number < 10 {
        push_char(text, '0');
        push_char(text, digit_char(number));
        proof {
            assert(text@ =~= old(text)@ + two_digits(number as nat));
        }
    } else {
        write_decimal(text, number);
    }
}

/// The top of the screen: the screen is cleared, the cursor goes to the
/// upper left corner, and the instructions follow.
pub open spec fn header_text() -> Seq<char> {
    clear_sequence() + goto_sequence(1, 1) + INSTRUCTIONS@ + "\r\n"@
}

/// The top of the screen.
pub fn header() -> (text: String)
    ensures
        text@ == header_text(),
{
    let mut text = clear_all();
    let corner = goto(1, 1);
    text.append(corner.as_str());
    text.append(INSTRUCTIONS);
    text.append("\r\n");
    text
}

/// A row of pegs: the pegs with a blank between each two.
pub open spec fn row_text(pegs: Seq<ColorPeg>) -> Seq<char> {
    joined(pegs.map_values(|peg: ColorPeg| peg.text()), " "@)
}

/// A row of pegs.
pub fn row(pegs: &Vec<ColorPeg>) -> (text: String)
    ensures
        text@ == row_text(pegs@),
{
    let mut parts: Vec<String> = Vec::new();
    let mut i: usize = 0;
    while i < pegs.len()
        invariant
            i <= pegs@.len(),
            parts@.len() == i,
            forall|k: int| 0 <= k < i ==> (#[trigger] parts@[k])@ == pegs@[k].text(),
        decreases pegs@.len() - i,
    {
        parts.push(pegs[i].to_string());
        i += 1;
    }
    proof {
        assert(texts(parts@) =~= pegs@.map_values(|peg: ColorPeg| peg.text()));
    }
    crate::render::join(&parts, " ")
}

/// The line of a completed turn: its number, its guess and its feedback.
pub open spec fn turn_text(number: nat, turn: TurnView) -> Seq<char> {
    "Guess "@ + two_digits(number) + ": [ "@ + row_text(turn.guess) + " ] "@
        + turn.feedback.text() + "\r\n"@
}

/// The lines of the completed turns, numbered from one.
pub open spec fn history_text(history: Seq<TurnView>) -> Seq<char>
    decreases history.len(),
{
    if history.len() == 0 {
        Seq::empty()
    } else {
        history_text(history.drop_last()) + turn_text(history.len(), history.last())
    }
}

/// The marks under a row of pegs: a caret under the peg at the cursor and
/// a blank under every other.
pub open spec fn cursor_marks(pegs: nat, cursor: nat) -> Seq<Seq<char>> {
    Seq::new(
        pegs,
        |i: int|
            if i == cursor {
                "^"@
            } else {
                " "@
            },
    )
}

/// The guess under construction: its pegs in brackets, and under them the
/// caret that shows the cursor.
pub open spec fn draft_text(draft: DraftView) -> Seq<char> {
    "[ "@ + row_text(draft.pegs) + " ]\r\n"@ + "  "@ + joined(
        cursor_marks(draft.pegs.len(), draft.cursor),
        " "@,
    ) + "  \r\n"@
}

/// The board: the completed turns, an empty line if there are any, and the
/// guess under construction if there is one.
pub open spec fn board_text(history: Seq<TurnView>, draft: Option<DraftView>) -> Seq<char> {
    history_text(history) + if history.len() > 0 {
        "\r\n"@
    } else {
        Seq::empty()
    } + match draft {
        Some(d) => draft_text(d),
        None => Seq::empty(),
    }
}

/// Appends the line of a completed turn.
pub fn write_turn(text: &mut String, number: usize, turn: &Turn)
    ensures
        final(text)@ == old(text)@ + turn_text(number as nat, turn@),
{
    let ghost before = text@;
    text.append("Guess ");
    write_two_digits(text, number);
    text.append(": [ ");
    let pegs = row(&turn.guess);
    text.append(pegs.as_str());
    text.append(" ] ");
    let marks = turn.feedback.to_string();
    text.append(marks.as_str());
    text.append("\r\n");
    proof {
        assert(text@ =~= before + turn_text(number as nat, turn@));
    }
}

/// Appends the guess under construction.
pub fn write_draft(text: &mut String, draft: &Draft)
    ensures
        final(text)@ == old(text)@ + draft_text(draft@),
{
    let ghost before = text@;
    let pegs = draft.pegs();
    let cursor = draft.cursor();
    text.append("[ ");
    let colours = row(pegs);
    text.append(colours.as_str());
    text.append(" ]\r\n");
    let mut marks: Vec<String> = Vec::new();
    let mut i: usize = 0;
    while i < pegs.len()
        invariant
            i <= pegs@.len(),
            marks@.len() == i,
            forall|k: int|
                0 <= k < i ==> (#[trigger] marks@[k])@ == cursor_marks(
                    pegs@.len(),
                    cursor as nat,
                )[k],
        decreases pegs@.len() - i,
    {
        if i == cursor {
            marks.push(String::from_str("^"));
        } else {
            marks.push(String::from_str(" "));
        }
        i += 1;
    }
    proof {
        assert(texts(marks@) =~= cursor_marks(pegs@.len(), cursor as nat));
    }
    text.append("  ");
    let carets = crate::render::join(&marks, " ");
    text.append(carets.as_str());
    text.append("  \r\n");
    proof {
        assert(text@ =~= before + draft_text(draft@));
    }
}

/// The board of completed turns, with the guess under construction if one
/// is given.
pub fn board(history: &Vec<Turn>, draft: Option<&Draft>) -> (text: String)
    ensures
        text@ == board_text(
            turn_views(history@),
            match draft {
                Some(d) => Some(d@),
                None => None,
            },
        ),
{
    let mut text = String::new();
    let ghost turns = turn_views(history@);
    let mut i: usize = 0;
    while i < history.len()
        invariant
            i <= history@.len(),
            turns == turn_views(history@),
            text@ == history_text(turns.take(i as int)),
        decreases history@.len() - i,
    {
        proof {
            let next = turns.take(i + 1);
            assert(next.drop_last() =~= turns.take(i as int));
            assert(next.last() == history@[i as int]@);
        }
        write_turn(&mut text, i + 1, &history[i]);
        i += 1;
    }
    proof {
        assert(turns.take(i as int) =~= turns);
    }
    if history.len() != 0 {
        text.append("\r\n");
    }
    match draft {
        Some(d) => write_draft(&mut text, d),
        None => {},
    }
    proof {
        assert(text@ =~= board_text(
            turns,
            match draft {
                Some(d) => Some(d@),
                None => None,
            },
        ));
    }
    text
}

/// What is said at the end of a game, and nothing while it goes on.
pub open spec fn verdict_text(status: Status) -> Seq<char> {
    match status {
        Status::Won => WON@,
        Status::Lost => LOST@,
        Status::AwaitingGuess => Seq::empty(),
    }
}

/// What is said at the end of a game.
pub fn verdict(status: Status) -> (text: String)
    ensures
        text@ == verdict_text(status),
{
    match status {
        Status::Won => String::from_str(WON),
        Status::Lost => String::from_str(LOST),
        Status::AwaitingGuess => String::new(),
    }
}

impl Session {
    /// The board of the sitting: the completed turns and, while the game
    /// awaits a guess, the guess under construction.
    pub fn screen(&self) -> (text: String)
        ensures
            text@ == board_text(
                self@.game.history,
                if self@.game.status() == Status::AwaitingGuess {
                    Some(self@.draft)
                } else {
                    None
                },
            ),
    {
        let game = self.game();
        match game.status() {
            Status::AwaitingGuess => board(game.history(), Some(self.draft())),
            _ => board(game.history(), None),
        }
    }
}

} // verus!

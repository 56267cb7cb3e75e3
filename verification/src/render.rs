//! The board as text: pegs and marks in colour, ready for a terminal.

use itertools::Itertools;
use termion::{color, style};
use vstd::prelude::*;
use vstd::string::StringExecFns;

use crate::feedback::Feedback;
use crate::peg::ColorPeg;

verus! {

/// Color code pegs for hole guessing (will be colored).
pub const COLOR_PEG: &'static str = "\u{25cf}";

/// Feedback peg for indicating correct color code peg placed in right/wrong
/// position with black/white colors, respectively.
pub const FEEDBACK_PEG: &'static str = "\u{25c9}";

/// The eight standard ANSI colors.
#[derive(Clone, Copy, Debug, PartialEq, Eq, Structural)]
pub enum Tint {
    Black,
    Red,
    Green,
    Yellow,
    Blue,
    Magenta,
    Cyan,
    White,
}

impl Tint {
    /// The digit that stands for the colour in an escape sequence.
    pub open spec fn digit(self) -> char {
        match self {
            Tint::Black => '0',
            Tint::Red => '1',
            Tint::Green => '2',
            Tint::Yellow => '3',
            Tint::Blue => '4',
            Tint::Magenta => '5',
            Tint::Cyan => '6',
            Tint::White => '7',
        }
    }

    /// The escape sequence that turns the text that follows to the colour.
    pub open spec fn foreground(self) -> Seq<char> {
        seq!['\x1b', '[', '3', '8', ';', '5', ';', self.digit(), 'm']
    }
}

/// The escape sequence that ends all colour and style.
pub open spec fn reset_sequence() -> Seq<char> {
    seq!['\x1b', '[', 'm']
}

/// The texts of a list of strings.
pub open spec fn texts(parts: Seq<String>) -> Seq<Seq<char>> {
    parts.map_values(|part: String| part@)
}

/// The parts with the separator between each two of them, as one text.
pub open spec fn joined(parts: Seq<Seq<char>>, separator: Seq<char>) -> Seq<char>
    decreases parts.len(),
{
    if parts.len() == 0 {
        Seq::empty()
    } else if parts.len() == 1 {
        parts[0]
    } else {
        joined(parts.drop_last(), separator) + separator + parts.last()
    }
}

/// The parts with the separator put between each two of them.
pub open spec fn interspersed(parts: Seq<Seq<char>>, separator: Seq<char>) -> Seq<Seq<char>>
    decreases parts.len(),
{
    if parts.len() <= 1 {
        parts
    } else {
        interspersed(parts.drop_last(), separator).push(separator).push(parts.last())
    }
}

/// The parts one after the other, as one text.
pub open spec fn concatenated(parts: Seq<Seq<char>>) -> Seq<char>
    decreases parts.len(),
{
    if parts.len() == 0 {
        Seq::empty()
    } else {
        concatenated(parts.drop_last()) + parts.last()
    }
}

/// The escape sequence for a foreground colour.
///
/// Formats `termion::color::Fg` of the colour's type in termion. Each of
/// those writes the fixed sequence CSI `38;5;`, the colour's number and `m`.
#[verifier::external_body]
fn foreground(tint: Tint) -> (sequence: String)
    ensures
        sequence@ == tint.foreground(),
{
    let named: &dyn color::Color = match tint {
        Tint::Black => &color::Black,
        Tint::Red => &color::Red,
        Tint::Green => &color::Green,
        Tint::Yellow => &color::Yellow,
        Tint::Blue => &color::Blue,
        Tint::Magenta => &color::Magenta,
        Tint::Cyan => &color::Cyan,
        Tint::White => &color::White,
    };
    format!("{}", color::Fg(named))
}

/// The escape sequence that ends all colour and style.
///
/// Formats `termion::style::Reset`, which writes the fixed sequence CSI `m`.
#[verifier::external_body]
fn reset() -> (sequence: String)
    ensures
        sequence@ == reset_sequence(),
{
    format!("{}", style::Reset)
}

/// Puts a separator between each two parts.
///
/// Calls `Itertools::intersperse` of itertools on the parts in their order
/// and collects what it yields: the parts in their order, with a clone of
/// the separator between each two of them.
#[verifier::external_body]
fn intersperse(parts: Vec<String>, separator: String) -> (spread: Vec<String>)
    ensures
        texts(spread@) == interspersed(texts(parts@), separator@),
{
    Itertools::intersperse(parts.into_iter(), separator).collect()
}

/// Joins the parts into one string, with the separator between each two.
///
/// Calls `Itertools::join` of itertools, which writes the first part and
/// then, for each further part, the separator and the part.
#[verifier::external_body]
pub(crate) fn join(parts: &Vec<String>, separator: &str) -> (whole: String)
    ensures
        whole@ == joined(texts(parts@), separator@),
{
    parts.iter().join(separator)
}

impl ColorPeg {
    /// The ANSI color for the peg.
    pub fn color(self) -> (tint: Tint)
        ensures
            tint == self.tint(),
    {
        match self {
            Self::Red => Tint::Red,
            Self::Green => Tint::Green,
            Self::Yellow => Tint::Yellow,
            Self::Blue => Tint::Blue,
            Self::Magenta => Tint::Magenta,
            Self::Cyan => Tint::Cyan,
            Self::White => Tint::White,
        }
    }

    /// The ANSI color of the same name.
    pub open spec fn tint(self) -> Tint {
        match self {
            ColorPeg::Red => Tint::Red,
            ColorPeg::Green => Tint::Green,
            ColorPeg::Yellow => Tint::Yellow,
            ColorPeg::Blue => Tint::Blue,
            ColorPeg::Magenta => Tint::Magenta,
            ColorPeg::Cyan => Tint::Cyan,
            ColorPeg::White => Tint::White,
        }
    }

    /// The peg on a terminal: a disc in the peg's colour.
    pub open spec fn text(self) -> Seq<char> {
        painted(self.tint(), COLOR_PEG@)
    }

    /// The peg as a string for a terminal.
    pub fn to_string(&self) -> (text: String)
        ensures
            text@ == self.text(),
    {
        paint(self.color(), COLOR_PEG)
    }
}

/// A glyph in a colour: the colour's sequence, the glyph, and the reset.
pub open spec fn painted(tint: Tint, glyph: Seq<char>) -> Seq<char> {
    tint.foreground() + glyph + reset_sequence()
}

/// A glyph in a colour, as a string for a terminal.
pub fn paint(tint: Tint, glyph: &str) -> (text: String)
    ensures
        text@ == painted(tint, glyph@),
{
    let mut text = foreground(tint);
    text.append(glyph);
    let end = reset();
    text.append(end.as_str());
    text
}

/// Putting the separator between the parts and writing all out in a row
/// is joining the parts by the separator.
pub proof fn lemma_interspersed_is_joined(parts: Seq<Seq<char>>, separator: Seq<char>)
    ensures
        concatenated(interspersed(parts, separator)) == joined(parts, separator),
    decreases parts.len(),
{
    if parts.len() == 0 {
    } else if parts.len() == 1 {
        assert(concatenated(parts.drop_last()) =~= Seq::<char>::empty());
        assert(Seq::<char>::empty() + parts.last() =~= parts[0]);
    } else {
        let before = interspersed(parts.drop_last(), separator);
        let middle = before.push(separator);
        let whole = middle.push(parts.last());
        lemma_interspersed_is_joined(parts.drop_last(), separator);
        assert(whole.drop_last() =~= middle);
        assert(middle.drop_last() =~= before);
        assert(concatenated(middle) == concatenated(before) + separator);
        assert(concatenated(whole) == concatenated(middle) + parts.last());
    }
}

/// Writes the parts out in a row.
pub fn concatenate(parts: &Vec<String>) -> (whole: String)
    ensures
        whole@ == concatenated(texts(parts@)),
{
    let mut whole = String::new();
    let mut i: usize = 0;
    while i < parts.len()
        invariant
            i <= parts@.len(),
            whole@ == concatenated(texts(parts@).take(i as int)),
        decreases parts@.len() - i,
    {
        proof {
            let next = texts(parts@).take(i + 1);
            assert(next.drop_last() =~= texts(parts@).take(i as int));
            assert(next.last() == parts@[i as int]@);
        }
        whole.append(parts[i].as_str());
        i += 1;
    }
    proof {
        assert(texts(parts@).take(i as int) =~= texts(parts@));
    }
    whole
}

impl Feedback {
    /// The marks of the feedback: a black one for each peg in the right
    /// place, then a white one for each peg in the wrong place.
    pub open spec fn marks(self) -> Seq<Seq<char>> {
        Seq::new(self.right as nat, |i: int| painted(Tint::Black, FEEDBACK_PEG@)) + Seq::new(
            self.wrong as nat,
            |i: int| painted(Tint::White, FEEDBACK_PEG@),
        )
    }

    /// The feedback on a terminal: its marks with a blank between each two.
    pub open spec fn text(self) -> Seq<char> {
        joined(self.marks(), " "@)
    }

    /// The feedback as a string for a terminal.
    pub fn to_string(&self) -> (text: String)
        ensures
            text@ == self.text(),
    {
        let right = paint(Tint::Black, FEEDBACK_PEG);
        let wrong = paint(Tint::White, FEEDBACK_PEG);
        let mut marks: Vec<String> = Vec::new();
        let mut i: usize = 0;
        while i < self.right
            invariant
                i <= self.right,
                marks@.len() == i,
                right@ == painted(Tint::Black, FEEDBACK_PEG@),
                forall|k: int| 0 <= k < i ==> (#[trigger] marks@[k])@ == right@,
            decreases self.right - i,
        {
            marks.push(right.clone());
            i += 1;
        }
        i = 0;
        while i < self.wrong
            invariant
                i <= self.wrong,
                marks@.len() == self.right + i,
                right@ == painted(Tint::Black, FEEDBACK_PEG@),
                wrong@ == painted(Tint::White, FEEDBACK_PEG@),
                forall|k: int| 0 <= k < self.right ==> (#[trigger] marks@[k])@ == right@,
                forall|k: int| self.right <= k < self.right + i ==> (#[trigger] marks@[k])@ == wrong@,
            decreases self.wrong - i,
        {
            marks.push(wrong.clone());
            i += 1;
        }
        proof {
            assert(texts(marks@) =~= self.marks());
            lemma_interspersed_is_joined(self.marks(), " "@);
        }
        let spread = intersperse(marks, String::from_str(" "));
        concatenate(&spread)
    }
}

} // verus!

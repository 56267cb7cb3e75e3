//! The guess under construction: a row of pegs and a cursor, changed key by
//! key until the player hands the row in.

use vstd::arithmetic::div_mod::{lemma_mod_add_multiples_vanish, lemma_mod_self_0, lemma_small_mod};
use vstd::prelude::*;

use crate::peg::ColorPeg;

verus! {

/// A keystroke, as far as the game reads it.
#[derive(Clone, Copy, Debug, PartialEq, Eq, Structural)]
pub enum Key {
    Up,
    Down,
    Left,
    Right,
    /// A character key.
    Char(char),
    /// A character key pressed together with Ctrl.
    Ctrl(char),
    /// Any other key.
    Other,
}

/// What a keystroke asks for.
#[derive(Clone, Copy, Debug, PartialEq, Eq, Structural)]
pub enum Command {
    /// Shift the peg under the cursor up the wheel.
    ShiftUp,
    /// Shift the peg under the cursor down the wheel.
    ShiftDown,
    /// Move the cursor one peg to the left.
    MoveLeft,
    /// Move the cursor one peg to the right.
    MoveRight,
    /// Hand the guess in.
    Submit,
    /// Leave the game.
    Quit,
    /// Nothing.
    Ignore,
}

impl Key {
    /// The meaning of each key: the arrows edit, Enter and Space hand the
    /// guess in, `q`, Ctrl-C and Ctrl-D leave, and no other key does anything.
    pub open spec fn meaning(self) -> Command {
        match self {
            Key::Up => Command::ShiftUp,
            Key::Down => Command::ShiftDown,
            Key::Left => Command::MoveLeft,
            Key::Right => Command::MoveRight,
            Key::Char(c) => if c == '\n' || c == ' ' {
                Command::Submit
            } else if c == 'q' {
                Command::Quit
            } else {
                Command::Ignore
            },
            Key::Ctrl(c) => if c == 'c' || c == 'd' {
                Command::Quit
            } else {
                Command::Ignore
            },
            Key::Other => Command::Ignore,
        }
    }

    /// What the keystroke asks for.
    pub fn command(self) -> (command: Command)
        ensures
            command == self.meaning(),
    {
        match self {
            Key::Up => Command::ShiftUp,
            Key::Down => Command::ShiftDown,
            Key::Left => Command::MoveLeft,
            Key::Right => Command::MoveRight,
            Key::Char('\n') | Key::Char(' ') => Command::Submit,
            Key::Char('q') | Key::Ctrl('c') | Key::Ctrl('d') => Command::Quit,
            _ => Command::Ignore,
        }
    }
}

/// A guess under construction as a mathematical value.
pub struct DraftView {
    /// The pegs chosen so far.
    pub pegs: Seq<ColorPeg>,
    /// The position of the peg that the next shift changes.
    pub cursor: nat,
}

impl DraftView {
    /// What holds of every draft: the cursor stands on a peg.
    pub open spec fn wf(self) -> bool {
        self.cursor < self.pegs.len() <= usize::MAX
    }

    /// The draft at the start of a turn: every peg white, the cursor on the
    /// first.
    pub open spec fn blank(peg_count: nat) -> DraftView {
        DraftView { pegs: Seq::new(peg_count, |i: int| ColorPeg::White), cursor: 0 }
    }

    /// The draft after a command. A shift turns the peg under the cursor one
    /// step on the wheel; a move takes the cursor one peg further and around
    /// the end of the row; the other commands leave the draft as it is.
    pub open spec fn apply(self, command: Command) -> DraftView {
        let pegs = self.pegs.len() as int;
        let cursor = self.cursor as int;
        match command {
            Command::ShiftUp => DraftView {
                pegs: self.pegs.update(cursor, ColorPeg::at(self.pegs[cursor].ordinal() - 1)),
                ..self
            },
            Command::ShiftDown => DraftView {
                pegs: self.pegs.update(cursor, ColorPeg::at(self.pegs[cursor].ordinal() + 1)),
                ..self
            },
            Command::MoveLeft => DraftView { cursor: ((cursor + pegs - 1) % pegs) as nat, ..self },
            Command::MoveRight => DraftView { cursor: ((cursor + pegs + 1) % pegs) as nat, ..self },
            _ => self,
        }
    }
}

/// A guess under construction.
pub struct Draft {
    pegs: Vec<ColorPeg>,
    cursor: usize,
}

impl View for Draft {
    type V = DraftView;

    closed spec fn view(&self) -> DraftView {
        DraftView { pegs: self.pegs@, cursor: self.cursor as nat }
    }
}

impl Draft {
    #[verifier::type_invariant]
    spec fn valid(self) -> bool {
        self@.wf()
    }

    /// A blank draft of the given number of pegs. There is no draft without
    /// pegs.
    pub fn new(peg_count: usize) -> (draft: Option<Draft>)
        ensures
            draft is Some <==> peg_count > 0,
            draft matches Some(d) ==> d@ == DraftView::blank(peg_count as nat) && d@.wf(),
    {
        if peg_count == 0 {
            return None;
        }
        let mut pegs: Vec<ColorPeg> = Vec::new();
        let mut i: usize = 0;
        while i < peg_count
            invariant
                i <= peg_count,
                pegs@.len() == i,
                forall|k: int| 0 <= k < i ==> pegs@[k] == ColorPeg::White,
            decreases peg_count - i,
        {
            pegs.push(ColorPeg::White);
            i += 1;
        }
        let draft = Draft { pegs, cursor: 0 };
        proof {
            assert(draft@.pegs =~= DraftView::blank(peg_count as nat).pegs);
        }
        Some(draft)
    }

    /// The pegs chosen so far.
    pub fn pegs(&self) -> (pegs: &Vec<ColorPeg>)
        ensures
            pegs@ == self@.pegs,
            self@.wf(),
    {
        proof {
            use_type_invariant(self);
        }
        &self.pegs
    }

    /// The pegs chosen so far, as a guess to hand in.
    pub fn to_guess(&self) -> (guess: Vec<ColorPeg>)
        ensures
            guess@ == self@.pegs,
    {
        let mut guess: Vec<ColorPeg> = Vec::new();
        let mut i: usize = 0;
        while i < self.pegs.len()
            invariant
                i <= self.pegs@.len(),
                guess@ == self.pegs@.take(i as int),
            decreases self.pegs@.len() - i,
        {
            guess.push(self.pegs[i]);
            proof {
                assert(self.pegs@.take(i + 1) =~= self.pegs@.take(i as int).push(self.pegs@[i as int]));
            }
            i += 1;
        }
        proof {
            assert(self.pegs@.take(i as int) =~= self.pegs@);
        }
        guess
    }

    /// The position of the peg that the next shift changes.
    pub fn cursor(&self) -> (cursor: usize)
        ensures
            cursor == self@.cursor,
            self@.wf(),
    {
        proof {
            use_type_invariant(self);
        }
        self.cursor
    }

    /// Carries out a command on the draft.
    pub fn apply(&mut self, command: Command)
        ensures
            final(self)@ == old(self)@.apply(command),
            final(self)@.wf(),
            final(self)@.pegs.len() == old(self)@.pegs.len(),
    {
        proof {
            use_type_invariant(&*self);
        }
        let pegs = self.pegs.len();
        let cursor = self.cursor;
        match command {
            Command::ShiftUp => {
                let peg = self.pegs[cursor].up();
                self.pegs[cursor] = peg;
            },
            Command::ShiftDown => {
                let peg = self.pegs[cursor].down();
                self.pegs[cursor] = peg;
            },
            Command::MoveLeft => {
                proof {
                    lemma_cursor_left(cursor as int, pegs as int);
                }
                self.cursor = if cursor == 0 {
                    pegs - 1
                } else {
                    cursor - 1
                };
            },
            Command::MoveRight => {
                proof {
                    lemma_cursor_right(cursor as int, pegs as int);
                }
                self.cursor = if cursor + 1 == pegs {
                    0
                } else {
                    cursor + 1
                };
            },
            _ => {},
        }
    }
}

/// One step to the left from the first peg leads to the last.
pub proof fn lemma_cursor_left(cursor: int, pegs: int)
    requires
        0 <= cursor < pegs,
    ensures
        (cursor + pegs - 1) % pegs == if cursor == 0 {
            pegs - 1
        } else {
            cursor - 1
        },
{
    if cursor == 0 {
        lemma_small_mod((pegs - 1) as nat, pegs as nat);
    } else {
        lemma_mod_add_multiples_vanish(cursor - 1, pegs);
        lemma_small_mod((cursor - 1) as nat, pegs as nat);
    }
}

/// One step to the right from the last peg leads to the first.
pub proof fn lemma_cursor_right(cursor: int, pegs: int)
    requires
        0 <= cursor < pegs,
    ensures
        (cursor + pegs + 1) % pegs == if cursor + 1 == pegs {
            0
        } else {
            cursor + 1
        },
{
    lemma_mod_add_multiples_vanish(cursor + 1, pegs);
    if cursor + 1 == pegs {
        lemma_mod_self_0(pegs);
    } else {
        lemma_small_mod((cursor + 1) as nat, pegs as nat);
    }
}

} // verus!

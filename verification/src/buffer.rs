//! The edit buffer: a line of characters with a cursor between them.

use vstd::prelude::*;

verus! {

/// The mathematical content of an edit buffer: the characters typed so far and
/// the offset of the cursor, counted in characters from the start.
pub struct Line {
    pub text: Seq<char>,
    pub cursor: int,
}

impl Line {
    /// The cursor lies on the line: at a character or just behind the last.
    pub open spec fn wf(self) -> bool {
        0 <= self.cursor <= self.text.len()
    }

    /// `text` with the cursor behind its last character.
    pub open spec fn at_end(text: Seq<char>) -> Line {
        Line { text, cursor: text.len() as int }
    }

    /// `c` goes in at the cursor, and the cursor moves behind it.
    pub open spec fn insert(self, c: char) -> Line {
        Line { text: self.text.insert(self.cursor, c), cursor: self.cursor + 1 }
    }

    /// The character before the cursor goes, and the cursor moves back by one.
    /// With nothing before the cursor the line stays as it is.
    pub open spec fn backspace(self) -> Line {
        if self.cursor > 0 {
            Line { text: self.text.remove(self.cursor - 1), cursor: self.cursor - 1 }
        } else {
            self
        }
    }

    /// The cursor moves one character back, unless it is at the start.
    pub open spec fn left(self) -> Line {
        if self.cursor > 0 {
            Line { text: self.text, cursor: self.cursor - 1 }
        } else {
            self
        }
    }

    /// The cursor moves one character on, unless it is at the end.
    pub open spec fn right(self) -> Line {
        if self.cursor < self.text.len() {
            Line { text: self.text, cursor: self.cursor + 1 }
        } else {
            self
        }
    }
}

/// A line being edited.
pub struct EditBuffer {
    chars: Vec<char>,
    cursor: usize,
}

impl View for EditBuffer {
    type V = Line;

    closed spec fn view(&self) -> Line {
        Line { text: self.chars@, cursor: self.cursor as int }
    }
}

impl EditBuffer {
    #[verifier::type_invariant]
    spec fn cursor_on_line(self) -> bool {
        self.cursor <= self.chars.len()
    }

    /// A buffer that holds `text`, with the cursor behind its last character.
    pub fn new(text: Vec<char>) -> (buffer: EditBuffer)
        ensures
            buffer@ == Line::at_end(text@),
            buffer@.wf(),
    {
        let cursor = text.len();
        EditBuffer { chars: text, cursor }
    }

    /// The number of characters on the line.
    pub fn len(&self) -> (n: usize)
        ensures
            n == self@.text.len(),
            self@.wf(),
    {
        proof {
            use_type_invariant(self);
        }
        self.chars.len()
    }

    /// The offset of the cursor.
    pub fn cursor(&self) -> (at: usize)
        ensures
            at == self@.cursor,
            self@.wf(),
    {
        proof {
            use_type_invariant(self);
        }
        self.cursor
    }

    /// The characters on the line.
    pub fn chars(&self) -> (chars: &Vec<char>)
        ensures
            chars@ == self@.text,
    {
        &self.chars
    }

    /// Puts `c` in at the cursor.
    pub fn insert(&mut self, c: char)
        ensures
            final(self)@ == old(self)@.insert(c),
            final(self)@.wf(),
    {
        proof {
            use_type_invariant(&*self);
        }
        // The characters are taken out while they change, so that the cursor
        // is on the line that the buffer holds at every step.
        let at = self.cursor;
        let mut chars: Vec<char> = Vec::new();
        self.cursor = 0;
        std::mem::swap(&mut self.chars, &mut chars);
        chars.insert(at, c);
        self.chars = chars;
        self.cursor = at + 1;
    }

    /// Removes the character before the cursor. Returns whether there was one.
    pub fn backspace(&mut self) -> (removed: bool)
        ensures
            final(self)@ == old(self)@.backspace(),
            final(self)@.wf(),
            removed == (old(self)@.cursor > 0),
    {
        proof {
            use_type_invariant(&*self);
        }
        if self.cursor > 0 {
            let at = self.cursor - 1;
            let mut chars: Vec<char> = Vec::new();
            self.cursor = 0;
            std::mem::swap(&mut self.chars, &mut chars);
            chars.remove(at);
            self.chars = chars;
            self.cursor = at;
            true
        } else {
            false
        }
    }

    /// Moves the cursor one character back. Returns whether it moved.
    pub fn left(&mut self) -> (moved: bool)
        ensures
            final(self)@ == old(self)@.left(),
            final(self)@.wf(),
            moved == (old(self)@.cursor > 0),
    {
        proof {
            use_type_invariant(&*self);
        }
        if self.cursor > 0 {
            self.cursor = self.cursor - 1;
            true
        } else {
            false
        }
    }

    /// Moves the cursor one character on. Returns whether it moved.
    pub fn right(&mut self) -> (moved: bool)
        ensures
            final(self)@ == old(self)@.right(),
            final(self)@.wf(),
            moved == (old(self)@.cursor < old(self)@.text.len()),
    {
        proof {
            use_type_invariant(&*self);
        }
        if self.cursor < self.chars.len() {
            self.cursor = self.cursor + 1;
            true
        } else {
            false
        }
    }
}

} // verus!

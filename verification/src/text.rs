//! The free-text prompt.

use vstd::prelude::*;
use vstd::string::StringExecFns;
use crate::keys::Key;
use crate::screen::Command;
use crate::editor::{
    accept_commands, begin_commands, charset_view, edit, edit_commands, LineSession, LineState,
    Turn,
};
use crate::buffer::Line;

verus! {

/// Asks for a line of text.
pub struct Text {
    title: String,
    default: Option<String>,
    charset: Option<Vec<char>>,
}

/// What a [`Text`] prompt is set up with.
pub struct TextView {
    pub title: Seq<char>,
    pub default: Option<Seq<char>>,
    pub charset: Option<Seq<char>>,
}

impl View for Text {
    type V = TextView;

    closed spec fn view(&self) -> TextView {
        TextView {
            title: self.title@,
            default: match self.default {
                Some(text) => Some(text@),
                None => None,
            },
            charset: charset_view(self.charset),
        }
    }
}

impl TextView {
    /// The text the line starts with.
    pub open spec fn first_text(self) -> Seq<char> {
        match self.default {
            Some(text) => text,
            None => Seq::empty(),
        }
    }
}

impl Text {
    /// A prompt with the given title, no default answer and every printable
    /// character allowed.
    pub fn new(title: &str) -> (prompt: Text)
        ensures
            prompt@ == (TextView { title: title@, default: None, charset: None }),
    {
        Text { title: String::from_str(title), default: None, charset: None }
    }

    /// Sets the text the line starts with.
    pub fn default(self, value: &str) -> (prompt: Text)
        ensures
            prompt@ == (TextView { default: Some(value@), ..self@ }),
    {
        Text { title: self.title, default: Some(String::from_str(value)), charset: self.charset }
    }

    /// Sets the characters that may be typed.
    pub fn charset(self, value: Vec<char>) -> (prompt: Text)
        ensures
            prompt@ == (TextView { charset: Some(value@), ..self@ }),
    {
        Text { title: self.title, default: self.default, charset: Some(value) }
    }

    /// Starts the prompt: the question line and the input line are to be
    /// written, and the line holds the default answer.
    pub fn begin(&self) -> (started: (LineSession, Vec<Command>))
        ensures
            started.0@ == (LineState {
                line: Line::at_end(self@.first_text()),
                error_shown: false,
            }),
            started.0@.line.wf(),
            started.1.deep_view() == begin_commands(self@.title, started.0@.line),
    {
        LineSession::begin(self.title.as_str(), &self.default)
    }

    /// Handles one key. Enter ends the prompt with the text typed so far, as
    /// it stands; every other key edits the line.
    pub fn step(&self, session: &mut LineSession, key: Key) -> (turn: Turn<String>)
        ensures
            final(session)@.line.wf(),
            key == Key::Enter ==> {
                &&& final(session)@ == old(session)@
                &&& turn.commands.deep_view() == accept_commands(self@.title, old(session)@)
                &&& turn.answer matches Some(answer) && answer@ == old(session)@.line.text
            },
            key != Key::Enter ==> {
                &&& final(session)@.line == edit(old(session)@.line, self@.charset, key)
                &&& final(session)@.error_shown == old(session)@.error_shown
                &&& turn.commands.deep_view() == edit_commands(
                    old(session)@.line,
                    self@.charset,
                    key,
                )
                &&& turn.answer is None
            },
    {
        match key {
            Key::Enter => {
                let commands = session.accept(self.title.as_str());
                let answer = session.text();
                Turn { commands, answer: Some(answer) }
            },
            _ => {
                let commands = session.edit(&self.charset, key);
                Turn { commands, answer: None }
            },
        }
    }
}

} // verus!

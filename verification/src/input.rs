//! The validated text prompt: a line of text that a validator turns into a
//! value, or turns down with a message.

use vstd::prelude::*;
use vstd::string::StringExecFns;
use std::marker::PhantomData;
use crate::keys::Key;
use crate::screen::Command;
use crate::editor::{
    accept_commands, begin_commands, charset_view, edit, edit_commands, reject_commands,
    LineSession, LineState, Turn,
};
use crate::buffer::Line;
use crate::text::TextView;

verus! {

/// Marks an [`Input`] that has no validator yet.
pub struct NoValidator;

/// Holds the validator of an [`Input`]: a function from the text to the value
/// or to the message that says what is wrong with the text.
pub struct Validator<F> {
    method: F,
}

impl<F> Validator<F> {
    /// The function that validates.
    pub closed spec fn method(self) -> F {
        self.method
    }
}

/// Asks for a line of text and hands it to a validator.
pub struct Input<T, V = NoValidator> {
    title: String,
    default: Option<String>,
    charset: Option<Vec<char>>,
    validator: V,
    data: PhantomData<T>,
}

impl<T, V> View for Input<T, V> {
    type V = TextView;

    closed spec fn view(&self) -> TextView {
        TextView {
            title: self.title@,
            default: match self.default {
                Some(text) => Some(text@),
                None => None,
            },
            charset: charset_view(self.charset),
        }
    }
}

impl<T, V> Input<T, V> {
    /// What validates the text.
    pub closed spec fn validator_spec(&self) -> V {
        self.validator
    }
}

/// How a verdict of the validator ends a turn. A value is the answer: the
/// prompt is replaced by its settled line. A message is shown as an error
/// line, and the prompt goes on with the line and the cursor as they were.
pub open spec fn settled<T>(
    title: Seq<char>,
    before: LineState,
    verdict: Result<T, String>,
    after: LineState,
    turn: Turn<T>,
) -> bool {
    match verdict {
        Ok(value) => {
            &&& after == before
            &&& turn.commands.deep_view() == accept_commands(title, before)
            &&& turn.answer == Some(value)
        },
        Err(message) => {
            &&& after == (LineState { line: before.line, error_shown: true })
            &&& turn.commands.deep_view() == reject_commands(message@, before)
            &&& turn.answer is None
        },
    }
}

impl<T> Input<T, NoValidator> {
    /// A prompt with the given title, no default answer and every printable
    /// character allowed.
    pub fn new(title: &str) -> (prompt: Self)
        ensures
            prompt@ == (TextView { title: title@, default: None, charset: None }),
    {
        Input {
            title: String::from_str(title),
            default: None,
            charset: None,
            validator: NoValidator,
            data: PhantomData,
        }
    }

    /// Sets the text the line starts with.
    pub fn default(self, value: &str) -> (prompt: Self)
        ensures
            prompt@ == (TextView { default: Some(value@), ..self@ }),
    {
        Input {
            title: self.title,
            default: Some(String::from_str(value)),
            charset: self.charset,
            validator: NoValidator,
            data: PhantomData,
        }
    }

    /// Sets the characters that may be typed.
    pub fn charset(self, value: Vec<char>) -> (prompt: Self)
        ensures
            prompt@ == (TextView { charset: Some(value@), ..self@ }),
    {
        Input {
            title: self.title,
            default: self.default,
            charset: Some(value),
            validator: NoValidator,
            data: PhantomData,
        }
    }

    /// Sets the validator.
    pub fn validator<F: Fn(String) -> Result<T, String>>(self, value: F) -> (prompt: Input<
        T,
        Validator<F>,
    >)
        ensures
            prompt@ == self@,
            prompt.validator_spec().method() == value,
    {
        Input {
            title: self.title,
            default: self.default,
            charset: self.charset,
            validator: Validator { method: value },
            data: PhantomData,
        }
    }
}

impl<T, F: Fn(String) -> Result<T, String>> Input<T, Validator<F>> {
    /// Starts the prompt: the question line and the input line are to be
    /// written, and the line holds the default answer.
    pub fn begin(&self) -> (started: (LineSession, Vec<Command>))
        ensures
            started.0@ == (LineState {
                line: Line::at_end(self@.first_text()),
                error_shown: false,
            }),
            started.0@.line.wf(),
            started.1.deep_view() == begin_commands(self@.title, started.0@.line),
    {
        LineSession::begin(self.title.as_str(), &self.default)
    }

    /// Ends a turn with the verdict that the validator gave on the text.
    pub fn settle(&self, session: &mut LineSession, verdict: Result<T, String>) -> (turn: Turn<T>)
        ensures
            settled(self@.title, old(session)@, verdict, final(session)@, turn),
    {
        match verdict {
            Ok(value) => {
                let commands = session.accept(self.title.as_str());
                Turn { commands, answer: Some(value) }
            },
            Err(message) => {
                let commands = session.reject(message.as_str());
                Turn { commands, answer: None }
            },
        }
    }

    /// Handles one key. Enter hands the text typed so far to the validator and
    /// ends the turn with its verdict; every other key edits the line.
    pub fn step(&self, session: &mut LineSession, key: Key) -> (turn: Turn<T>)
        requires
            forall|text: String| call_requires(self.validator_spec().method(), (text,)),
        ensures
            final(session)@.line.wf(),
            key == Key::Enter ==> exists|text: String, verdict: Result<T, String>|
                {
                    &&& text@ == old(session)@.line.text
                    &&& call_ensures(self.validator_spec().method(), (text,), verdict)
                    &&& settled(self@.title, old(session)@, verdict, final(session)@, turn)
                },
            key != Key::Enter ==> {
                &&& final(session)@.line == edit(old(session)@.line, self@.charset, key)
                &&& final(session)@.error_shown == old(session)@.error_shown
                &&& turn.commands.deep_view() == edit_commands(
                    old(session)@.line,
                    self@.charset,
                    key,
                )
                &&& turn.answer is None
            },
    {
        match key {
            Key::Enter => {
                let text = session.text();
                let ghost given = text;
                assert(call_requires(self.validator_spec().method(), (text,)));
                let verdict = (self.validator.method)(text);
                let ghost heard = verdict;
                let turn = self.settle(session, verdict);
                assert(given@ == old(session)@.line.text && call_ensures(
                    self.validator_spec().method(),
                    (given,),
                    heard,
                ) && settled(self@.title, old(session)@, heard, session@, turn));
                turn
            },
            _ => {
                let commands = session.edit(&self.charset, key);
                Turn { commands, answer: None }
            },
        }
    }
}

} // verus!

//! The email prompt: a line of text that must be an email address.

use vstd::prelude::*;
use vstd::string::StringExecFns;
use email_address::Error;
use crate::buffer::Line;
use crate::chars::chars_of;
use crate::editor::{
    accept_commands, begin_commands, edit, edit_commands, reject_commands, LineSession, LineState,
    Turn,
};
use crate::keys::Key;
use crate::screen::Command;

verus! {

/// What is wrong with a text that is no email address.
#[derive(Clone, Copy, Debug, PartialEq, Eq, Structural)]
pub enum EmailFault {
    InvalidCharacter,
    MissingSeparator,
    LocalPartEmpty,
    LocalPartTooLong,
    DomainEmpty,
    DomainTooLong,
    SubDomainTooLong,
    DomainTooFew,
    DomainInvalidSeparator,
    UnbalancedQuotes,
    InvalidComment,
    InvalidIPAddress,
}

/// What `email_address::EmailAddress::from_str` finds wrong with `text`; none
/// where it takes `text` for an address.
pub uninterp spec fn address_fault(text: Seq<char>) -> Option<EmailFault>;

/// Whether all that stands before the last `@` of `text` is one double quote.
pub open spec fn lone_quote(text: Seq<char>) -> bool {
    &&& text.len() >= 2
    &&& text[0] == '"'
    &&& text[1] == '@'
    &&& forall|i: int| 2 <= i < text.len() ==> text[i] != '@'
}

/// `email_address::EmailAddress::from_str`, with its error turned into the
/// fault of the same name. The result is a function of the text alone. A text
/// with a lone double quote before its last `@` is left out: on it the parser
/// slices the quoted part from behind the opening quote to before the closing
/// one, which are the same character there, and panics.
#[verifier::external_body]
fn check_address(text: &str) -> (fault: Option<EmailFault>)
    requires
        !lone_quote(text@),
    ensures
        fault == address_fault(text@),
{
    Some(match <email_address::EmailAddress as std::str::FromStr>::from_str(text).err()? {
        Error::InvalidCharacter => EmailFault::InvalidCharacter,
        Error::MissingSeparator => EmailFault::MissingSeparator,
        Error::LocalPartEmpty => EmailFault::LocalPartEmpty,
        Error::LocalPartTooLong => EmailFault::LocalPartTooLong,
        Error::DomainEmpty => EmailFault::DomainEmpty,
        Error::DomainTooLong => EmailFault::DomainTooLong,
        Error::SubDomainTooLong => EmailFault::SubDomainTooLong,
        Error::DomainTooFew => EmailFault::DomainTooFew,
        Error::DomainInvalidSeparator => EmailFault::DomainInvalidSeparator,
        Error::UnbalancedQuotes => EmailFault::UnbalancedQuotes,
        Error::InvalidComment => EmailFault::InvalidComment,
        Error::InvalidIPAddress => EmailFault::InvalidIPAddress,
    })
}

/// The message for a text that is no email address.
pub open spec fn fault_message(fault: EmailFault) -> Seq<char> {
    match fault {
        EmailFault::InvalidCharacter => "An invalid character is present"@,
        EmailFault::MissingSeparator => "Missing @ separator"@,
        EmailFault::LocalPartEmpty => "The local part is empty"@,
        EmailFault::LocalPartTooLong => "The local part is too long"@,
        EmailFault::DomainEmpty => "The domain is empty"@,
        EmailFault::DomainTooLong => "The domain is too long"@,
        EmailFault::SubDomainTooLong => "The subdomain is too long"@,
        EmailFault::DomainTooFew => "Not enough sub domains are present"@,
        EmailFault::DomainInvalidSeparator => "Invalid placement of a '.'"@,
        EmailFault::UnbalancedQuotes => "Unbalanced quotes"@,
        EmailFault::InvalidComment => "An invalid comment is present"@,
        EmailFault::InvalidIPAddress => "Invalid IP address"@,
    }
}

/// The message for a text that is no email address.
pub fn fault_text(fault: EmailFault) -> (text: &'static str)
    ensures
        text@ == fault_message(fault),
{
    match fault {
        EmailFault::InvalidCharacter => "An invalid character is present",
        EmailFault::MissingSeparator => "Missing @ separator",
        EmailFault::LocalPartEmpty => "The local part is empty",
        EmailFault::LocalPartTooLong => "The local part is too long",
        EmailFault::DomainEmpty => "The domain is empty",
        EmailFault::DomainTooLong => "The domain is too long",
        EmailFault::SubDomainTooLong => "The subdomain is too long",
        EmailFault::DomainTooFew => "Not enough sub domains are present",
        EmailFault::DomainInvalidSeparator => "Invalid placement of a '.'",
        EmailFault::UnbalancedQuotes => "Unbalanced quotes",
        EmailFault::InvalidComment => "An invalid comment is present",
        EmailFault::InvalidIPAddress => "Invalid IP address",
    }
}

/// What is wrong with `text` as an email address; none where it is one. A
/// lone double quote before the last `@` is an empty local part.
pub open spec fn email_fault(text: Seq<char>) -> Option<EmailFault> {
    if lone_quote(text) {
        Some(EmailFault::LocalPartEmpty)
    } else {
        address_fault(text)
    }
}

/// What the validator makes of a text, given what is wrong with it: the text
/// itself where nothing is, and the message of the fault where something is.
pub open spec fn judged(text: Seq<char>, fault: Option<EmailFault>) -> Result<
    Seq<char>,
    Seq<char>,
> {
    match fault {
        None => Ok(text),
        Some(fault) => Err(fault_message(fault)),
    }
}

/// Whether `verdict` says what `judgement` says.
pub open spec fn tells(verdict: Result<EmailAddress, String>, judgement: Result<
    Seq<char>,
    Seq<char>,
>) -> bool {
    match verdict {
        Ok(address) => judgement == Ok::<Seq<char>, Seq<char>>(address@),
        Err(message) => judgement == Err::<Seq<char>, Seq<char>>(message@),
    }
}

/// Whether all that stands before the last `@` of `text` is one double quote.
pub fn has_lone_quote(text: &str) -> (yes: bool)
    ensures
        yes == lone_quote(text@),
{
    let chars = chars_of(text);
    if chars.len() < 2 || chars[0] != '"' || chars[1] != '@' {
        return false;
    }
    let mut i: usize = 2;
    while i < chars.len()
        invariant
            2 <= i <= chars.len(),
            chars@ == text@,
            forall|j: int| 2 <= j < i ==> text@[j] != '@',
        decreases chars.len() - i,
    {
        if chars[i] == '@' {
            return false;
        }
        i += 1;
    }
    true
}

/// A text that was found to be an email address.
#[derive(Clone, Debug, PartialEq, Eq)]
pub struct EmailAddress {
    text: String,
}

impl View for EmailAddress {
    type V = Seq<char>;

    closed spec fn view(&self) -> Seq<char> {
        self.text@
    }
}

impl EmailAddress {
    /// The address as text.
    pub fn as_str(&self) -> (text: &str)
        ensures
            text@ == self@,
    {
        self.text.as_str()
    }
}

/// Asks for an email address.
pub struct Email {
    title: String,
}

impl Email {
    /// The title of the prompt.
    pub closed spec fn title(&self) -> Seq<char> {
        self.title@
    }

    /// A prompt with the given title.
    pub fn new(title: &str) -> (prompt: Email)
        ensures
            prompt.title() == title@,
    {
        Email { title: String::from_str(title) }
    }

    /// Ends the validation of `input` with what was found wrong with it.
    pub fn judge(input: String, fault: Option<EmailFault>) -> (verdict: Result<
        EmailAddress,
        String,
    >)
        ensures
            tells(verdict, judged(input@, fault)),
    {
        match fault {
            None => Ok(EmailAddress { text: input }),
            Some(fault) => Err(String::from_str(fault_text(fault))),
        }
    }

    /// Holds `input` to the grammar of email addresses.
    pub fn validator(input: String) -> (verdict: Result<EmailAddress, String>)
        ensures
            tells(verdict, judged(input@, email_fault(input@))),
    {
        let fault = if has_lone_quote(input.as_str()) {
            Some(EmailFault::LocalPartEmpty)
        } else {
            check_address(input.as_str())
        };
        Email::judge(input, fault)
    }

    /// Starts the prompt: the question line and the empty input line are to
    /// be written.
    pub fn begin(&self) -> (started: (LineSession, Vec<Command>))
        ensures
            started.0@ == (LineState { line: Line::at_end(Seq::empty()), error_shown: false }),
            started.0@.line.wf(),
            started.1.deep_view() == begin_commands(self.title(), started.0@.line),
    {
        LineSession::begin(self.title.as_str(), &None)
    }

    /// Handles one key. Enter holds the text typed so far to the grammar of
    /// email addresses: an address ends the prompt, anything else is turned
    /// down with a message. Every other key edits the line.
    pub fn step(&self, session: &mut LineSession, key: Key) -> (turn: Turn<EmailAddress>)
        ensures
            final(session)@.line.wf(),
            key == Key::Enter ==> match email_fault(old(session)@.line.text) {
                None => {
                    &&& final(session)@ == old(session)@
                    &&& turn.commands.deep_view() == accept_commands(self.title(), old(session)@)
                    &&& turn.answer matches Some(answer) && answer@ == old(session)@.line.text
                },
                Some(fault) => {
                    &&& final(session)@ == (LineState {
                        line: old(session)@.line,
                        error_shown: true,
                    })
                    &&& turn.commands.deep_view() == reject_commands(
                        fault_message(fault),
                        old(session)@,
                    )
                    &&& turn.answer is None
                },
            },
            key != Key::Enter ==> {
                &&& final(session)@.line == edit(old(session)@.line, None, key)
                &&& final(session)@.error_shown == old(session)@.error_shown
                &&& turn.commands.deep_view() == edit_commands(old(session)@.line, None, key)
                &&& turn.answer is None
            },
    {
        match key {
            Key::Enter => {
                match Email::validator(session.text()) {
                    Ok(address) => {
                        let commands = session.accept(self.title.as_str());
                        Turn { commands, answer: Some(address) }
                    },
                    Err(message) => {
                        let commands = session.reject(message.as_str());
                        Turn { commands, answer: None }
                    },
                }
            },
            _ => {
                let commands = session.edit(&None, key);
                Turn { commands, answer: None }
            },
        }
    }
}

} // verus!

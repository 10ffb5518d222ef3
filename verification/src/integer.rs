//! The integer prompt: a line of digits that is read as a number and held to
//! a range.

use vstd::prelude::*;
use vstd::string::StringExecFns;
use crate::buffer::Line;
use crate::chars::chars_of;
use crate::decimal::{decimal, decimal_of};
use crate::editor::{
    accept_commands, begin_commands, edit, edit_commands, reject_commands, LineSession, LineState,
    Turn,
};
use crate::keys::Key;
use crate::screen::Command;

verus! {

/// Why a text is not a number.
#[derive(Clone, Copy, Debug, PartialEq, Eq, Structural)]
pub enum IntErrorKind {
    /// The text is empty.
    Empty,
    /// The text holds a character that is not a digit where a digit must
    /// stand; a sign without digits is one.
    InvalidDigit,
    /// The number is too large for the integer type.
    PosOverflow,
    /// The number is too small for the integer type.
    NegOverflow,
    /// The number is zero where zero is not allowed.
    Zero,
    /// Anything else.
    Other,
}

/// An error that says why a text is not a number.
pub trait IntError {
    /// Why the text is not a number.
    fn kind(&self) -> &IntErrorKind;
}

/// The error of [`parse_integer`].
#[derive(Clone, Copy, Debug, PartialEq, Eq, Structural)]
pub struct ParseIntError {
    pub kind: IntErrorKind,
}

impl IntError for ParseIntError {
    fn kind(&self) -> (kind: &IntErrorKind)
        ensures
            *kind == self.kind,
    {
        &self.kind
    }
}

/// Whether `c` is a decimal digit.
pub open spec fn is_digit(c: char) -> bool {
    '0' <= c <= '9'
}

/// The value of the digit `c`.
pub open spec fn digit_value(c: char) -> int {
    c as int - '0' as int
}

/// Reads the digits of `text` from place `from` on, left to right, with
/// `so_far` the number read before them; for a negative number each digit is
/// taken off instead of added. Reading stops at the first character that is no
/// digit, and at the first digit that takes the number out of the range of
/// `i128`.
pub open spec fn read_digits(text: Seq<char>, negative: bool, from: int, so_far: int) -> Result<
    int,
    IntErrorKind,
>
    decreases text.len() - from,
{
    if from >= text.len() {
        Ok(so_far)
    } else if !is_digit(text[from]) {
        Err(IntErrorKind::InvalidDigit)
    } else {
        let next = if negative {
            so_far * 10 - digit_value(text[from])
        } else {
            so_far * 10 + digit_value(text[from])
        };
        if next > i128::MAX {
            Err(IntErrorKind::PosOverflow)
        } else if next < i128::MIN {
            Err(IntErrorKind::NegOverflow)
        } else {
            read_digits(text, negative, from + 1, next)
        }
    }
}

/// The number that `text` is: an optional sign, `+` or `-`, and then at least
/// one digit, read as [`read_digits`] reads them.
pub open spec fn parsed(text: Seq<char>) -> Result<int, IntErrorKind> {
    if text.len() == 0 {
        Err(IntErrorKind::Empty)
    } else if text.len() == 1 && (text[0] == '+' || text[0] == '-') {
        Err(IntErrorKind::InvalidDigit)
    } else if text[0] == '+' {
        read_digits(text, false, 1, 0)
    } else if text[0] == '-' {
        read_digits(text, true, 1, 0)
    } else {
        read_digits(text, false, 0, 0)
    }
}

/// The number that a text of digits writes.
pub open spec fn number(digits: Seq<char>) -> int
    decreases digits.len(),
{
    if digits.len() == 0 {
        0
    } else {
        number(digits.drop_last()) * 10 + digit_value(digits.last())
    }
}

/// Whether every character of `text` is a digit.
pub open spec fn all_digits(text: Seq<char>) -> bool {
    forall|i: int| 0 <= i < text.len() ==> is_digit(#[trigger] text[i])
}

/// Whether `text` starts with a sign.
pub open spec fn has_sign(text: Seq<char>) -> bool {
    text.len() > 0 && (text[0] == '+' || text[0] == '-')
}

/// `text` without its sign.
pub open spec fn unsigned_part(text: Seq<char>) -> Seq<char> {
    if has_sign(text) {
        text.skip(1)
    } else {
        text
    }
}

/// Whether `text` is a numeral: an optional sign and then one digit or more.
pub open spec fn is_numeral(text: Seq<char>) -> bool {
    unsigned_part(text).len() > 0 && all_digits(unsigned_part(text))
}

/// The number that the numeral `text` writes.
pub open spec fn written(text: Seq<char>) -> int {
    if text.len() > 0 && text[0] == '-' {
        -number(unsigned_part(text))
    } else {
        number(unsigned_part(text))
    }
}

/// The number of the first digits of a text of digits is not above the number
/// of the whole text, and neither is negative.
proof fn lemma_number_grows(digits: Seq<char>, k: int)
    requires
        all_digits(digits),
        0 <= k <= digits.len(),
    ensures
        0 <= number(digits.take(k)) <= number(digits),
    decreases digits.len(),
{
    if digits.len() == 0 {
        assert(digits.take(k) =~= digits);
    } else if k == digits.len() {
        assert(digits.take(k) =~= digits);
        assert(is_digit(digits.last()));
        assert(all_digits(digits.drop_last())) by {
            assert forall|i: int| 0 <= i < digits.drop_last().len() implies is_digit(
                #[trigger] digits.drop_last()[i],
            ) by {
                assert(is_digit(digits[i]));
            }
        }
        lemma_number_grows(digits.drop_last(), 0);
    } else {
        assert(is_digit(digits.last()));
        assert(all_digits(digits.drop_last())) by {
            assert forall|i: int| 0 <= i < digits.drop_last().len() implies is_digit(
                #[trigger] digits.drop_last()[i],
            ) by {
                assert(is_digit(digits[i]));
            }
        }
        lemma_number_grows(digits.drop_last(), k);
        assert(digits.drop_last().take(k) =~= digits.take(k));
    }
}

/// What reading from place `from` on gives, where `so_far` is the number of
/// the digits from `start` to `from`: the number of all the digits from
/// `start` on if they are digits and their number is in range, and else the
/// failure that says which of the two is not so.
proof fn lemma_read_digits(text: Seq<char>, negative: bool, start: int, from: int, so_far: int)
    requires
        0 <= start <= from <= text.len(),
        all_digits(text.subrange(start, from)),
        so_far == if negative {
            -number(text.subrange(start, from))
        } else {
            number(text.subrange(start, from))
        },
        i128::MIN <= so_far <= i128::MAX,
    ensures
        ({
            let body = text.subrange(start, text.len() as int);
            let total = if negative {
                -number(body)
            } else {
                number(body)
            };
            match read_digits(text, negative, from, so_far) {
                Ok(v) => all_digits(body) && v == total && i128::MIN <= v <= i128::MAX,
                Err(kind) => {
                    &&& !all_digits(body) || total > i128::MAX || total < i128::MIN
                    &&& kind == IntErrorKind::InvalidDigit || kind == IntErrorKind::PosOverflow
                        || kind == IntErrorKind::NegOverflow
                    &&& all_digits(body) ==> kind == if total > i128::MAX {
                        IntErrorKind::PosOverflow
                    } else {
                        IntErrorKind::NegOverflow
                    }
                },
            }
        }),
    decreases text.len() - from,
{
    let body = text.subrange(start, text.len() as int);
    if from >= text.len() {
        assert(text.subrange(start, from) =~= body);
    } else if !is_digit(text[from]) {
        assert(body[from - start] == text[from]);
    } else {
        let longer = text.subrange(start, from + 1);
        assert(longer.drop_last() =~= text.subrange(start, from));
        assert(longer.last() == text[from]);
        assert(all_digits(longer)) by {
            assert forall|i: int| 0 <= i < longer.len() implies is_digit(#[trigger] longer[i]) by {
                if i < from - start {
                    assert(is_digit(text.subrange(start, from)[i]));
                }
            }
        }
        let next = if negative {
            so_far * 10 - digit_value(text[from])
        } else {
            so_far * 10 + digit_value(text[from])
        };
        assert(next == if negative {
            -number(longer)
        } else {
            number(longer)
        });
        if next > i128::MAX || next < i128::MIN {
            if all_digits(body) {
                lemma_number_grows(body, from + 1 - start);
                assert(body.take(from + 1 - start) =~= longer);
            }
            lemma_number_grows(longer, 0);
        } else {
            lemma_read_digits(text, negative, start, from + 1, next);
        }
    }
}

/// A text is read as a number exactly if it is a numeral whose number is in
/// the range of `i128`, and then as that number. The empty text fails as
/// empty, and a numeral out of range fails as an overflow on its side.
pub proof fn lemma_parsed_is_the_number_written(text: Seq<char>)
    ensures
        parsed(text) is Ok <==> is_numeral(text) && i128::MIN <= written(text) <= i128::MAX,
        parsed(text) matches Ok(v) ==> v == written(text),
        parsed(text) == Err::<int, IntErrorKind>(IntErrorKind::Empty) <==> text.len() == 0,
        is_numeral(text) && written(text) > i128::MAX ==> parsed(text) == Err::<
            int,
            IntErrorKind,
        >(IntErrorKind::PosOverflow),
        is_numeral(text) && written(text) < i128::MIN ==> parsed(text) == Err::<
            int,
            IntErrorKind,
        >(IntErrorKind::NegOverflow),
{
    if text.len() == 0 {
    } else if text.len() == 1 && has_sign(text) {
        assert(text.skip(1).len() == 0);
    } else {
        let start: int = if has_sign(text) {
            1
        } else {
            0
        };
        let negative = text[0] == '-';
        assert(text.subrange(start, start) =~= Seq::<char>::empty());
        assert(text.subrange(start, text.len() as int) =~= unsigned_part(text));
        lemma_read_digits(text, negative, start, start, 0);
        if is_numeral(text) {
            lemma_number_grows(unsigned_part(text), 0);
        }
    }
}

/// Reads `text` as a number.
pub fn parse_integer(text: &str) -> (number: Result<i128, ParseIntError>)
    ensures
        match number {
            Ok(v) => parsed(text@) == Ok::<int, IntErrorKind>(v as int),
            Err(error) => parsed(text@) == Err::<int, IntErrorKind>(error.kind),
        },
{
    let chars = chars_of(text);
    if chars.len() == 0 {
        return Err(ParseIntError { kind: IntErrorKind::Empty });
    }
    let first = chars[0];
    if chars.len() == 1 && (first == '+' || first == '-') {
        return Err(ParseIntError { kind: IntErrorKind::InvalidDigit });
    }
    let negative = first == '-';
    let start: usize = if first == '+' || first == '-' {
        1
    } else {
        0
    };
    let mut so_far: i128 = 0;
    let mut at: usize = start;
    while at < chars.len()
        invariant
            start <= at <= chars.len(),
            chars@ == text@,
            negative ==> so_far <= 0,
            !negative ==> so_far >= 0,
            parsed(text@) == read_digits(text@, negative, start as int, 0),
            read_digits(text@, negative, start as int, 0) == read_digits(
                text@,
                negative,
                at as int,
                so_far as int,
            ),
        decreases chars.len() - at,
    {
        let c = chars[at];
        if !('0' <= c && c <= '9') {
            return Err(ParseIntError { kind: IntErrorKind::InvalidDigit });
        }
        let digit = (c as u32 - '0' as u32) as i128;
        let overflow = if negative {
            IntErrorKind::NegOverflow
        } else {
            IntErrorKind::PosOverflow
        };
        let next = match so_far.checked_mul(10) {
            Some(tenfold) => if negative {
                tenfold.checked_sub(digit)
            } else {
                tenfold.checked_add(digit)
            },
            None => None,
        };
        match next {
            Some(value) => {
                so_far = value;
            },
            None => {
                return Err(ParseIntError { kind: overflow });
            },
        }
        at += 1;
    }
    Ok(so_far)
}

/// The message for a number below the smallest that is accepted.
pub open spec fn too_small(min: i128) -> Seq<char> {
    "Too small! Must be above or equal to "@ + decimal(min as int)
}

/// The message for a number above the largest that is accepted.
pub open spec fn too_big(max: i128) -> Seq<char> {
    "Too big! Must be below or equal to "@ + decimal(max as int)
}

/// The message for a text that is not a number.
pub open spec fn failure_message(kind: IntErrorKind, min: i128, max: i128) -> Seq<char> {
    match kind {
        IntErrorKind::Empty => "You must enter a value"@,
        IntErrorKind::InvalidDigit => "An invalid character is present"@,
        IntErrorKind::PosOverflow => too_big(max),
        IntErrorKind::NegOverflow => "Too small! Must be below or equal to "@ + decimal(
            min as int,
        ),
        IntErrorKind::Zero => "Number can't be zero"@,
        IntErrorKind::Other => "Unable to convert input to number"@,
    }
}

/// What the validator makes of a text that was read: a number from `min` to
/// `max` is the answer, a number outside gets the message of the bound it
/// breaks, and a failure to read gets the message of its kind.
pub open spec fn judged(read: Result<int, IntErrorKind>, min: i128, max: i128) -> Result<
    int,
    Seq<char>,
> {
    match read {
        Ok(v) => if v < min {
            Err(too_small(min))
        } else if v > max {
            Err(too_big(max))
        } else {
            Ok(v)
        },
        Err(kind) => Err(failure_message(kind, min, max)),
    }
}

/// Whether `verdict` says what `judgement` says.
pub open spec fn tells(verdict: Result<i128, String>, judgement: Result<int, Seq<char>>) -> bool {
    match verdict {
        Ok(v) => judgement == Ok::<int, Seq<char>>(v as int),
        Err(message) => judgement == Err::<int, Seq<char>>(message@),
    }
}

/// The message for a text that is not a number.
pub fn failure_text(kind: IntErrorKind, min: i128, max: i128) -> (text: String)
    ensures
        text@ == failure_message(kind, min, max),
{
    match kind {
        IntErrorKind::Empty => String::from_str("You must enter a value"),
        IntErrorKind::InvalidDigit => String::from_str("An invalid character is present"),
        IntErrorKind::PosOverflow => {
            let mut text = String::from_str("Too big! Must be below or equal to ");
            text.append(decimal_of(max).as_str());
            text
        },
        IntErrorKind::NegOverflow => {
            let mut text = String::from_str("Too small! Must be below or equal to ");
            text.append(decimal_of(min).as_str());
            text
        },
        IntErrorKind::Zero => String::from_str("Number can't be zero"),
        IntErrorKind::Other => String::from_str("Unable to convert input to number"),
    }
}

/// Holds a text that was read against the range from `min` to `max`. A
/// failure to read is told by the kind that the error names.
pub fn judge<E: IntError>(read: Result<i128, E>, min: i128, max: i128) -> (verdict: Result<
    i128,
    String,
>)
    ensures
        match read {
            Ok(v) => tells(verdict, judged(Ok(v as int), min, max)),
            Err(error) => exists|kind: &IntErrorKind|
                call_ensures(E::kind, (&error,), kind) && tells(
                    verdict,
                    judged(Err(*kind), min, max),
                ),
        },
{
    match read {
        Ok(v) => {
            if v < min {
                let mut text = String::from_str("Too small! Must be above or equal to ");
                text.append(decimal_of(min).as_str());
                Err(text)
            } else if v > max {
                let mut text = String::from_str("Too big! Must be below or equal to ");
                text.append(decimal_of(max).as_str());
                Err(text)
            } else {
                Ok(v)
            }
        },
        Err(error) => {
            let kind = error.kind();
            let verdict = Err(failure_text(*kind, min, max));
            assert(call_ensures(E::kind, (&error,), kind) && tells(
                verdict,
                judged(Err(*kind), min, max),
            ));
            verdict
        },
    }
}

/// `<i128 as num_traits::Bounded>::min_value()`: the smallest `i128`.
#[verifier::external_body]
fn lowest() -> (v: i128)
    ensures
        v == i128::MIN,
{
    <i128 as num_traits::Bounded>::min_value()
}

/// `<i128 as num_traits::Bounded>::max_value()`: the largest `i128`.
#[verifier::external_body]
fn highest() -> (v: i128)
    ensures
        v == i128::MAX,
{
    <i128 as num_traits::Bounded>::max_value()
}

/// `<i128 as num_traits::Zero>::zero()`: the `i128` zero.
#[verifier::external_body]
fn zero() -> (v: i128)
    ensures
        v == 0,
{
    <i128 as num_traits::Zero>::zero()
}

/// Asks for an integer.
pub struct Integer {
    title: String,
    min: i128,
    max: i128,
}

/// What an [`Integer`] prompt is set up with.
pub struct IntegerView {
    pub title: Seq<char>,
    pub min: i128,
    pub max: i128,
}

impl View for Integer {
    type V = IntegerView;

    closed spec fn view(&self) -> IntegerView {
        IntegerView { title: self.title@, min: self.min, max: self.max }
    }
}

/// The characters that may be typed: the digits, and the minus sign where
/// negative numbers are accepted.
pub open spec fn integer_charset(min: i128) -> Seq<char> {
    if min < 0 {
        seq!['0', '1', '2', '3', '4', '5', '6', '7', '8', '9', '-']
    } else {
        seq!['0', '1', '2', '3', '4', '5', '6', '7', '8', '9']
    }
}

impl Integer {
    /// A prompt with the given title that accepts every `i128`.
    pub fn new(title: &str) -> (prompt: Integer)
        ensures
            prompt@ == (IntegerView { title: title@, min: i128::MIN, max: i128::MAX }),
    {
        Integer { title: String::from_str(title), min: lowest(), max: highest() }
    }

    /// Sets the smallest number that is accepted.
    pub fn min(self, min: i128) -> (prompt: Integer)
        ensures
            prompt@ == (IntegerView { min, ..self@ }),
    {
        Integer { title: self.title, min, max: self.max }
    }

    /// Sets the largest number that is accepted.
    pub fn max(self, max: i128) -> (prompt: Integer)
        ensures
            prompt@ == (IntegerView { max, ..self@ }),
    {
        Integer { title: self.title, min: self.min, max }
    }

    /// Reads `input` as a number and holds it against the range from `min` to
    /// `max`.
    pub fn validator(input: String, min: i128, max: i128) -> (verdict: Result<i128, String>)
        ensures
            tells(verdict, judged(parsed(input@), min, max)),
    {
        judge(parse_integer(input.as_str()), min, max)
    }

    /// The characters that may be typed.
    pub fn charset(&self) -> (charset: Vec<char>)
        ensures
            charset@ == integer_charset(self@.min),
    {
        let mut charset: Vec<char> = Vec::new();
        charset.push('0');
        charset.push('1');
        charset.push('2');
        charset.push('3');
        charset.push('4');
        charset.push('5');
        charset.push('6');
        charset.push('7');
        charset.push('8');
        charset.push('9');
        if self.min < zero() {
            charset.push('-');
        }
        assert(charset@ =~= integer_charset(self@.min));
        charset
    }

    /// Starts the prompt: the question line and the empty input line are to
    /// be written.
    pub fn begin(&self) -> (started: (LineSession, Vec<Command>))
        ensures
            started.0@ == (LineState { line: Line::at_end(Seq::empty()), error_shown: false }),
            started.0@.line.wf(),
            started.1.deep_view() == begin_commands(self@.title, started.0@.line),
    {
        LineSession::begin(self.title.as_str(), &None)
    }

    /// Handles one key. Enter reads the text typed so far as a number: a
    /// number within the range ends the prompt with it, anything else is
    /// turned down with a message. Every other key edits the line.
    pub fn step(&self, session: &mut LineSession, key: Key) -> (turn: Turn<i128>)
        ensures
            final(session)@.line.wf(),
            key == Key::Enter ==> match judged(
                parsed(old(session)@.line.text),
                self@.min,
                self@.max,
            ) {
                Ok(v) => {
                    &&& final(session)@ == old(session)@
                    &&& turn.commands.deep_view() == accept_commands(self@.title, old(session)@)
                    &&& turn.answer matches Some(answer) && answer == v
                },
                Err(message) => {
                    &&& final(session)@ == (LineState {
                        line: old(session)@.line,
                        error_shown: true,
                    })
                    &&& turn.commands.deep_view() == reject_commands(message, old(session)@)
                    &&& turn.answer is None
                },
            },
            key != Key::Enter ==> {
                &&& final(session)@.line == edit(
                    old(session)@.line,
                    Some(integer_charset(self@.min)),
                    key,
                )
                &&& final(session)@.error_shown == old(session)@.error_shown
                &&& turn.commands.deep_view() == edit_commands(
                    old(session)@.line,
                    Some(integer_charset(self@.min)),
                    key,
                )
                &&& turn.answer is None
            },
    {
        match key {
            Key::Enter => {
                match Integer::validator(session.text(), self.min, self.max) {
                    Ok(value) => {
                        let commands = session.accept(self.title.as_str());
                        Turn { commands, answer: Some(value) }
                    },
                    Err(message) => {
                        let commands = session.reject(message.as_str());
                        Turn { commands, answer: None }
                    },
                }
            },
            _ => {
                let charset = Some(self.charset());
                let commands = session.edit(&charset, key);
                Turn { commands, answer: None }
            },
        }
    }
}

} // verus!

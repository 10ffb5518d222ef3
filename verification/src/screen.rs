//! What a prompt puts on the terminal: styled lines and the commands that
//! place them.

use vstd::prelude::*;
use vstd::string::StringExecFns;

verus! {

/// How a piece of text is set off from the text around it.
#[derive(Clone, Copy, Debug, PartialEq, Eq, Structural)]
pub enum Tone {
    Plain,
    Red,
    Green,
    Bold,
    Dim,
    RedBold,
}

/// A piece of text in one tone.
#[derive(Clone, Debug, PartialEq, Eq)]
pub struct Span {
    pub text: String,
    pub tone: Tone,
}

/// The mathematical content of a [`Span`].
pub struct SpanView {
    pub text: Seq<char>,
    pub tone: Tone,
}

impl DeepView for Span {
    type V = SpanView;

    open spec fn deep_view(&self) -> SpanView {
        SpanView { text: self.text@, tone: self.tone }
    }
}

/// One step of terminal output.
#[derive(Clone, Debug, PartialEq, Eq)]
pub enum Command {
    /// Write the spans and end the line.
    WriteLine(Vec<Span>),
    /// Write the spans and stay on the line.
    Write(Vec<Span>),
    /// Move the cursor this many columns to the left.
    CursorLeft(usize),
    /// Move the cursor this many columns to the right.
    CursorRight(usize),
    /// Clear the current line and go to its start.
    ClearLine,
    /// Clear this many lines above the current one and go to the first of them.
    ClearLastLines(usize),
    /// Clear this many characters before the cursor.
    ClearChars(usize),
}

/// The mathematical content of a [`Command`].
pub enum CommandView {
    WriteLine(Seq<SpanView>),
    Write(Seq<SpanView>),
    CursorLeft(usize),
    CursorRight(usize),
    ClearLine,
    ClearLastLines(usize),
    ClearChars(usize),
}

impl DeepView for Command {
    type V = CommandView;

    open spec fn deep_view(&self) -> CommandView {
        match *self {
            Command::WriteLine(spans) => CommandView::WriteLine(spans.deep_view()),
            Command::Write(spans) => CommandView::Write(spans.deep_view()),
            Command::CursorLeft(n) => CommandView::CursorLeft(n),
            Command::CursorRight(n) => CommandView::CursorRight(n),
            Command::ClearLine => CommandView::ClearLine,
            Command::ClearLastLines(n) => CommandView::ClearLastLines(n),
            Command::ClearChars(n) => CommandView::ClearChars(n),
        }
    }
}

/// How many lines of a prompt stand on the terminal after `command`, where
/// `lines` stood there before: a line that is written adds one, and lines
/// that are cleared are taken off.
pub open spec fn lines_after_command(lines: int, command: CommandView) -> int {
    match command {
        CommandView::WriteLine(_) => lines + 1,
        CommandView::ClearLastLines(n) => lines - n,
        _ => lines,
    }
}

/// How many lines of a prompt stand on the terminal after the commands of
/// `commands`, in order.
pub open spec fn lines_after(lines: int, commands: Seq<CommandView>) -> int
    decreases commands.len(),
{
    if commands.len() == 0 {
        lines
    } else {
        lines_after_command(lines_after(lines, commands.drop_last()), commands.last())
    }
}

/// Whether the commands never clear more lines than stand there when they
/// clear.
pub open spec fn clears_own_lines(lines: int, commands: Seq<CommandView>) -> bool
    decreases commands.len(),
{
    if commands.len() == 0 {
        lines >= 0
    } else {
        clears_own_lines(lines, commands.drop_last()) && lines_after(lines, commands) >= 0
    }
}

/// Whether every command of `commands` writes a line.
pub open spec fn all_write_lines(commands: Seq<CommandView>) -> bool {
    forall|i: int| 0 <= i < commands.len() ==> (#[trigger] commands[i]) is WriteLine
}

/// The lines after one command.
pub proof fn lemma_lines_after_one(lines: int, command: CommandView)
    ensures
        lines_after(lines, seq![command]) == lines_after_command(lines, command),
        clears_own_lines(lines, seq![command]) == (lines >= 0 && lines_after_command(
            lines,
            command,
        ) >= 0),
{
    reveal_with_fuel(lines_after, 2);
    reveal_with_fuel(clears_own_lines, 2);
    assert(seq![command].drop_last() =~= Seq::<CommandView>::empty());
    assert(seq![command].last() == command);
}

/// Carrying out two lists of commands one after the other leaves the lines
/// that the second leaves of what the first leaves.
pub proof fn lemma_lines_after_joined(
    lines: int,
    first: Seq<CommandView>,
    second: Seq<CommandView>,
)
    ensures
        lines_after(lines, first + second) == lines_after(lines_after(lines, first), second),
        clears_own_lines(lines, first + second) == (clears_own_lines(lines, first)
            && clears_own_lines(lines_after(lines, first), second)),
    decreases second.len(),
{
    if second.len() == 0 {
        assert(first + second =~= first);
        if clears_own_lines(lines, first) {
            lemma_lines_stay_counted(lines, first);
        }
    } else {
        assert((first + second).drop_last() =~= first + second.drop_last());
        assert((first + second).last() == second.last());
        lemma_lines_after_joined(lines, first, second.drop_last());
    }
}

/// Commands that clear no more lines than stand there leave a count of lines
/// that is not negative.
pub proof fn lemma_lines_stay_counted(lines: int, commands: Seq<CommandView>)
    requires
        clears_own_lines(lines, commands),
    ensures
        lines_after(lines, commands) >= 0,
    decreases commands.len(),
{
}

/// Whether no command of `commands` writes a line or clears lines.
pub open spec fn stays_on_line(commands: Seq<CommandView>) -> bool {
    forall|i: int|
        0 <= i < commands.len() ==> !((#[trigger] commands[i]) is WriteLine) && !(commands[i]
            is ClearLastLines)
}

/// Commands that neither write a line nor clear lines leave the lines as
/// they are.
pub proof fn lemma_lines_untouched(lines: int, commands: Seq<CommandView>)
    requires
        stays_on_line(commands),
    ensures
        lines_after(lines, commands) == lines,
        lines >= 0 ==> clears_own_lines(lines, commands),
    decreases commands.len(),
{
    if commands.len() > 0 {
        assert(!(commands.last() is WriteLine) && !(commands.last() is ClearLastLines));
        assert(stays_on_line(commands.drop_last())) by {
            assert forall|i: int| 0 <= i < commands.drop_last().len() implies !((
            #[trigger] commands.drop_last()[i]) is WriteLine) && !(commands.drop_last()[i]
                is ClearLastLines) by {
                assert(!(commands[i] is WriteLine));
            }
        }
        lemma_lines_untouched(lines, commands.drop_last());
    }
}

/// Commands that each write a line add as many lines as there are commands.
pub proof fn lemma_lines_written(lines: int, commands: Seq<CommandView>)
    requires
        all_write_lines(commands),
    ensures
        lines_after(lines, commands) == lines + commands.len(),
        lines >= 0 ==> clears_own_lines(lines, commands),
    decreases commands.len(),
{
    if commands.len() > 0 {
        assert(commands.last() is WriteLine);
        assert(all_write_lines(commands.drop_last())) by {
            assert forall|i: int| 0 <= i < commands.drop_last().len() implies (
            #[trigger] commands.drop_last()[i]) is WriteLine by {
                assert(commands[i] is WriteLine);
            }
        }
        lemma_lines_written(lines, commands.drop_last());
    }
}

/// A span of `text` in `tone`.
pub open spec fn piece(text: Seq<char>, tone: Tone) -> SpanView {
    SpanView { text, tone }
}

/// Appends a span of `text` in `tone` to `line`.
pub fn push_span(line: &mut Vec<Span>, text: String, tone: Tone)
    ensures
        final(line).deep_view() == old(line).deep_view().push(piece(text@, tone)),
{
    line.push(Span { text, tone });
    assert(line.deep_view() =~= old(line).deep_view().push(piece(text@, tone)));
}

/// Appends `command` to `script`.
pub fn push_command(script: &mut Vec<Command>, command: Command)
    ensures
        final(script).deep_view() == old(script).deep_view().push(command.deep_view()),
{
    script.push(command);
    assert(script.deep_view() =~= old(script).deep_view().push(command.deep_view()));
}

/// The key hints of a question line: for each action its key between angle
/// brackets, in red, then ` to ` and what the key does; hints are parted by
/// `, `.
pub open spec fn hints(actions: Seq<(Seq<char>, Seq<char>)>) -> Seq<SpanView>
    decreases actions.len(),
{
    if actions.len() == 0 {
        Seq::empty()
    } else {
        let lead = if actions.len() > 1 {
            seq![piece(", "@, Tone::Plain)]
        } else {
            Seq::empty()
        };
        hints(actions.drop_last()) + lead + seq![
            piece("<"@ + actions.last().0 + ">"@, Tone::Red),
            piece(" to "@ + actions.last().1, Tone::Plain),
        ]
    }
}

/// The line that asks: a green question mark, the title in bold, and the key
/// hints in parentheses.
pub open spec fn question_line(title: Seq<char>, actions: Seq<(Seq<char>, Seq<char>)>) -> Seq<
    SpanView,
> {
    seq![
        piece("?"@, Tone::Green),
        piece(" "@, Tone::Plain),
        piece(title, Tone::Bold),
        piece(" ("@, Tone::Plain),
    ] + hints(actions) + seq![piece(")"@, Tone::Plain)]
}

/// The settled line: a green question mark, the title in bold, and the answer
/// dimmed.
pub open spec fn answered_line(title: Seq<char>, answer: Seq<char>) -> Seq<SpanView> {
    seq![
        piece("?"@, Tone::Green),
        piece(" "@, Tone::Plain),
        piece(title, Tone::Bold),
        piece(" "@, Tone::Plain),
        piece(answer, Tone::Dim),
    ]
}

/// The line that reports a rejected answer: a red `X` and the message in red.
pub open spec fn error_line(message: Seq<char>) -> Seq<SpanView> {
    seq![piece("X"@, Tone::Red), piece(" "@, Tone::Plain), piece(message, Tone::Red)]
}

/// The keys and actions of `actions` as sequences of characters.
pub open spec fn action_texts(actions: Seq<(&str, &str)>) -> Seq<(Seq<char>, Seq<char>)> {
    Seq::new(actions.len(), |i: int| (actions[i].0@, actions[i].1@))
}

/// Lays out the line that asks the question `title` and names what each key
/// of `actions` does.
pub fn formatted_question(title: &str, actions: &[(&str, &str)]) -> (line: Vec<Span>)
    ensures
        line.deep_view() == question_line(title@, action_texts(actions@)),
{
    let mut line: Vec<Span> = Vec::new();
    push_span(&mut line, String::from_str("?"), Tone::Green);
    push_span(&mut line, String::from_str(" "), Tone::Plain);
    push_span(&mut line, String::from_str(title), Tone::Bold);
    push_span(&mut line, String::from_str(" ("), Tone::Plain);
    let ghost head = line.deep_view();
    let ghost texts = action_texts(actions@);
    assert(head =~= seq![
        piece("?"@, Tone::Green),
        piece(" "@, Tone::Plain),
        piece(title@, Tone::Bold),
        piece(" ("@, Tone::Plain),
    ]);
    let mut i: usize = 0;
    while i < actions.len()
        invariant
            i <= actions.len(),
            texts == action_texts(actions@),
            line.deep_view() == head + hints(texts.take(i as int)),
        decreases actions.len() - i,
    {
        if i > 0 {
            push_span(&mut line, String::from_str(", "), Tone::Plain);
        }
        let mut key = String::from_str("<");
        key.append(actions[i].0);
        key.append(">");
        let mut action = String::from_str(" to ");
        action.append(actions[i].1);
        push_span(&mut line, key, Tone::Red);
        push_span(&mut line, action, Tone::Plain);
        proof {
            let next = texts.take(i + 1);
            assert(next.drop_last() =~= texts.take(i as int));
            assert(next.last() == texts[i as int]);
            assert(line.deep_view() =~= head + hints(next));
        }
        i += 1;
    }
    assert(texts.take(i as int) =~= texts);
    push_span(&mut line, String::from_str(")"), Tone::Plain);
    line
}

/// Lays out the settled line of the question `title` with its `answer`.
pub fn formatted_answered_question(title: &str, answer: &str) -> (line: Vec<Span>)
    ensures
        line.deep_view() == answered_line(title@, answer@),
{
    let mut line: Vec<Span> = Vec::new();
    push_span(&mut line, String::from_str("?"), Tone::Green);
    push_span(&mut line, String::from_str(" "), Tone::Plain);
    push_span(&mut line, String::from_str(title), Tone::Bold);
    push_span(&mut line, String::from_str(" "), Tone::Plain);
    push_span(&mut line, String::from_str(answer), Tone::Dim);
    assert(line.deep_view() =~= answered_line(title@, answer@));
    line
}

/// Lays out the line that reports why an answer was rejected.
pub fn formatted_error(message: &str) -> (line: Vec<Span>)
    ensures
        line.deep_view() == error_line(message@),
{
    let mut line: Vec<Span> = Vec::new();
    push_span(&mut line, String::from_str("X"), Tone::Red);
    push_span(&mut line, String::from_str(" "), Tone::Plain);
    push_span(&mut line, String::from_str(message), Tone::Red);
    assert(line.deep_view() =~= error_line(message@));
    line
}

/// The escape sequence that switches `tone` on.
pub open spec fn escape(tone: Tone) -> Seq<char> {
    match tone {
        Tone::Plain => Seq::empty(),
        Tone::Red => "\x1b[31m"@,
        Tone::Green => "\x1b[32m"@,
        Tone::Bold => "\x1b[1m"@,
        Tone::Dim => "\x1b[2m"@,
        Tone::RedBold => "\x1b[31m\x1b[1m"@,
    }
}

/// The escape sequence that switches every tone off.
pub open spec fn reset() -> Seq<char> {
    "\x1b[0m"@
}

/// `text` between the escape sequences of `tone`.
pub open spec fn painted(text: Seq<char>, tone: Tone) -> Seq<char> {
    escape(tone) + text + reset()
}

/// What a span looks like on the wire, with colours on or off.
pub open spec fn shown(span: SpanView, colored: bool) -> Seq<char> {
    if colored && span.tone != Tone::Plain {
        painted(span.text, span.tone)
    } else {
        span.text
    }
}

/// The spans one after the other, each with colours on or off as `colored`
/// says at its place.
pub open spec fn flat(spans: Seq<SpanView>, colored: Seq<bool>) -> Seq<char>
    decreases spans.len(),
{
    if spans.len() == 0 {
        Seq::empty()
    } else {
        flat(spans.drop_last(), colored.drop_last()) + shown(spans.last(), colored.last())
    }
}

/// The text of the spans one after the other, without any styling.
pub open spec fn plain_text(spans: Seq<SpanView>) -> Seq<char>
    decreases spans.len(),
{
    if spans.len() == 0 {
        Seq::empty()
    } else {
        plain_text(spans.drop_last()) + spans.last().text
    }
}

/// Where no span has its colours on, the line is its plain text.
pub proof fn lemma_flat_without_colours(spans: Seq<SpanView>, colored: Seq<bool>)
    requires
        colored.len() == spans.len(),
        forall|i: int| 0 <= i < colored.len() ==> !colored[i],
    ensures
        flat(spans, colored) == plain_text(spans),
    decreases spans.len(),
{
    if spans.len() > 0 {
        assert(!colored[colored.len() - 1]);
        lemma_flat_without_colours(spans.drop_last(), colored.drop_last());
    }
}

/// `console::style(text).red()`, formatted. The result is `text` itself while
/// colours are off for standard output, and `text` between the red escape
/// sequence and the reset sequence while they are on.
#[verifier::external_body]
fn red(text: &str) -> (out: String)
    ensures
        out@ == text@ || out@ == painted(text@, Tone::Red),
{
    console::style(text).red().to_string()
}

/// `console::style(text).green()`, formatted. The result is `text` itself
/// while colours are off for standard output, and `text` between the green
/// escape sequence and the reset sequence while they are on.
#[verifier::external_body]
fn green(text: &str) -> (out: String)
    ensures
        out@ == text@ || out@ == painted(text@, Tone::Green),
{
    console::style(text).green().to_string()
}

/// `console::style(text).bold()`, formatted. The result is `text` itself while
/// colours are off for standard output, and `text` between the bold escape
/// sequence and the reset sequence while they are on.
#[verifier::external_body]
fn bold(text: &str) -> (out: String)
    ensures
        out@ == text@ || out@ == painted(text@, Tone::Bold),
{
    console::style(text).bold().to_string()
}

/// `console::style(text).dim()`, formatted. The result is `text` itself while
/// colours are off for standard output, and `text` between the dim escape
/// sequence and the reset sequence while they are on.
#[verifier::external_body]
fn dim(text: &str) -> (out: String)
    ensures
        out@ == text@ || out@ == painted(text@, Tone::Dim),
{
    console::style(text).dim().to_string()
}

/// `console::style(text).red().bold()`, formatted. The result is `text` itself
/// while colours are off for standard output, and `text` between the red and
/// bold escape sequences and the reset sequence while they are on.
#[verifier::external_body]
fn red_bold(text: &str) -> (out: String)
    ensures
        out@ == text@ || out@ == painted(text@, Tone::RedBold),
{
    console::style(text).red().bold().to_string()
}

/// The span as the terminal is to receive it.
fn paint(span: &Span) -> (out: String)
    ensures
        out@ == shown(span.deep_view(), false) || out@ == shown(span.deep_view(), true),
{
    match span.tone {
        Tone::Plain => span.text.clone(),
        Tone::Red => red(span.text.as_str()),
        Tone::Green => green(span.text.as_str()),
        Tone::Bold => bold(span.text.as_str()),
        Tone::Dim => dim(span.text.as_str()),
        Tone::RedBold => red_bold(span.text.as_str()),
    }
}

/// The line as the terminal is to receive it: every span in its tone. Whether
/// a tone comes out as escape sequences depends on the terminal, so each span
/// stands either bare or between the sequences of its tone.
pub fn render(spans: &Vec<Span>) -> (out: String)
    ensures
        exists|colored: Seq<bool>|
            colored.len() == spans@.len() && out@ == flat(spans.deep_view(), colored),
{
    let mut out = String::new();
    let ghost mut colored: Seq<bool> = Seq::empty();
    let mut i: usize = 0;
    while i < spans.len()
        invariant
            i <= spans.len(),
            colored.len() == i,
            out@ == flat(spans.deep_view().take(i as int), colored),
        decreases spans.len() - i,
    {
        let part = paint(&spans[i]);
        proof {
            let next = spans.deep_view().take(i + 1);
            let on = part@ != shown(spans[i as int].deep_view(), false);
            assert(next.drop_last() =~= spans.deep_view().take(i as int));
            assert(colored.push(on).drop_last() =~= colored);
            assert(next.last() == spans[i as int].deep_view());
            colored = colored.push(on);
        }
        out.append(part.as_str());
        i += 1;
    }
    assert(spans.deep_view().take(i as int) =~= spans.deep_view());
    out
}

/// The text of the line without any styling.
pub fn plain(spans: &Vec<Span>) -> (out: String)
    ensures
        out@ == plain_text(spans.deep_view()),
{
    let mut out = String::new();
    let mut i: usize = 0;
    while i < spans.len()
        invariant
            i <= spans.len(),
            out@ == plain_text(spans.deep_view().take(i as int)),
        decreases spans.len() - i,
    {
        proof {
            let next = spans.deep_view().take(i + 1);
            assert(next.drop_last() =~= spans.deep_view().take(i as int));
            assert(next.last() == spans[i as int].deep_view());
        }
        out.append(spans[i].text.as_str());
        i += 1;
    }
    assert(spans.deep_view().take(i as int) =~= spans.deep_view());
    out
}

} // verus!

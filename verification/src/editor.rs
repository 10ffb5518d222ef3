//! The line editor that the text prompts share: what each key does to the
//! line, and what the terminal is told to do about it.

use vstd::prelude::*;
use vstd::string::StringExecFns;
use crate::buffer::{EditBuffer, Line};
use crate::chars::{chars_of, contains_char, is_control, is_control_char, text_of};
use crate::keys::Key;
use crate::screen::{
    answered_line, error_line, formatted_answered_question, formatted_error, formatted_question,
    clears_own_lines, lemma_lines_after_joined, lemma_lines_after_one, lemma_lines_untouched,
    lines_after, piece, plain_text, push_command, push_span, question_line, Command, CommandView,
    Span, SpanView, Tone,
};

verus! {

/// What a prompt hands back for one key: the terminal commands to carry out,
/// in order, and the answer once the prompt is over.
pub struct Turn<A> {
    pub commands: Vec<Command>,
    pub answer: Option<A>,
}

/// Whether the editor takes the character: it is printable, and it belongs to
/// the character set where there is one.
pub open spec fn admits(charset: Option<Seq<char>>, c: char) -> bool {
    !is_control(c) && (charset matches Some(set) ==> set.contains(c))
}

/// The line after `key`.
pub open spec fn edit(line: Line, charset: Option<Seq<char>>, key: Key) -> Line {
    match key {
        Key::Char(c) => if admits(charset, c) {
            line.insert(c)
        } else {
            line
        },
        Key::Backspace => line.backspace(),
        Key::ArrowLeft => line.left(),
        Key::ArrowRight => line.right(),
        _ => line,
    }
}

/// The line after the keys of `keys`, pressed in order.
pub open spec fn edit_all(line: Line, charset: Option<Seq<char>>, keys: Seq<Key>) -> Line
    decreases keys.len(),
{
    if keys.len() == 0 {
        line
    } else {
        edit(edit_all(line, charset, keys.drop_last()), charset, keys.last())
    }
}

/// The input line as it is shown: the prompt marker in red, a blank, and the
/// text typed so far.
pub open spec fn prompt_line(text: Seq<char>) -> Seq<SpanView> {
    seq![
        piece("\u{276f}\u{276f}"@, Tone::Red),
        piece(" "@, Tone::Plain),
        piece(text, Tone::Plain),
    ]
}

/// Paints the input line on an empty terminal line: the whole line is written,
/// then the cursor goes back from the end of the text to its place.
pub open spec fn paint(line: Line) -> Seq<CommandView> {
    seq![
        CommandView::Write(prompt_line(line.text)),
        CommandView::CursorLeft((line.text.len() - line.cursor) as usize),
    ]
}

/// What the terminal is told after an editing key. A change at the end of the
/// line is patched in place; a change inside the line clears and repaints it.
pub open spec fn edit_commands(line: Line, charset: Option<Seq<char>>, key: Key) -> Seq<
    CommandView,
> {
    match key {
        Key::Char(c) => if !admits(charset, c) {
            Seq::empty()
        } else if line.cursor == line.text.len() {
            seq![CommandView::Write(seq![piece(seq![c], Tone::Plain)])]
        } else {
            seq![CommandView::ClearLine] + paint(line.insert(c))
        },
        Key::Backspace => if line.cursor <= 0 {
            Seq::empty()
        } else if line.cursor == line.text.len() {
            seq![CommandView::ClearChars(1)]
        } else {
            seq![CommandView::ClearLine] + paint(line.backspace())
        },
        Key::ArrowLeft => if line.cursor > 0 {
            seq![CommandView::CursorLeft(1)]
        } else {
            Seq::empty()
        },
        Key::ArrowRight => if line.cursor < line.text.len() {
            seq![CommandView::CursorRight(1)]
        } else {
            Seq::empty()
        },
        _ => Seq::empty(),
    }
}

/// The keys a text prompt names in its question line.
pub open spec fn proceed_hint() -> Seq<(Seq<char>, Seq<char>)> {
    seq![("enter"@, "proceed"@)]
}

/// What the terminal is told when a text prompt starts: the question line,
/// then the input line.
pub open spec fn begin_commands(title: Seq<char>, line: Line) -> Seq<CommandView> {
    seq![CommandView::WriteLine(question_line(title, proceed_hint()))] + paint(line)
}

/// What the terminal is told when the answer is taken: the input line, the
/// question line and an error line, if one is shown, go, and the settled line
/// takes their place.
pub open spec fn accept_commands(title: Seq<char>, state: LineState) -> Seq<CommandView> {
    seq![
        CommandView::ClearLine,
        CommandView::ClearLastLines(
            if state.error_shown {
                2usize
            } else {
                1usize
            },
        ),
        CommandView::WriteLine(answered_line(title, state.line.text)),
    ]
}

/// What the terminal is told when the answer is turned down: the input line
/// and an earlier error line go, the new error line is written, and the input
/// line is painted again below it.
pub open spec fn reject_commands(message: Seq<char>, state: LineState) -> Seq<CommandView> {
    seq![CommandView::ClearLine] + (if state.error_shown {
        seq![CommandView::ClearLastLines(1)]
    } else {
        Seq::empty()
    }) + seq![CommandView::WriteLine(error_line(message))] + paint(state.line)
}

/// The state of a text prompt between two keys.
pub struct LineState {
    /// The line being edited.
    pub line: Line,
    /// Whether an error line stands between the question and the input line.
    pub error_shown: bool,
}

/// A text prompt in progress.
pub struct LineSession {
    buffer: EditBuffer,
    error_shown: bool,
}

impl View for LineSession {
    type V = LineState;

    closed spec fn view(&self) -> LineState {
        LineState { line: self.buffer@, error_shown: self.error_shown }
    }
}

/// The characters of a character set, if there is one.
pub open spec fn charset_view(charset: Option<Vec<char>>) -> Option<Seq<char>> {
    match charset {
        Some(set) => Some(set@),
        None => None,
    }
}

/// The text of a default answer; no default is the empty text.
pub open spec fn default_text(default: Option<String>) -> Seq<char> {
    match default {
        Some(text) => text@,
        None => Seq::empty(),
    }
}

/// The commands that paint the line of `buffer`.
fn paint_line(script: &mut Vec<Command>, buffer: &EditBuffer)
    ensures
        final(script).deep_view() == old(script).deep_view() + paint(buffer@),
        buffer@.wf(),
{
    let mut spans: Vec<Span> = Vec::new();
    push_span(&mut spans, String::from_str("\u{276f}\u{276f}"), Tone::Red);
    push_span(&mut spans, String::from_str(" "), Tone::Plain);
    push_span(&mut spans, text_of(buffer.chars()), Tone::Plain);
    assert(spans.deep_view() =~= prompt_line(buffer@.text));
    let back = buffer.len() - buffer.cursor();
    push_command(script, Command::Write(spans));
    push_command(script, Command::CursorLeft(back));
    assert(script.deep_view() =~= old(script).deep_view() + paint(buffer@));
}

impl LineSession {
    /// Starts a text prompt: the line holds the default answer, with the
    /// cursor behind it, and no error is shown.
    pub fn begin(title: &str, default: &Option<String>) -> (started: (LineSession, Vec<Command>))
        ensures
            started.0@ == (LineState {
                line: Line::at_end(default_text(*default)),
                error_shown: false,
            }),
            started.0@.line.wf(),
            started.1.deep_view() == begin_commands(title@, started.0@.line),
    {
        let text: Vec<char> = match default {
            Some(text) => chars_of(text.as_str()),
            None => Vec::new(),
        };
        let buffer = EditBuffer::new(text);
        let mut script: Vec<Command> = Vec::new();
        let hint = [("enter", "proceed")];
        assert(crate::screen::action_texts(hint@) =~= proceed_hint());
        push_command(&mut script, Command::WriteLine(formatted_question(title, &hint)));
        paint_line(&mut script, &buffer);
        assert(script.deep_view() =~= begin_commands(title@, buffer@));
        (LineSession { buffer, error_shown: false }, script)
    }

    /// The offset of the cursor on the line, in characters.
    pub fn cursor(&self) -> (at: usize)
        ensures
            at == self@.line.cursor,
            self@.line.wf(),
    {
        self.buffer.cursor()
    }

    /// Whether an error line stands between the question and the input line.
    pub fn error_shown(&self) -> (shown: bool)
        ensures
            shown == self@.error_shown,
    {
        self.error_shown
    }

    /// The text typed so far.
    pub fn text(&self) -> (text: String)
        ensures
            text@ == self@.line.text,
            self@.line.wf(),
    {
        let _ = self.buffer.len();
        text_of(self.buffer.chars())
    }

    /// Applies an editing key. Enter and the keys the editor does not know
    /// leave the line as it is.
    pub fn edit(&mut self, charset: &Option<Vec<char>>, key: Key) -> (commands: Vec<Command>)
        ensures
            final(self)@.line == edit(old(self)@.line, charset_view(*charset), key),
            final(self)@.error_shown == old(self)@.error_shown,
            final(self)@.line.wf(),
            commands.deep_view() == edit_commands(old(self)@.line, charset_view(*charset), key),
    {
        let mut script: Vec<Command> = Vec::new();
        let at_end = self.buffer.cursor() == self.buffer.len();
        match key {
            Key::Char(c) => {
                let allowed = !is_control_char(c) && match charset {
                    Some(set) => contains_char(set, c),
                    None => true,
                };
                if allowed {
                    self.buffer.insert(c);
                    if at_end {
                        let mut typed = String::new();
                        typed.push(c);
                        assert(typed@ =~= seq![c]);
                        let mut spans: Vec<Span> = Vec::new();
                        push_span(&mut spans, typed, Tone::Plain);
                        assert(spans.deep_view() =~= seq![piece(seq![c], Tone::Plain)]);
                        push_command(&mut script, Command::Write(spans));
                    } else {
                        push_command(&mut script, Command::ClearLine);
                        paint_line(&mut script, &self.buffer);
                    }
                }
            },
            Key::Backspace => {
                if self.buffer.backspace() {
                    if at_end {
                        push_command(&mut script, Command::ClearChars(1));
                    } else {
                        push_command(&mut script, Command::ClearLine);
                        paint_line(&mut script, &self.buffer);
                    }
                }
            },
            Key::ArrowLeft => {
                if self.buffer.left() {
                    push_command(&mut script, Command::CursorLeft(1));
                }
            },
            Key::ArrowRight => {
                if self.buffer.right() {
                    push_command(&mut script, Command::CursorRight(1));
                }
            },
            _ => {},
        }
        assert(script.deep_view() =~= edit_commands(
            old(self)@.line,
            charset_view(*charset),
            key,
        ));
        script
    }

    /// Takes the text as the answer to the question `title`.
    pub fn accept(&self, title: &str) -> (commands: Vec<Command>)
        ensures
            commands.deep_view() == accept_commands(title@, self@),
    {
        let mut script: Vec<Command> = Vec::new();
        let text = self.text();
        push_command(&mut script, Command::ClearLine);
        push_command(&mut script, Command::ClearLastLines(if self.error_shown { 2 } else { 1 }));
        push_command(
            &mut script,
            Command::WriteLine(formatted_answered_question(title, text.as_str())),
        );
        assert(script.deep_view() =~= accept_commands(title@, self@));
        script
    }

    /// Turns the text down with `message` and goes on editing.
    pub fn reject(&mut self, message: &str) -> (commands: Vec<Command>)
        ensures
            final(self)@ == (LineState { line: old(self)@.line, error_shown: true }),
            commands.deep_view() == reject_commands(message@, old(self)@),
    {
        let mut script: Vec<Command> = Vec::new();
        push_command(&mut script, Command::ClearLine);
        if self.error_shown {
            push_command(&mut script, Command::ClearLastLines(1));
        }
        push_command(&mut script, Command::WriteLine(formatted_error(message)));
        paint_line(&mut script, &self.buffer);
        self.error_shown = true;
        assert(script.deep_view() =~= reject_commands(message@, old(self)@));
        script
    }
}

/// How many lines of a text prompt stand on the terminal above the input
/// line: the question line, and an error line if one is shown.
pub open spec fn lines_up(state: LineState) -> int {
    if state.error_shown {
        2
    } else {
        1
    }
}

/// A text prompt clears the lines that it wrote, and no others. When it
/// starts, the question line stands above the input line. An editing key
/// writes and clears no line. Taking the answer clears the question line and
/// the error line, if one is shown, and leaves the settled line alone. Turning
/// the answer down leaves the question line and one error line.
pub proof fn lemma_text_prompt_clears_its_lines(
    title: Seq<char>,
    state: LineState,
    charset: Option<Seq<char>>,
    key: Key,
    message: Seq<char>,
)
    ensures
        lines_after(0, begin_commands(title, state.line)) == 1,
        clears_own_lines(0, begin_commands(title, state.line)),
        lines_after(lines_up(state), edit_commands(state.line, charset, key)) == lines_up(state),
        clears_own_lines(lines_up(state), edit_commands(state.line, charset, key)),
        lines_after(lines_up(state), accept_commands(title, state)) == 1,
        clears_own_lines(lines_up(state), accept_commands(title, state)),
        lines_after(lines_up(state), reject_commands(message, state)) == 2,
        clears_own_lines(lines_up(state), reject_commands(message, state)),
{
    let question = seq![CommandView::WriteLine(question_line(title, proceed_hint()))];
    lemma_lines_after_one(0, question[0]);
    lemma_lines_untouched(1, paint(state.line));
    lemma_lines_after_joined(0, question, paint(state.line));

    lemma_lines_untouched(lines_up(state), edit_commands(state.line, charset, key));

    let up = lines_up(state);
    let clear_line = seq![CommandView::ClearLine];
    let clear_up = seq![CommandView::ClearLastLines(up as usize)];
    let settled = seq![CommandView::WriteLine(answered_line(title, state.line.text))];
    lemma_lines_after_one(up, clear_line[0]);
    lemma_lines_after_one(up, clear_up[0]);
    lemma_lines_after_one(0, settled[0]);
    lemma_lines_after_joined(up, clear_line, clear_up);
    lemma_lines_after_joined(up, clear_line + clear_up, settled);
    assert(accept_commands(title, state) =~= clear_line + clear_up + settled);

    let clear_error = if state.error_shown {
        seq![CommandView::ClearLastLines(1)]
    } else {
        Seq::empty()
    };
    let error = seq![CommandView::WriteLine(error_line(message))];
    if state.error_shown {
        lemma_lines_after_one(up, clear_error[0]);
    }
    lemma_lines_after_one(1, error[0]);
    lemma_lines_untouched(2, paint(state.line));
    lemma_lines_after_joined(up, clear_line, clear_error);
    lemma_lines_after_joined(up, clear_line + clear_error, error);
    lemma_lines_after_joined(up, clear_line + clear_error + error, paint(state.line));
}

/// What one line of the terminal shows, styling apart: its characters, and
/// the column of the cursor.
pub struct Shown {
    pub text: Seq<char>,
    pub column: int,
}

/// The columns that the prompt marker and the blank behind it take.
pub open spec fn prompt_width() -> int {
    3
}

/// The terminal line that shows `line`: the prompt marker, a blank and the
/// text, with the cursor as many columns behind the blank as the cursor of
/// the line is characters into the text.
pub open spec fn shows(line: Line) -> Shown {
    Shown {
        text: plain_text(prompt_line(line.text)),
        column: prompt_width() + line.cursor,
    }
}

/// The terminal line after `command`. Written text replaces what stands at
/// the cursor and moves the cursor behind it; clearing characters moves the
/// cursor back and erases from there to the end of the line. A command that
/// ends the line or clears other lines leaves the line as it is.
pub open spec fn after_command(screen: Shown, command: CommandView) -> Shown {
    match command {
        CommandView::Write(spans) => {
            let text = plain_text(spans);
            let rest = if screen.column + text.len() < screen.text.len() {
                screen.text.skip(screen.column + text.len())
            } else {
                Seq::empty()
            };
            Shown {
                text: screen.text.take(screen.column) + text + rest,
                column: screen.column + text.len(),
            }
        },
        CommandView::CursorLeft(n) => Shown {
            text: screen.text,
            column: if screen.column >= n {
                screen.column - n
            } else {
                0
            },
        },
        CommandView::CursorRight(n) => Shown { text: screen.text, column: screen.column + n },
        CommandView::ClearLine => Shown { text: Seq::empty(), column: 0 },
        CommandView::ClearChars(n) => {
            let column = if screen.column >= n {
                screen.column - n
            } else {
                0
            };
            Shown { text: screen.text.take(column), column }
        },
        _ => screen,
    }
}

/// The terminal line after the commands of `commands`, in order.
pub open spec fn after_commands(screen: Shown, commands: Seq<CommandView>) -> Shown
    decreases commands.len(),
{
    if commands.len() == 0 {
        screen
    } else {
        after_command(after_commands(screen, commands.drop_last()), commands.last())
    }
}

/// The input line as plain text: the marker, a blank and the text.
proof fn lemma_prompt_line_text(text: Seq<char>)
    ensures
        plain_text(prompt_line(text)) == "\u{276f}\u{276f}"@ + " "@ + text,
        plain_text(prompt_line(text)).len() == prompt_width() + text.len(),
{
    reveal_strlit("\u{276f}\u{276f}");
    reveal_strlit(" ");
    let spans = prompt_line(text);
    let two = spans.drop_last();
    let one = two.drop_last();
    assert(one.drop_last() =~= Seq::<SpanView>::empty());
    assert(plain_text(one.drop_last()) =~= Seq::<char>::empty());
    assert(plain_text(one) =~= "\u{276f}\u{276f}"@);
    assert(plain_text(two) =~= "\u{276f}\u{276f}"@ + " "@);
    assert(plain_text(spans) =~= "\u{276f}\u{276f}"@ + " "@ + text);
}

/// Painting a line on a cleared terminal line shows the line.
proof fn lemma_paint_shows(line: Line)
    requires
        line.wf(),
        line.text.len() <= usize::MAX,
    ensures
        after_commands(Shown { text: Seq::empty(), column: 0 }, paint(line)) == shows(line),
{
    lemma_prompt_line_text(line.text);
    let blank = Shown { text: Seq::<char>::empty(), column: 0 };
    let commands = paint(line);
    let first = commands.drop_last();
    assert(first.drop_last() =~= Seq::<CommandView>::empty());
    assert(after_commands(blank, first.drop_last()) == blank);
    let written = after_command(blank, first.last());
    assert(written.text =~= plain_text(prompt_line(line.text)));
    assert(after_commands(blank, first) == written);
    assert(after_commands(blank, commands) == after_command(written, commands.last()));
}

/// After every editing key the terminal line shows the line as it is then:
/// the commands that patch the terminal line leave on it what a full repaint
/// would, with the cursor in the same column.
pub proof fn lemma_commands_show_the_line(line: Line, charset: Option<Seq<char>>, key: Key)
    requires
        line.wf(),
        line.text.len() < usize::MAX,
    ensures
        after_commands(shows(line), edit_commands(line, charset, key)) == shows(
            edit(line, charset, key),
        ),
{
    let commands = edit_commands(line, charset, key);
    let next = edit(line, charset, key);
    lemma_prompt_line_text(line.text);
    lemma_prompt_line_text(next.text);
    let full = plain_text(prompt_line(line.text));
    if commands.len() == 0 {
    } else if commands.len() == 1 {
        assert(commands.drop_last() =~= Seq::<CommandView>::empty());
        assert(after_commands(shows(line), commands.drop_last()) == shows(line));
        match commands[0] {
            CommandView::Write(spans) => {
                let c = key->Char_0;
                assert(spans.drop_last() =~= Seq::<SpanView>::empty());
                assert(plain_text(spans.drop_last()) =~= Seq::<char>::empty());
                assert(plain_text(spans) =~= seq![c]);
                assert(next.text =~= line.text.push(c));
                assert(after_command(shows(line), commands[0]).text =~= shows(next).text);
            },
            CommandView::ClearChars(n) => {
                assert(next.text =~= line.text.drop_last());
                assert(after_command(shows(line), commands[0]).text =~= shows(next).text);
            },
            _ => {},
        }
    } else {
        lemma_paint_shows(next);
        let blank = Shown { text: Seq::<char>::empty(), column: 0 };
        assert(commands == seq![CommandView::ClearLine] + paint(next));
        lemma_after_commands_joined(shows(line), seq![CommandView::ClearLine], paint(next));
        assert(seq![CommandView::ClearLine].drop_last() =~= Seq::<CommandView>::empty());
        assert(after_commands(shows(line), seq![CommandView::ClearLine]) == blank);
    }
}

/// Carrying out two lists of commands one after the other is carrying out
/// the first and then the second.
proof fn lemma_after_commands_joined(screen: Shown, first: Seq<CommandView>, second: Seq<
    CommandView,
>)
    ensures
        after_commands(screen, first + second) == after_commands(
            after_commands(screen, first),
            second,
        ),
    decreases second.len(),
{
    if second.len() == 0 {
        assert(first + second =~= first);
    } else {
        assert((first + second).drop_last() =~= first + second.drop_last());
        assert((first + second).last() == second.last());
        lemma_after_commands_joined(screen, first, second.drop_last());
    }
}

/// Typing a text on an empty line, every character of which the editor takes,
/// leaves that text on the line with the cursor behind it.
pub proof fn lemma_typing_spells_the_text(
    charset: Option<Seq<char>>,
    text: Seq<char>,
    keys: Seq<Key>,
)
    requires
        keys.len() == text.len(),
        forall|i: int| 0 <= i < text.len() ==> #[trigger] keys[i] == Key::Char(text[i]),
        forall|i: int| 0 <= i < text.len() ==> admits(charset, #[trigger] text[i]),
    ensures
        edit_all(Line::at_end(Seq::empty()), charset, keys) == Line::at_end(text),
    decreases text.len(),
{
    if text.len() > 0 {
        let shorter = text.drop_last();
        assert forall|i: int| 0 <= i < shorter.len() implies admits(
            charset,
            #[trigger] shorter[i],
        ) by {
            assert(admits(charset, text[i]));
        }
        assert forall|i: int| 0 <= i < shorter.len() implies #[trigger] keys.drop_last()[i]
            == Key::Char(shorter[i]) by {
            assert(keys[i] == Key::Char(text[i]));
        }
        lemma_typing_spells_the_text(charset, shorter, keys.drop_last());
        assert(keys.last() == Key::Char(text.last()));
        assert(admits(charset, text[text.len() - 1]));
        assert(shorter.insert(shorter.len() as int, text.last()) =~= text);
    } else {
        assert(text =~= Seq::<char>::empty());
    }
}

/// The cursor stays on the line whatever key is pressed.
pub proof fn lemma_edit_keeps_cursor_on_line(line: Line, charset: Option<Seq<char>>, key: Key)
    requires
        line.wf(),
    ensures
        edit(line, charset, key).wf(),
{
}

/// The cursor stays on the line after every key of any sequence of keys.
pub proof fn lemma_cursor_stays_on_line(line: Line, charset: Option<Seq<char>>, keys: Seq<Key>)
    requires
        line.wf(),
    ensures
        forall|n: int| 0 <= n <= keys.len() ==> (#[trigger] edit_all(line, charset, keys.take(n))).wf(),
    decreases keys.len(),
{
    assert forall|n: int| 0 <= n <= keys.len() implies (#[trigger] edit_all(
        line,
        charset,
        keys.take(n),
    )).wf() by {
        if n > 0 {
            let shorter = keys.take(n).drop_last();
            assert(shorter =~= keys.take(n - 1));
            lemma_cursor_stays_on_line(line, charset, keys.take(n - 1));
            assert(keys.take(n - 1).take(n - 1) =~= keys.take(n - 1));
            lemma_edit_keeps_cursor_on_line(
                edit_all(line, charset, shorter),
                charset,
                keys.take(n).last(),
            );
        }
    }
}

/// A character outside the character set changes neither the line nor the
/// cursor, and nothing is sent to the terminal.
pub proof fn lemma_charset_filters(line: Line, set: Seq<char>, c: char)
    requires
        !set.contains(c),
    ensures
        edit(line, Some(set), Key::Char(c)) == line,
        edit_commands(line, Some(set), Key::Char(c)) == Seq::<CommandView>::empty(),
{
}

} // verus!

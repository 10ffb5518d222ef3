//! The single-choice prompt: one option out of a fixed list.

use vstd::prelude::*;
use vstd::string::StringExecFns;
use crate::error::{out_of_range, Error};
use crate::editor::Turn;
use crate::keys::Key;
use crate::navigator::{
    lemma_page_holds_index, navigate, navigates, page_len, page_start, window_of, window_size,
    Menu, MenuView,
};
use crate::screen::{
    action_texts, answered_line, clears_own_lines, formatted_answered_question,
    formatted_question, lemma_lines_after_joined, lemma_lines_after_one, lemma_lines_written,
    lines_after, piece, push_command, push_span, question_line, Command, CommandView, Span,
    SpanView, Tone,
};

verus! {

/// A type whose values are the options of a choice: a fixed list, each option
/// with its place in the list and the label it is shown with.
pub trait SelectEnum: Sized + 'static {
    /// The options, in order.
    const VARIANTS: &'static [Self];

    /// The label of the option.
    fn prompt(&self) -> &'static str;

    /// The place of the option in the list, counted from 0.
    fn to_index(&self) -> usize;

    /// The option at place `n`; none where the list has no such place.
    fn from_index(n: usize) -> Option<Self>;
}

/// Whether `text` is what option `index` of `T` gave as its label.
pub open spec fn label_of<T: SelectEnum>(index: int, text: Seq<char>) -> bool {
    exists|label: &'static str|
        call_ensures(T::prompt, (&T::VARIANTS@[index],), label) && label@ == text
}

/// Whether `labels` holds, for each option of `T` in order, what the option
/// gave as its label.
pub open spec fn labels_of<T: SelectEnum>(labels: Seq<Seq<char>>) -> bool {
    &&& labels.len() == T::VARIANTS@.len()
    &&& forall|i: int| 0 <= i < labels.len() ==> #[trigger] label_of::<T>(i, labels[i])
}

/// Asks each option of `T` for its label.
pub fn read_labels<T: SelectEnum>() -> (labels: Vec<String>)
    ensures
        labels_of::<T>(labels.deep_view()),
{
    let mut labels: Vec<String> = Vec::new();
    let mut i: usize = 0;
    while i < T::VARIANTS.len()
        invariant
            i <= T::VARIANTS@.len(),
            labels@.len() == i,
            forall|j: int| 0 <= j < i ==> #[trigger] label_of::<T>(j, labels.deep_view()[j]),
        decreases T::VARIANTS@.len() - i,
    {
        let label = T::VARIANTS[i].prompt();
        let ghost before = labels.deep_view();
        labels.push(String::from_str(label));
        proof {
            assert(labels.deep_view() =~= before.push(label@));
            assert(label_of::<T>(i as int, label@));
            assert forall|j: int| 0 <= j < i + 1 implies #[trigger] label_of::<T>(
                j,
                labels.deep_view()[j],
            ) by {
                if j < i {
                    assert(label_of::<T>(j, before[j]));
                }
            }
        }
        i += 1;
    }
    labels
}

/// Asks for one option of `T`.
pub struct Select<T: SelectEnum> {
    title: String,
    initial: Option<T>,
}

/// The state of a choice between two keys.
pub struct SelectState {
    /// The options and the cursor.
    pub menu: MenuView,
    /// Whether the prompt is over.
    pub finished: bool,
}

/// A single choice in progress.
pub struct SelectSession {
    menu: Menu,
    finished: bool,
}

impl View for SelectSession {
    type V = SelectState;

    closed spec fn view(&self) -> SelectState {
        SelectState { menu: self.menu@, finished: self.finished }
    }
}

impl SelectSession {
    /// The place of the option at which the cursor stands.
    pub fn cursor(&self) -> (cursor: usize)
        ensures
            cursor == self@.menu.cursor,
            self@.menu.wf(),
    {
        self.menu.cursor()
    }

    /// Whether the prompt is over.
    pub fn finished(&self) -> (finished: bool)
        ensures
            finished == self@.finished,
    {
        self.finished
    }
}

/// The key hints of a choice that must be made.
pub open spec fn pick_hints() -> Seq<(Seq<char>, Seq<char>)> {
    seq![("enter"@, "select"@)]
}

/// The key hints of a choice that may be skipped.
pub open spec fn skip_hints() -> Seq<(Seq<char>, Seq<char>)> {
    seq![("space"@, "select"@), ("enter"@, "skip"@)]
}

/// The key hints of a choice.
pub open spec fn select_hints(optional: bool) -> Seq<(Seq<char>, Seq<char>)> {
    if optional {
        skip_hints()
    } else {
        pick_hints()
    }
}

/// The row of an option: at the cursor a red arrow and the label in bold red,
/// elsewhere the label behind two blanks.
pub open spec fn select_row(label: Seq<char>, at_cursor: bool) -> Seq<SpanView> {
    if at_cursor {
        seq![
            piece("\u{276f}"@, Tone::Red),
            piece(" "@, Tone::Plain),
            piece(label, Tone::RedBold),
        ]
    } else {
        seq![piece("  "@, Tone::Plain), piece(label, Tone::Plain)]
    }
}

/// The rows of the page on which the cursor stands, one line each.
pub open spec fn select_rows(labels: Seq<Seq<char>>, cursor: int, window: int) -> Seq<CommandView> {
    Seq::new(
        page_len(labels.len() as int, cursor, window) as nat,
        |i: int|
            CommandView::WriteLine(
                select_row(
                    labels[page_start(cursor, window) + i],
                    page_start(cursor, window) + i == cursor,
                ),
            ),
    )
}

/// The question line and, below it, the page on which the cursor stands.
pub open spec fn select_paint(
    title: Seq<char>,
    optional: bool,
    labels: Seq<Seq<char>>,
    cursor: int,
    window: int,
) -> Seq<CommandView> {
    seq![CommandView::WriteLine(question_line(title, select_hints(optional)))] + select_rows(
        labels,
        cursor,
        window,
    )
}

/// What the terminal is told after a key that moves the cursor: the question
/// line and the options that are shown go, and the prompt is painted anew.
pub open spec fn select_repaint(
    title: Seq<char>,
    optional: bool,
    before: MenuView,
    cursor: int,
    window: int,
) -> Seq<CommandView> {
    seq![CommandView::ClearLastLines((before.shown + 1) as usize)] + select_paint(
        title,
        optional,
        before.labels,
        cursor,
        window,
    )
}

/// What the terminal is told when the prompt settles on `answer`: the question
/// line and the options that are shown go, and the settled line is written.
pub open spec fn select_settle(title: Seq<char>, before: MenuView, answer: Seq<char>) -> Seq<
    CommandView,
> {
    seq![
        CommandView::ClearLastLines((before.shown + 1) as usize),
        CommandView::WriteLine(answered_line(title, answer)),
    ]
}

/// The state after a key that moves the cursor.
pub open spec fn select_moved(before: SelectState, key: Key, window: int) -> SelectState {
    let cursor = navigate(before.menu.cursor, before.menu.labels.len() as int, key);
    SelectState {
        menu: MenuView {
            cursor,
            shown: page_len(before.menu.labels.len() as int, cursor, window),
            ..before.menu
        },
        finished: false,
    }
}

/// How the option that the list gave for the cursor ends the prompt. With an
/// option the prompt settles on its label and answers with the option. With
/// none the options that are shown go and the prompt fails.
pub open spec fn picked<T>(
    title: Seq<char>,
    before: SelectState,
    found: Option<T>,
    after: SelectState,
    turn: Turn<Result<T, Error>>,
) -> bool {
    &&& after == (SelectState { finished: true, ..before })
    &&& match found {
        Some(option) => {
            &&& turn.commands.deep_view() == select_settle(
                title,
                before.menu,
                before.menu.labels[before.menu.cursor],
            )
            &&& turn.answer == Some(Ok::<T, Error>(option))
        },
        None => {
            &&& turn.commands.deep_view() == seq![
                CommandView::ClearLastLines((before.menu.shown + 1) as usize),
            ]
            &&& turn.answer matches Some(Err(Error::Other(text)))
            &&& text@ == out_of_range()
        },
    }
}

/// As [`picked`], for a choice that may be skipped: the answer holds the
/// option.
pub open spec fn picked_opt<T>(
    title: Seq<char>,
    before: SelectState,
    found: Option<T>,
    after: SelectState,
    turn: Turn<Result<Option<T>, Error>>,
) -> bool {
    &&& after == (SelectState { finished: true, ..before })
    &&& match found {
        Some(option) => {
            &&& turn.commands.deep_view() == select_settle(
                title,
                before.menu,
                before.menu.labels[before.menu.cursor],
            )
            &&& turn.answer == Some(Ok::<Option<T>, Error>(Some(option)))
        },
        None => {
            &&& turn.commands.deep_view() == seq![
                CommandView::ClearLastLines((before.menu.shown + 1) as usize),
            ]
            &&& turn.answer matches Some(Err(Error::Other(text)))
            &&& text@ == out_of_range()
        },
    }
}

/// How a choice that must be made starts with the cursor at `place`. Where
/// the list has such a place, the session holds the labels of the options and
/// the cursor stands there, and the question line and the page of the cursor
/// are written. Where it has none, the prompt fails.
pub open spec fn select_started<T: SelectEnum>(
    title: Seq<char>,
    place: usize,
    rows: u16,
    outcome: Result<(SelectSession, Vec<Command>), Error>,
) -> bool {
    if place < T::VARIANTS@.len() {
        &&& outcome matches Ok(started)
        &&& labels_of::<T>(started.0@.menu.labels)
        &&& started.0@.menu.cursor == place
        &&& started.0@.menu.chosen == Seq::<usize>::empty()
        &&& started.0@.menu.wf()
        &&& started.0@.menu.shown == page_len(
            started.0@.menu.labels.len() as int,
            place as int,
            window_size(rows),
        )
        &&& !started.0@.finished
        &&& started.1.deep_view() == select_paint(
            title,
            false,
            started.0@.menu.labels,
            place as int,
            window_size(rows),
        )
    } else {
        &&& outcome matches Err(Error::Other(text))
        &&& text@ == out_of_range()
    }
}

/// A choice clears the lines that it wrote, and no others. When it is
/// painted, the question line and the page of the cursor stand on the
/// terminal. Painting it anew after the cursor moved clears those lines and
/// leaves the question line and the new page. Settling clears them and leaves
/// the settled line alone.
pub proof fn lemma_select_clears_its_lines(
    title: Seq<char>,
    optional: bool,
    before: MenuView,
    cursor: int,
    window: int,
    answer: Seq<char>,
)
    requires
        before.wf(),
        0 <= cursor < before.labels.len(),
        window > 0,
    ensures
        lines_after(0, select_paint(title, optional, before.labels, cursor, window)) == page_len(
            before.labels.len() as int,
            cursor,
            window,
        ) + 1,
        clears_own_lines(0, select_paint(title, optional, before.labels, cursor, window)),
        lines_after(
            before.shown + 1,
            select_repaint(title, optional, before, cursor, window),
        ) == page_len(before.labels.len() as int, cursor, window) + 1,
        clears_own_lines(before.shown + 1, select_repaint(title, optional, before, cursor, window)),
        lines_after(before.shown + 1, select_settle(title, before, answer)) == 1,
        clears_own_lines(before.shown + 1, select_settle(title, before, answer)),
{
    lemma_page_holds_index(before.labels.len() as int, cursor, window);
    let question = seq![CommandView::WriteLine(question_line(title, select_hints(optional)))];
    let rows = select_rows(before.labels, cursor, window);
    let painted = select_paint(title, optional, before.labels, cursor, window);
    let clear = seq![CommandView::ClearLastLines((before.shown + 1) as usize)];
    let settled = seq![CommandView::WriteLine(answered_line(title, answer))];
    lemma_lines_after_one(0, question[0]);
    lemma_lines_written(1, rows);
    lemma_lines_after_joined(0, question, rows);
    lemma_lines_after_one(before.shown + 1, clear[0]);
    lemma_lines_after_joined(before.shown + 1, clear, painted);
    lemma_lines_after_one(0, settled[0]);
    lemma_lines_after_joined(before.shown + 1, clear, settled);
    assert(select_settle(title, before, answer) =~= clear + settled);
}

/// The row of option `index`.
fn row_of(menu: &Menu, index: usize) -> (row: Vec<Span>)
    requires
        index < menu@.labels.len(),
    ensures
        row.deep_view() == select_row(menu@.labels[index as int], index == menu@.cursor),
{
    let mut row: Vec<Span> = Vec::new();
    if index == menu.cursor() {
        push_span(&mut row, String::from_str("\u{276f}"), Tone::Red);
        push_span(&mut row, String::from_str(" "), Tone::Plain);
        push_span(&mut row, String::from_str(menu.label(index)), Tone::RedBold);
    } else {
        push_span(&mut row, String::from_str("  "), Tone::Plain);
        push_span(&mut row, String::from_str(menu.label(index)), Tone::Plain);
    }
    assert(row.deep_view() =~= select_row(menu@.labels[index as int], index == menu@.cursor));
    row
}

/// Appends the question line and the page of the cursor to `script`, and
/// notes the options of the page as shown.
fn paint(script: &mut Vec<Command>, title: &str, optional: bool, menu: &mut Menu, rows: u16)
    requires
        rows > 2,
    ensures
        final(script).deep_view() == old(script).deep_view() + select_paint(
            title@,
            optional,
            old(menu)@.labels,
            old(menu)@.cursor,
            window_size(rows),
        ),
        final(menu)@ == (MenuView {
            shown: page_len(
                old(menu)@.labels.len() as int,
                old(menu)@.cursor,
                window_size(rows),
            ),
            ..old(menu)@
        }),
        final(menu)@.wf(),
{
    let question = if optional {
        let hint = [("space", "select"), ("enter", "skip")];
        assert(action_texts(hint@) =~= skip_hints());
        formatted_question(title, &hint)
    } else {
        let hint = [("enter", "select")];
        assert(action_texts(hint@) =~= pick_hints());
        formatted_question(title, &hint)
    };
    push_command(script, Command::WriteLine(question));
    let ghost base = script.deep_view();
    let ghost labels = menu@.labels;
    let ghost cursor = menu@.cursor;
    let ghost window = window_size(rows);
    let bounds = menu.turn_page(window_of(rows));
    let ghost all = select_rows(labels, cursor, window);
    let mut index = bounds.0;
    while index < bounds.1
        invariant
            bounds.0 <= index <= bounds.1 <= labels.len(),
            menu@.labels == labels,
            menu@.cursor == cursor,
            bounds.0 == page_start(cursor, window),
            bounds.1 - bounds.0 == page_len(labels.len() as int, cursor, window),
            all == select_rows(labels, cursor, window),
            script.deep_view() == base + all.take(index - bounds.0),
        decreases bounds.1 - index,
    {
        let row = row_of(menu, index);
        push_command(script, Command::WriteLine(row));
        assert(script.deep_view() =~= base + all.take(index + 1 - bounds.0)) by {
            assert(all.take(index + 1 - bounds.0) =~= all.take(index - bounds.0).push(
                all[index - bounds.0],
            ));
        }
        index += 1;
    }
    assert(all.take(index - bounds.0) =~= all);
    assert(script.deep_view() =~= old(script).deep_view() + select_paint(
        title@,
        optional,
        labels,
        cursor,
        window,
    ));
}

impl<T: SelectEnum> Select<T> {
    /// The title of the prompt.
    pub closed spec fn title(&self) -> Seq<char> {
        self.title@
    }

    /// The option at which the cursor starts, if one was set.
    pub closed spec fn first(&self) -> Option<T> {
        self.initial
    }

    /// A prompt with the given title whose cursor starts at the first option.
    pub fn new(title: &str) -> (prompt: Self)
        ensures
            prompt.title() == title@,
            prompt.first() is None,
    {
        Select { title: String::from_str(title), initial: None }
    }

    /// Sets the option at which the cursor starts.
    pub fn initial(self, initial: T) -> (prompt: Self)
        ensures
            prompt.title() == self.title(),
            prompt.first() == Some(initial),
    {
        Select { title: self.title, initial: Some(initial) }
    }

    /// Starts a choice that must be made with the cursor at `place`. Where the
    /// list has no such place the prompt fails; else the question line and
    /// the page of the cursor are to be written.
    pub fn start(&self, place: usize, rows: u16) -> (outcome: Result<
        (SelectSession, Vec<Command>),
        Error,
    >)
        requires
            T::VARIANTS@.len() > 0,
            rows > 2,
        ensures
            select_started::<T>(self.title(), place, rows, outcome),
    {
        let labels = read_labels::<T>();
        if place >= labels.len() {
            return Err(Error::index_out_of_range());
        }
        let mut menu = Menu::new(labels, place);
        let mut script: Vec<Command> = Vec::new();
        paint(&mut script, self.title.as_str(), false, &mut menu, rows);
        Ok((SelectSession { menu, finished: false }, script))
    }

    /// Starts a choice that must be made. The cursor stands at the place that
    /// the option that was set gives as its own, or at the first option where
    /// none was set.
    pub fn begin(&self, rows: u16) -> (outcome: Result<(SelectSession, Vec<Command>), Error>)
        requires
            T::VARIANTS@.len() > 0,
            rows > 2,
        ensures
            exists|place: usize|
                {
                    &&& match self.first() {
                        Some(option) => call_ensures(T::to_index, (&option,), place),
                        None => place == 0,
                    }
                    &&& select_started::<T>(self.title(), place, rows, outcome)
                },
    {
        let place = match &self.initial {
            Some(option) => option.to_index(),
            None => 0,
        };
        let outcome = self.start(place, rows);
        assert(match self.first() {
            Some(option) => call_ensures(T::to_index, (&option,), place),
            None => place == 0,
        } && select_started::<T>(self.title(), place, rows, outcome));
        outcome
    }

    /// Starts a choice that may be skipped. The cursor stands at the first
    /// option; the question line and the first page are to be written.
    pub fn begin_opt(&self, rows: u16) -> (started: (SelectSession, Vec<Command>))
        requires
            T::VARIANTS@.len() > 0,
            rows > 2,
        ensures
            labels_of::<T>(started.0@.menu.labels),
            started.0@.menu.cursor == 0,
            started.0@.menu.wf(),
            started.0@.menu.shown == page_len(
                started.0@.menu.labels.len() as int,
                0,
                window_size(rows),
            ),
            !started.0@.finished,
            started.1.deep_view() == select_paint(
                self.title(),
                true,
                started.0@.menu.labels,
                0,
                window_size(rows),
            ),
    {
        let mut menu = Menu::new(read_labels::<T>(), 0);
        let mut script: Vec<Command> = Vec::new();
        paint(&mut script, self.title.as_str(), true, &mut menu, rows);
        (SelectSession { menu, finished: false }, script)
    }

    /// Moves the cursor as `key` says and paints the prompt anew, if `key` is
    /// a key that moves the cursor and the prompt is not over. Returns the
    /// commands, or none where the key is no such key.
    fn walk(&self, session: &mut SelectSession, key: Key, rows: u16, optional: bool) -> (commands:
        Option<Vec<Command>>)
        requires
            rows > 2,
            !old(session)@.finished,
        ensures
            final(session)@.menu.wf(),
            old(session)@.menu.wf(),
            navigates(old(session)@.menu.labels.len() as int, key) ==> {
                &&& final(session)@ == select_moved(old(session)@, key, window_size(rows))
                &&& commands matches Some(script) && script.deep_view() == select_repaint(
                    self.title(),
                    optional,
                    old(session)@.menu,
                    final(session)@.menu.cursor,
                    window_size(rows),
                )
            },
            !navigates(old(session)@.menu.labels.len() as int, key) ==> {
                &&& final(session)@ == old(session)@
                &&& commands is None
            },
    {
        let shown = session.menu.shown();
        if session.menu.press(key) {
            let mut script: Vec<Command> = Vec::new();
            push_command(&mut script, Command::ClearLastLines(shown + 1));
            paint(&mut script, self.title.as_str(), optional, &mut session.menu, rows);
            assert(script.deep_view() =~= select_repaint(
                self.title(),
                optional,
                old(session)@.menu,
                session@.menu.cursor,
                window_size(rows),
            ));
            Some(script)
        } else {
            None
        }
    }

    /// Ends a choice that must be made with what the list of options gave for
    /// the place of the cursor.
    pub fn pick(&self, session: &mut SelectSession, found: Option<T>) -> (turn: Turn<
        Result<T, Error>,
    >)
        ensures
            picked(self.title(), old(session)@, found, final(session)@, turn),
    {
        let mut script: Vec<Command> = Vec::new();
        let shown = session.menu.shown();
        push_command(&mut script, Command::ClearLastLines(shown + 1));
        session.finished = true;
        match found {
            Some(option) => {
                let label = session.menu.label(session.menu.cursor());
                push_command(
                    &mut script,
                    Command::WriteLine(formatted_answered_question(self.title.as_str(), label)),
                );
                assert(script.deep_view() =~= select_settle(
                    self.title(),
                    old(session)@.menu,
                    old(session)@.menu.labels[old(session)@.menu.cursor],
                ));
                Turn { commands: script, answer: Some(Ok(option)) }
            },
            None => {
                assert(script.deep_view() =~= seq![
                    CommandView::ClearLastLines((old(session)@.menu.shown + 1) as usize),
                ]);
                Turn { commands: script, answer: Some(Err(Error::index_out_of_range())) }
            },
        }
    }

    /// Ends a choice that may be skipped with what the list of options gave
    /// for the place of the cursor.
    pub fn pick_opt(&self, session: &mut SelectSession, found: Option<T>) -> (turn: Turn<
        Result<Option<T>, Error>,
    >)
        ensures
            picked_opt(self.title(), old(session)@, found, final(session)@, turn),
    {
        let mut script: Vec<Command> = Vec::new();
        let shown = session.menu.shown();
        push_command(&mut script, Command::ClearLastLines(shown + 1));
        session.finished = true;
        match found {
            Some(option) => {
                let label = session.menu.label(session.menu.cursor());
                push_command(
                    &mut script,
                    Command::WriteLine(formatted_answered_question(self.title.as_str(), label)),
                );
                assert(script.deep_view() =~= select_settle(
                    self.title(),
                    old(session)@.menu,
                    old(session)@.menu.labels[old(session)@.menu.cursor],
                ));
                Turn { commands: script, answer: Some(Ok(Some(option))) }
            },
            None => {
                assert(script.deep_view() =~= seq![
                    CommandView::ClearLastLines((old(session)@.menu.shown + 1) as usize),
                ]);
                Turn { commands: script, answer: Some(Err(Error::index_out_of_range())) }
            },
        }
    }

    /// Handles one key of a choice that must be made. Enter asks the list for
    /// the option at the cursor and ends the prompt with it; the arrows and
    /// the digit keys move the cursor; other keys do nothing. Once the prompt
    /// is over no key does anything.
    pub fn step(&self, session: &mut SelectSession, key: Key, rows: u16) -> (turn: Turn<
        Result<T, Error>,
    >)
        requires
            rows > 2,
        ensures
            final(session)@.menu.wf(),
            old(session)@.finished ==> {
                &&& final(session)@ == old(session)@
                &&& turn.commands.deep_view() == Seq::<CommandView>::empty()
                &&& turn.answer is None
            },
            !old(session)@.finished && key == Key::Enter ==> exists|found: Option<T>|
                {
                    &&& call_ensures(
                        T::from_index,
                        (old(session)@.menu.cursor as usize,),
                        found,
                    )
                    &&& picked(self.title(), old(session)@, found, final(session)@, turn)
                },
            !old(session)@.finished && key != Key::Enter && navigates(
                old(session)@.menu.labels.len() as int,
                key,
            ) ==> {
                &&& final(session)@ == select_moved(old(session)@, key, window_size(rows))
                &&& turn.commands.deep_view() == select_repaint(
                    self.title(),
                    false,
                    old(session)@.menu,
                    final(session)@.menu.cursor,
                    window_size(rows),
                )
                &&& turn.answer is None
            },
            !old(session)@.finished && key != Key::Enter && !navigates(
                old(session)@.menu.labels.len() as int,
                key,
            ) ==> {
                &&& final(session)@ == old(session)@
                &&& turn.commands.deep_view() == Seq::<CommandView>::empty()
                &&& turn.answer is None
            },
    {
        if session.finished {
            let _ = session.menu.count();
            return Turn { commands: Vec::new(), answer: None };
        }
        match key {
            Key::Enter => {
                let cursor = session.menu.cursor();
                let found = T::from_index(cursor);
                let ghost heard = found;
                let turn = self.pick(session, found);
                assert(call_ensures(T::from_index, (old(session)@.menu.cursor as usize,), heard)
                    && picked(self.title(), old(session)@, heard, session@, turn));
                turn
            },
            _ => {
                match self.walk(session, key, rows, false) {
                    Some(commands) => Turn { commands, answer: None },
                    None => Turn { commands: Vec::new(), answer: None },
                }
            },
        }
    }

    /// Handles one key of a choice that may be skipped. The blank asks the
    /// list for the option at the cursor and ends the prompt with it; Enter
    /// ends the prompt without an option; the arrows and the digit keys move
    /// the cursor; other keys do nothing. Once the prompt is over no key does
    /// anything.
    pub fn step_opt(&self, session: &mut SelectSession, key: Key, rows: u16) -> (turn: Turn<
        Result<Option<T>, Error>,
    >)
        requires
            rows > 2,
        ensures
            final(session)@.menu.wf(),
            old(session)@.finished ==> {
                &&& final(session)@ == old(session)@
                &&& turn.commands.deep_view() == Seq::<CommandView>::empty()
                &&& turn.answer is None
            },
            !old(session)@.finished && key == Key::Char(' ') ==> exists|found: Option<T>|
                {
                    &&& call_ensures(
                        T::from_index,
                        (old(session)@.menu.cursor as usize,),
                        found,
                    )
                    &&& picked_opt(self.title(), old(session)@, found, final(session)@, turn)
                },
            !old(session)@.finished && key == Key::Enter ==> {
                &&& final(session)@ == (SelectState { finished: true, ..old(session)@ })
                &&& turn.commands.deep_view() == select_settle(
                    self.title(),
                    old(session)@.menu,
                    "Skipped"@,
                )
                &&& turn.answer == Some(Ok::<Option<T>, Error>(None))
            },
            !old(session)@.finished && key != Key::Enter && navigates(
                old(session)@.menu.labels.len() as int,
                key,
            ) ==> {
                &&& final(session)@ == select_moved(old(session)@, key, window_size(rows))
                &&& turn.commands.deep_view() == select_repaint(
                    self.title(),
                    true,
                    old(session)@.menu,
                    final(session)@.menu.cursor,
                    window_size(rows),
                )
                &&& turn.answer is None
            },
            !old(session)@.finished && key != Key::Enter && key != Key::Char(' ') && !navigates(
                old(session)@.menu.labels.len() as int,
                key,
            ) ==> {
                &&& final(session)@ == old(session)@
                &&& turn.commands.deep_view() == Seq::<CommandView>::empty()
                &&& turn.answer is None
            },
    {
        if session.finished {
            let _ = session.menu.count();
            return Turn { commands: Vec::new(), answer: None };
        }
        match key {
            Key::Char(' ') => {
                let cursor = session.menu.cursor();
                let found = T::from_index(cursor);
                let ghost heard = found;
                let turn = self.pick_opt(session, found);
                assert(call_ensures(T::from_index, (old(session)@.menu.cursor as usize,), heard)
                    && picked_opt(self.title(), old(session)@, heard, session@, turn));
                turn
            },
            Key::Enter => {
                let mut script: Vec<Command> = Vec::new();
                let shown = session.menu.shown();
                push_command(&mut script, Command::ClearLastLines(shown + 1));
                push_command(
                    &mut script,
                    Command::WriteLine(
                        formatted_answered_question(self.title.as_str(), "Skipped"),
                    ),
                );
                session.finished = true;
                assert(script.deep_view() =~= select_settle(
                    self.title(),
                    old(session)@.menu,
                    "Skipped"@,
                ));
                Turn { commands: script, answer: Some(Ok(None)) }
            },
            _ => {
                match self.walk(session, key, rows, true) {
                    Some(commands) => Turn { commands, answer: None },
                    None => Turn { commands: Vec::new(), answer: None },
                }
            },
        }
    }
}

} // verus!

//! The multiple-choice prompt: some options out of a fixed list, within
//! limits on how many.

use vstd::prelude::*;
use vstd::string::StringExecFns;
use crate::decimal::{decimal, decimal_of_unsigned};
use crate::editor::Turn;
use crate::error::{out_of_range, Error};
use crate::keys::Key;
use crate::navigator::{
    lemma_navigate_stays_on_list, lemma_page_holds_index, marked_all, navigate, navigates,
    page_len, page_start, toggled, window_of, window_size, Menu, MenuView,
};
use crate::screen::{
    action_texts, answered_line, clears_own_lines, error_line, formatted_answered_question,
    formatted_error, formatted_question, lemma_lines_after_joined, lemma_lines_after_one,
    lemma_lines_written, lines_after, piece, push_command, push_span, question_line, Command,
    CommandView, Span, SpanView, Tone,
};
use crate::select::{labels_of, read_labels, SelectEnum};

verus! {

/// Where a multiple choice stands.
#[derive(Clone, Copy, Debug, PartialEq, Eq, Structural)]
pub enum Phase {
    /// Keys move the cursor and change the selection.
    Editing,
    /// Enter was turned down by the last key; the next key goes on editing.
    ShowingError,
    /// The prompt is over.
    Finalized,
}

/// Asks for some options of `T`.
pub struct MultiSelect<T: SelectEnum> {
    title: String,
    initial: Vec<T>,
    min: usize,
    max: usize,
}

/// The state of a multiple choice between two keys.
pub struct MultiState {
    /// The options, the cursor and the selection.
    pub menu: MenuView,
    /// Whether an error line stands between the question and the options.
    pub error_shown: bool,
    /// Where the prompt stands.
    pub phase: Phase,
}

/// A multiple choice in progress.
pub struct MultiSession {
    menu: Menu,
    error_shown: bool,
    phase: Phase,
}

impl View for MultiSession {
    type V = MultiState;

    closed spec fn view(&self) -> MultiState {
        MultiState { menu: self.menu@, error_shown: self.error_shown, phase: self.phase }
    }
}

impl MultiSession {
    /// The place of the option at which the cursor stands.
    pub fn cursor(&self) -> (cursor: usize)
        ensures
            cursor == self@.menu.cursor,
            self@.menu.wf(),
    {
        self.menu.cursor()
    }

    /// The places of the options that are selected, in the order in which
    /// they were.
    pub fn chosen(&self) -> (chosen: &Vec<usize>)
        ensures
            chosen@ == self@.menu.chosen,
            self@.menu.wf(),
    {
        self.menu.chosen()
    }

    /// Whether an error line stands between the question and the options.
    pub fn error_shown(&self) -> (shown: bool)
        ensures
            shown == self@.error_shown,
    {
        self.error_shown
    }

    /// Where the prompt stands.
    pub fn phase(&self) -> (phase: Phase)
        ensures
            phase == self@.phase,
    {
        self.phase
    }
}

/// The key hints of a multiple choice.
pub open spec fn multi_hints() -> Seq<(Seq<char>, Seq<char>)> {
    seq![("space"@, "select"@), ("enter"@, "proceed"@)]
}

/// The marker of an option: filled if the option is selected, an outline
/// if not.
pub open spec fn marker(selected: bool) -> Seq<char> {
    if selected {
        "\u{25c9}"@
    } else {
        "\u{25ef}"@
    }
}

/// The row of an option: its marker, a blank and its label. At the cursor the
/// marker is red and the label bold red, whether or not the option is
/// selected.
pub open spec fn multi_row(label: Seq<char>, at_cursor: bool, selected: bool) -> Seq<SpanView> {
    if at_cursor {
        seq![
            piece(marker(selected), Tone::Red),
            piece(" "@, Tone::Plain),
            piece(label, Tone::RedBold),
        ]
    } else {
        seq![
            piece(marker(selected), Tone::Plain),
            piece(" "@, Tone::Plain),
            piece(label, Tone::Plain),
        ]
    }
}

/// The rows of the page on which the cursor stands, one line each.
pub open spec fn multi_rows(menu: MenuView, window: int) -> Seq<CommandView> {
    Seq::new(
        page_len(menu.labels.len() as int, menu.cursor, window) as nat,
        |i: int|
            CommandView::WriteLine(
                multi_row(
                    menu.labels[page_start(menu.cursor, window) + i],
                    page_start(menu.cursor, window) + i == menu.cursor,
                    menu.chosen.contains((page_start(menu.cursor, window) + i) as usize),
                ),
            ),
    )
}

/// What the terminal is told when a multiple choice starts: the question line
/// and the first page.
pub open spec fn multi_begin(title: Seq<char>, menu: MenuView, window: int) -> Seq<CommandView> {
    seq![CommandView::WriteLine(question_line(title, multi_hints()))] + multi_rows(menu, window)
}

/// What the terminal is told after a key that moves the cursor or changes the
/// selection: the options that are shown go, and the page of the cursor is
/// written in their place.
pub open spec fn multi_repaint(shown: int, after: MenuView, window: int) -> Seq<CommandView> {
    seq![CommandView::ClearLastLines(shown as usize)] + multi_rows(after, window)
}

/// The message for a selection of `count` options that is smaller than `min`
/// or larger than `max`.
pub open spec fn limit_message(count: int, min: usize, max: usize) -> Seq<char> {
    if count < min {
        "Must select at least "@ + decimal(min as int)
    } else {
        "Must select "@ + decimal(max as int) + " or less"@
    }
}

/// What the terminal is told when Enter is turned down: the options that are
/// shown and an earlier error line go, the new error line is written, and the
/// page of the cursor is written below it.
pub open spec fn multi_reject(before: MultiState, message: Seq<char>, window: int) -> Seq<
    CommandView,
> {
    seq![CommandView::ClearLastLines(before.menu.shown as usize)] + (if before.error_shown {
        seq![CommandView::ClearLastLines(1)]
    } else {
        Seq::empty()
    }) + seq![CommandView::WriteLine(error_line(message))] + multi_rows(before.menu, window)
}

/// The labels of the selected options, in the order in which they were
/// selected, parted by `, `.
pub open spec fn joined(labels: Seq<Seq<char>>, chosen: Seq<usize>) -> Seq<char>
    decreases chosen.len(),
{
    if chosen.len() == 0 {
        Seq::empty()
    } else if chosen.len() == 1 {
        labels[chosen[0] as int]
    } else {
        joined(labels, chosen.drop_last()) + ", "@ + labels[chosen.last() as int]
    }
}

/// The answer as the settled line shows it: the labels of the selection, or
/// `Skipped` where nothing is selected.
pub open spec fn summary(labels: Seq<Seq<char>>, chosen: Seq<usize>) -> Seq<char> {
    if chosen.len() == 0 {
        "Skipped"@
    } else {
        joined(labels, chosen)
    }
}

/// How many lines of the prompt stand on the terminal: the question line, an
/// error line if one is shown, and the options that are shown.
pub open spec fn lines_up(before: MultiState) -> int {
    before.menu.shown + 1 + if before.error_shown {
        1int
    } else {
        0int
    }
}

/// Whether each of `found` is an option.
pub open spec fn all_found<T>(found: Seq<Option<T>>) -> bool {
    forall|k: int| 0 <= k < found.len() ==> (#[trigger] found[k]) is Some
}

/// The options of `found`.
pub open spec fn options_of<T>(found: Seq<Option<T>>) -> Seq<T> {
    Seq::new(found.len(), |k: int| found[k].unwrap())
}

/// How what the list of options gave for the places of the selection ends the
/// prompt. If it gave an option for each, every line of the prompt goes, the
/// settled line is written, and the answer is those options in the order of
/// the selection. If it gave none for one of them, the lines go and the prompt
/// fails.
pub open spec fn finished<T>(
    title: Seq<char>,
    before: MultiState,
    found: Seq<Option<T>>,
    after: MultiState,
    turn: Turn<Result<Vec<T>, Error>>,
) -> bool {
    &&& after == (MultiState { phase: Phase::Finalized, ..before })
    &&& if all_found(found) {
        &&& turn.commands.deep_view() == seq![
            CommandView::ClearLastLines(lines_up(before) as usize),
            CommandView::WriteLine(
                answered_line(title, summary(before.menu.labels, before.menu.chosen)),
            ),
        ]
        &&& turn.answer matches Some(Ok(options))
        &&& options@ == options_of(found)
    } else {
        &&& turn.commands.deep_view() == seq![
            CommandView::ClearLastLines(lines_up(before) as usize),
        ]
        &&& turn.answer matches Some(Err(Error::Other(text)))
        &&& text@ == out_of_range()
    }
}

/// Whether the list of options of `T` has each of `places`.
pub open spec fn all_on_list<T: SelectEnum>(places: Seq<usize>) -> bool {
    forall|k: int| 0 <= k < places.len() ==> (#[trigger] places[k]) < T::VARIANTS@.len()
}

/// How a multiple choice starts with the options at `places` selected. Where
/// the list has all the places, the session holds the labels of the options,
/// the cursor stands at the first option, the places are selected, each once,
/// in their order, and the question line and the first page are written.
/// Where the list lacks one of them, the prompt fails.
pub open spec fn multi_started<T: SelectEnum>(
    title: Seq<char>,
    places: Seq<usize>,
    rows: u16,
    outcome: Result<(MultiSession, Vec<Command>), Error>,
) -> bool {
    if all_on_list::<T>(places) {
        &&& outcome matches Ok(started)
        &&& labels_of::<T>(started.0@.menu.labels)
        &&& started.0@.menu.cursor == 0
        &&& started.0@.menu.chosen == marked_all(places)
        &&& started.0@.menu.wf()
        &&& started.0@.menu.shown == page_len(
            started.0@.menu.labels.len() as int,
            0,
            window_size(rows),
        )
        &&& !started.0@.error_shown
        &&& started.0@.phase == Phase::Editing
        &&& started.1.deep_view() == multi_begin(title, started.0@.menu, window_size(rows))
    } else {
        &&& outcome matches Err(Error::Other(text))
        &&& text@ == out_of_range()
    }
}

/// A multiple choice clears the lines that it wrote, and no others. When it
/// starts, the question line and the first page stand on the terminal. A key
/// that changes what is shown clears the options that are shown and leaves
/// the page of the cursor in their place. Turning Enter down leaves the
/// question line, one error line and the page of the cursor. Ending the
/// prompt clears every line of it and leaves the settled line alone.
pub proof fn lemma_multi_clears_its_lines(
    title: Seq<char>,
    before: MultiState,
    key: Key,
    window: int,
    message: Seq<char>,
)
    requires
        before.menu.wf(),
        window > 0,
        key != Key::Enter,
    ensures
        lines_after(0, multi_begin(title, before.menu, window)) == page_len(
            before.menu.labels.len() as int,
            before.menu.cursor,
            window,
        ) + 1,
        clears_own_lines(0, multi_begin(title, before.menu, window)),
        lines_after(lines_up(before), key_commands(before, key, window)) == lines_up(
            after_key(before, key, window),
        ),
        clears_own_lines(lines_up(before), key_commands(before, key, window)),
        lines_after(lines_up(before), multi_reject(before, message, window)) == page_len(
            before.menu.labels.len() as int,
            before.menu.cursor,
            window,
        ) + 2,
        clears_own_lines(lines_up(before), multi_reject(before, message, window)),
        lines_after(
            lines_up(before),
            seq![
                CommandView::ClearLastLines(lines_up(before) as usize),
                CommandView::WriteLine(
                    answered_line(title, summary(before.menu.labels, before.menu.chosen)),
                ),
            ],
        ) == 1,
{
    let count = before.menu.labels.len() as int;
    let up = lines_up(before);
    lemma_page_holds_index(count, before.menu.cursor, window);
    let question = seq![CommandView::WriteLine(question_line(title, multi_hints()))];
    let rows = multi_rows(before.menu, window);
    lemma_lines_after_one(0, question[0]);
    lemma_lines_written(1, rows);
    lemma_lines_after_joined(0, question, rows);

    let clear = seq![CommandView::ClearLastLines(before.menu.shown as usize)];
    lemma_lines_after_one(up, clear[0]);
    if repaints(before.menu, key) {
        let next = menu_after(before.menu, key);
        lemma_navigate_stays_on_list(before.menu.cursor, count, key);
        lemma_page_holds_index(count, next.cursor, window);
        lemma_lines_written(up - before.menu.shown, multi_rows(next, window));
        lemma_lines_after_joined(up, clear, multi_rows(next, window));
    }

    let clear_error = if before.error_shown {
        seq![CommandView::ClearLastLines(1)]
    } else {
        Seq::empty()
    };
    let error = seq![CommandView::WriteLine(error_line(message))];
    if before.error_shown {
        lemma_lines_after_one(2, clear_error[0]);
    }
    lemma_lines_after_one(1, error[0]);
    lemma_lines_written(2, rows);
    lemma_lines_after_joined(up, clear, clear_error);
    lemma_lines_after_joined(up, clear + clear_error, error);
    lemma_lines_after_joined(up, clear + clear_error + error, rows);

    let clear_all = seq![CommandView::ClearLastLines(up as usize)];
    let settled = seq![
        CommandView::WriteLine(
            answered_line(title, summary(before.menu.labels, before.menu.chosen)),
        ),
    ];
    lemma_lines_after_one(up, clear_all[0]);
    lemma_lines_after_one(0, settled[0]);
    lemma_lines_after_joined(up, clear_all, settled);
    assert(seq![
        CommandView::ClearLastLines(lines_up(before) as usize),
        CommandView::WriteLine(
            answered_line(title, summary(before.menu.labels, before.menu.chosen)),
        ),
    ] =~= clear_all + settled);
}

/// The row of option `index`.
fn row_of(menu: &Menu, index: usize) -> (row: Vec<Span>)
    requires
        index < menu@.labels.len(),
    ensures
        row.deep_view() == multi_row(
            menu@.labels[index as int],
            index == menu@.cursor,
            menu@.chosen.contains(index),
        ),
{
    let mut row: Vec<Span> = Vec::new();
    let dot = if menu.is_chosen(index) {
        "\u{25c9}"
    } else {
        "\u{25ef}"
    };
    if index == menu.cursor() {
        push_span(&mut row, String::from_str(dot), Tone::Red);
        push_span(&mut row, String::from_str(" "), Tone::Plain);
        push_span(&mut row, String::from_str(menu.label(index)), Tone::RedBold);
    } else {
        push_span(&mut row, String::from_str(dot), Tone::Plain);
        push_span(&mut row, String::from_str(" "), Tone::Plain);
        push_span(&mut row, String::from_str(menu.label(index)), Tone::Plain);
    }
    assert(row.deep_view() =~= multi_row(
        menu@.labels[index as int],
        index == menu@.cursor,
        menu@.chosen.contains(index),
    ));
    row
}

/// Appends the page of the cursor to `script`, and notes its options as
/// shown.
fn paint_rows(script: &mut Vec<Command>, menu: &mut Menu, rows: u16)
    requires
        rows > 2,
    ensures
        final(script).deep_view() == old(script).deep_view() + multi_rows(
            old(menu)@,
            window_size(rows),
        ),
        final(menu)@ == (MenuView {
            shown: page_len(
                old(menu)@.labels.len() as int,
                old(menu)@.cursor,
                window_size(rows),
            ),
            ..old(menu)@
        }),
        final(menu)@.wf(),
{
    let ghost base = script.deep_view();
    let ghost window = window_size(rows);
    let ghost all = multi_rows(menu@, window);
    let ghost first = menu@;
    let bounds = menu.turn_page(window_of(rows));
    let mut index = bounds.0;
    while index < bounds.1
        invariant
            bounds.0 <= index <= bounds.1 <= first.labels.len(),
            menu@.labels == first.labels,
            menu@.cursor == first.cursor,
            menu@.chosen == first.chosen,
            bounds.0 == page_start(first.cursor, window),
            bounds.1 - bounds.0 == page_len(first.labels.len() as int, first.cursor, window),
            all == multi_rows(first, window),
            script.deep_view() == base + all.take(index - bounds.0),
        decreases bounds.1 - index,
    {
        let row = row_of(menu, index);
        push_command(script, Command::WriteLine(row));
        assert(script.deep_view() =~= base + all.take(index + 1 - bounds.0)) by {
            assert(all.take(index + 1 - bounds.0) =~= all.take(index - bounds.0).push(
                all[index - bounds.0],
            ));
        }
        index += 1;
    }
    assert(all.take(index - bounds.0) =~= all);
    assert(script.deep_view() =~= old(script).deep_view() + all);
}

/// The labels of the selection, parted by `, `.
fn join_labels(menu: &Menu) -> (text: String)
    ensures
        text@ == joined(menu@.labels, menu@.chosen),
{
    let chosen = menu.chosen();
    let mut text = String::new();
    let mut k: usize = 0;
    while k < chosen.len()
        invariant
            k <= chosen.len(),
            chosen@ == menu@.chosen,
            menu@.wf(),
            text@ == joined(menu@.labels, chosen@.take(k as int)),
        decreases chosen.len() - k,
    {
        proof {
            let next = chosen@.take(k + 1);
            assert(next.drop_last() =~= chosen@.take(k as int));
            assert(next.last() == chosen@[k as int]);
            if k == 0 {
                assert(next[0] == chosen@[0]);
            }
        }
        if k > 0 {
            text.append(", ");
        }
        text.append(menu.label(chosen[k]));
        assert(text@ =~= joined(menu@.labels, chosen@.take(k + 1)));
        k += 1;
    }
    assert(chosen@.take(k as int) =~= chosen@);
    text
}

/// The message for a selection that is smaller than `min` or larger than
/// `max`.
fn limit_text(count: usize, min: usize, max: usize) -> (text: String)
    ensures
        text@ == limit_message(count as int, min, max),
{
    if count < min {
        let mut text = String::from_str("Must select at least ");
        text.append(decimal_of_unsigned(min as u128).as_str());
        text
    } else {
        let mut text = String::from_str("Must select ");
        text.append(decimal_of_unsigned(max as u128).as_str());
        text.append(" or less");
        text
    }
}

impl<T: SelectEnum> MultiSelect<T> {
    /// The title of the prompt.
    pub closed spec fn title(&self) -> Seq<char> {
        self.title@
    }

    /// The options that are selected when the prompt starts.
    pub closed spec fn first(&self) -> Seq<T> {
        self.initial@
    }

    /// The least number of options that Enter accepts.
    pub closed spec fn least(&self) -> usize {
        self.min
    }

    /// The greatest number of options that Enter accepts.
    pub closed spec fn most(&self) -> usize {
        self.max
    }

    /// Whether Enter accepts a selection of `count` options.
    pub open spec fn accepts(&self, count: int) -> bool {
        self.least() <= count <= self.most()
    }

    /// A prompt with the given title, nothing selected and no limits on how
    /// many options may be selected.
    pub fn new(title: &str) -> (prompt: Self)
        ensures
            prompt.title() == title@,
            prompt.first() == Seq::<T>::empty(),
            prompt.least() == 0,
            prompt.most() == usize::MAX,
    {
        MultiSelect { title: String::from_str(title), initial: Vec::new(), min: 0, max: usize::MAX }
    }

    /// Sets the options that are selected when the prompt starts.
    pub fn initial(self, initial: Vec<T>) -> (prompt: Self)
        ensures
            prompt.title() == self.title(),
            prompt.first() == initial@,
            prompt.least() == self.least(),
            prompt.most() == self.most(),
    {
        MultiSelect { title: self.title, initial, min: self.min, max: self.max }
    }

    /// Sets the least number of options that Enter accepts.
    pub fn min(self, min: usize) -> (prompt: Self)
        ensures
            prompt.title() == self.title(),
            prompt.first() == self.first(),
            prompt.least() == min,
            prompt.most() == self.most(),
    {
        MultiSelect { title: self.title, initial: self.initial, min, max: self.max }
    }

    /// Sets the greatest number of options that Enter accepts.
    pub fn max(self, max: usize) -> (prompt: Self)
        ensures
            prompt.title() == self.title(),
            prompt.first() == self.first(),
            prompt.least() == self.least(),
            prompt.most() == max,
    {
        MultiSelect { title: self.title, initial: self.initial, min: self.min, max }
    }

    /// Starts the prompt with the options at `places` selected, each once, in
    /// their order, and the cursor at the first option. Where the list lacks
    /// one of the places the prompt fails; else the question line and the
    /// first page are to be written.
    pub fn start(&self, places: &Vec<usize>, rows: u16) -> (outcome: Result<
        (MultiSession, Vec<Command>),
        Error,
    >)
        requires
            T::VARIANTS@.len() > 0,
            rows > 2,
        ensures
            multi_started::<T>(self.title(), places@, rows, outcome),
    {
        let mut menu = Menu::new(read_labels::<T>(), 0);
        let mut k: usize = 0;
        while k < places.len()
            invariant
                k <= places.len(),
                labels_of::<T>(menu@.labels),
                menu@.cursor == 0,
                menu@.shown == 0,
                menu@.wf(),
                forall|j: int| 0 <= j < k ==> places@[j] < T::VARIANTS@.len(),
                menu@.chosen == marked_all(places@.take(k as int)),
            decreases places.len() - k,
        {
            let place = places[k];
            if place >= menu.count() {
                return Err(Error::index_out_of_range());
            }
            menu.mark(place);
            proof {
                assert(places@.take(k + 1).drop_last() =~= places@.take(k as int));
            }
            k += 1;
        }
        assert(places@.take(k as int) =~= places@);
        let mut script: Vec<Command> = Vec::new();
        let hint = [("space", "select"), ("enter", "proceed")];
        assert(action_texts(hint@) =~= multi_hints());
        push_command(&mut script, Command::WriteLine(formatted_question(self.title.as_str(), &hint)));
        let ghost before = menu@;
        paint_rows(&mut script, &mut menu, rows);
        assert(multi_rows(before, window_size(rows)) =~= multi_rows(menu@, window_size(rows)));
        assert(script.deep_view() =~= multi_begin(self.title(), menu@, window_size(rows)));
        Ok((MultiSession { menu, error_shown: false, phase: Phase::Editing }, script))
    }

    /// Starts the prompt. The options that were set are selected, at the
    /// places that they give as their own.
    pub fn begin(&self, rows: u16) -> (outcome: Result<(MultiSession, Vec<Command>), Error>)
        requires
            T::VARIANTS@.len() > 0,
            rows > 2,
        ensures
            exists|places: Seq<usize>|
                {
                    &&& places.len() == self.first().len()
                    &&& forall|k: int|
                        0 <= k < places.len() ==> call_ensures(
                            T::to_index,
                            (&self.first()[k],),
                            #[trigger] places[k],
                        )
                    &&& multi_started::<T>(self.title(), places, rows, outcome)
                },
    {
        let mut places: Vec<usize> = Vec::new();
        let mut k: usize = 0;
        while k < self.initial.len()
            invariant
                k <= self.initial.len(),
                places@.len() == k,
                forall|j: int|
                    0 <= j < k ==> call_ensures(
                        T::to_index,
                        (&self.initial@[j],),
                        #[trigger] places@[j],
                    ),
            decreases self.initial.len() - k,
        {
            places.push(self.initial[k].to_index());
            k += 1;
        }
        let outcome = self.start(&places, rows);
        assert(multi_started::<T>(self.title(), places@, rows, outcome));
        outcome
    }

    /// Ends the prompt with what the list of options gave for the places of
    /// the selection, in the order of the selection.
    pub fn finish(&self, session: &mut MultiSession, found: Vec<Option<T>>) -> (turn: Turn<
        Result<Vec<T>, Error>,
    >)
        ensures
            finished(self.title(), old(session)@, found@, final(session)@, turn),
    {
        let mut script: Vec<Command> = Vec::new();
        let shown = session.menu.shown();
        let lines = if session.error_shown {
            shown + 2
        } else {
            shown + 1
        };
        push_command(&mut script, Command::ClearLastLines(lines));
        session.phase = Phase::Finalized;
        let mut options: Vec<T> = Vec::new();
        let ghost given = found@;
        let mut complete = true;
        for item in it: found
            invariant
                it.seq() == given,
                complete ==> options@ =~= options_of(given.take(it.index() as int)),
                complete ==> all_found(given.take(it.index() as int)),
                !complete ==> !all_found(given),
        {
            let ghost k = it.index() as int;
            proof {
                assert(given.take(k + 1).drop_last() =~= given.take(k));
            }
            match item {
                Some(option) => {
                    if complete {
                        options.push(option);
                        assert(options@ =~= options_of(given.take(k + 1)));
                        assert(all_found(given.take(k + 1))) by {
                            assert forall|j: int| 0 <= j < k + 1 implies (#[trigger] given.take(
                                k + 1,
                            )[j]) is Some by {
                                if j < k {
                                    assert(given.take(k)[j] is Some);
                                }
                            }
                        }
                    }
                },
                None => {
                    assert(given[k] is None);
                    complete = false;
                },
            }
        }
        assert(given.take(given.len() as int) =~= given);
        if complete {
            let answer = if session.menu.chosen().len() == 0 {
                String::from_str("Skipped")
            } else {
                join_labels(&session.menu)
            };
            push_command(
                &mut script,
                Command::WriteLine(
                    formatted_answered_question(self.title.as_str(), answer.as_str()),
                ),
            );
            assert(script.deep_view() =~= seq![
                CommandView::ClearLastLines(lines_up(old(session)@) as usize),
                CommandView::WriteLine(
                    answered_line(
                        self.title(),
                        summary(old(session)@.menu.labels, old(session)@.menu.chosen),
                    ),
                ),
            ]);
            Turn { commands: script, answer: Some(Ok(options)) }
        } else {
            assert(script.deep_view() =~= seq![
                CommandView::ClearLastLines(lines_up(old(session)@) as usize),
            ]);
            Turn { commands: script, answer: Some(Err(Error::index_out_of_range())) }
        }
    }

    /// Handles one key. The blank toggles the option at the cursor; the
    /// arrows and the digit keys move the cursor; Enter ends the prompt if the
    /// size of the selection is within the limits, and is turned down with an
    /// error line if it is not; other keys do nothing. Once the prompt is over
    /// no key does anything.
    pub fn step(&self, session: &mut MultiSession, key: Key, rows: u16) -> (turn: Turn<
        Result<Vec<T>, Error>,
    >)
        requires
            rows > 2,
        ensures
            final(session)@.menu.wf(),
            old(session)@.phase == Phase::Finalized ==> {
                &&& final(session)@ == old(session)@
                &&& turn.commands.deep_view() == Seq::<CommandView>::empty()
                &&& turn.answer is None
            },
            old(session)@.phase != Phase::Finalized && key == Key::Enter && self.accepts(
                old(session)@.menu.chosen.len() as int,
            ) ==> exists|found: Seq<Option<T>>|
                {
                    &&& found.len() == old(session)@.menu.chosen.len()
                    &&& forall|k: int|
                        0 <= k < found.len() ==> call_ensures(
                            T::from_index,
                            (old(session)@.menu.chosen[k],),
                            #[trigger] found[k],
                        )
                    &&& finished(self.title(), old(session)@, found, final(session)@, turn)
                },
            old(session)@.phase != Phase::Finalized && key == Key::Enter && !self.accepts(
                old(session)@.menu.chosen.len() as int,
            ) ==> {
                &&& final(session)@ == (MultiState {
                    menu: MenuView {
                        shown: page_len(
                            old(session)@.menu.labels.len() as int,
                            old(session)@.menu.cursor,
                            window_size(rows),
                        ),
                        ..old(session)@.menu
                    },
                    error_shown: true,
                    phase: Phase::ShowingError,
                })
                &&& turn.commands.deep_view() == multi_reject(
                    old(session)@,
                    limit_message(
                        old(session)@.menu.chosen.len() as int,
                        self.least(),
                        self.most(),
                    ),
                    window_size(rows),
                )
                &&& turn.answer is None
            },
            old(session)@.phase != Phase::Finalized && key != Key::Enter ==> {
                &&& final(session)@ == after_key(old(session)@, key, window_size(rows))
                &&& turn.commands.deep_view() == key_commands(
                    old(session)@,
                    key,
                    window_size(rows),
                )
                &&& turn.answer is None
            },
    {
        if session.phase == Phase::Finalized {
            let _ = session.menu.count();
            return Turn { commands: Vec::new(), answer: None };
        }
        let shown = session.menu.shown();
        let mut script: Vec<Command> = Vec::new();
        match key {
            Key::Enter => {
                let count = session.menu.chosen().len();
                if count < self.min || count > self.max {
                    push_command(&mut script, Command::ClearLastLines(shown));
                    if session.error_shown {
                        push_command(&mut script, Command::ClearLastLines(1));
                    }
                    let message = limit_text(count, self.min, self.max);
                    push_command(
                        &mut script,
                        Command::WriteLine(formatted_error(message.as_str())),
                    );
                    paint_rows(&mut script, &mut session.menu, rows);
                    session.error_shown = true;
                    session.phase = Phase::ShowingError;
                    assert(script.deep_view() =~= multi_reject(
                        old(session)@,
                        limit_message(count as int, self.least(), self.most()),
                        window_size(rows),
                    ));
                    Turn { commands: script, answer: None }
                } else {
                    let mut found: Vec<Option<T>> = Vec::new();
                    let mut k: usize = 0;
                    while k < session.menu.chosen().len()
                        invariant
                            k <= session@.menu.chosen.len(),
                            session@ == old(session)@,
                            found@.len() == k,
                            forall|j: int|
                                0 <= j < k ==> call_ensures(
                                    T::from_index,
                                    (session@.menu.chosen[j],),
                                    #[trigger] found@[j],
                                ),
                        decreases session@.menu.chosen.len() - k,
                    {
                        let place = session.menu.chosen()[k];
                        found.push(T::from_index(place));
                        k += 1;
                    }
                    let ghost heard = found@;
                    let turn = self.finish(session, found);
                    assert(finished(self.title(), old(session)@, heard, session@, turn));
                    turn
                }
            },
            Key::Char(' ') => {
                session.menu.toggle();
                push_command(&mut script, Command::ClearLastLines(shown));
                paint_rows(&mut script, &mut session.menu, rows);
                session.phase = Phase::Editing;
                assert(script.deep_view() =~= key_commands(
                    old(session)@,
                    key,
                    window_size(rows),
                ));
                Turn { commands: script, answer: None }
            },
            _ => {
                if session.menu.press(key) {
                    push_command(&mut script, Command::ClearLastLines(shown));
                    paint_rows(&mut script, &mut session.menu, rows);
                }
                session.phase = Phase::Editing;
                assert(script.deep_view() =~= key_commands(
                    old(session)@,
                    key,
                    window_size(rows),
                ));
                Turn { commands: script, answer: None }
            },
        }
    }
}

/// The options, the cursor and the selection after a key other than Enter:
/// the blank toggles the option at the cursor, and a key that moves the cursor
/// moves it.
pub open spec fn menu_after(menu: MenuView, key: Key) -> MenuView {
    if key == Key::Char(' ') {
        MenuView { chosen: toggled(menu.chosen, menu.cursor as usize), ..menu }
    } else {
        MenuView { cursor: navigate(menu.cursor, menu.labels.len() as int, key), ..menu }
    }
}

/// Whether a key other than Enter changes what is shown.
pub open spec fn repaints(menu: MenuView, key: Key) -> bool {
    key == Key::Char(' ') || navigates(menu.labels.len() as int, key)
}

/// The state after a key other than Enter. The prompt is editing again; where
/// the key changes what is shown, the page of the cursor is what is shown.
pub open spec fn after_key(before: MultiState, key: Key, window: int) -> MultiState {
    let menu = menu_after(before.menu, key);
    MultiState {
        menu: if repaints(before.menu, key) {
            MenuView { shown: page_len(menu.labels.len() as int, menu.cursor, window), ..menu }
        } else {
            menu
        },
        error_shown: before.error_shown,
        phase: Phase::Editing,
    }
}

/// What the terminal is told after a key other than Enter.
pub open spec fn key_commands(before: MultiState, key: Key, window: int) -> Seq<CommandView> {
    if repaints(before.menu, key) {
        multi_repaint(before.menu.shown, menu_after(before.menu, key), window)
    } else {
        Seq::empty()
    }
}

} // verus!

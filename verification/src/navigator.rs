//! The cursor over a list of options, and the page of the list that fits on
//! the terminal.

use vstd::prelude::*;
use vstd::arithmetic::div_mod::{lemma_fundamental_div_mod, lemma_div_pos_is_pos};
use crate::keys::Key;

verus! {

/// The number of options that fit on a terminal of `rows` rows: two rows are
/// kept for the lines of the prompt.
pub open spec fn window_size(rows: u16) -> int {
    rows - 2
}

/// The page on which option `index` stands when a page holds `window` options.
pub open spec fn page(index: int, window: int) -> int {
    index / window
}

/// The first option of the page on which option `index` stands.
pub open spec fn page_start(index: int, window: int) -> int {
    page(index, window) * window
}

/// How many options of a list of `count` are shown on the page of `index`.
pub open spec fn page_len(count: int, index: int, window: int) -> int {
    if count - page_start(index, window) < window {
        count - page_start(index, window)
    } else {
        window
    }
}

/// The cursor one option up; from the first option it goes to the last.
pub open spec fn up(cursor: int, count: int) -> int {
    if cursor > 0 {
        cursor - 1
    } else {
        count - 1
    }
}

/// The cursor one option down; from the last option it goes to the first.
pub open spec fn down(cursor: int, count: int) -> int {
    if cursor < count - 1 {
        cursor + 1
    } else {
        0
    }
}

/// Whether `c` is one of the digit keys `1` to `9`.
pub open spec fn is_digit_key(c: char) -> bool {
    '1' <= c <= '9'
}

/// The option that the digit key `c` names: `1` names the first.
pub open spec fn digit_target(c: char) -> int {
    c as int - '1' as int
}

/// Whether `key` is a digit key that names one of `count` options.
pub open spec fn jumps(count: int, key: Key) -> bool {
    key matches Key::Char(c) && is_digit_key(c) && digit_target(c) < count
}

/// Whether `key` moves the cursor over a list of `count` options: an arrow up
/// or down, or a digit key that names an option.
pub open spec fn navigates(count: int, key: Key) -> bool {
    key == Key::ArrowUp || key == Key::ArrowDown || jumps(count, key)
}

/// The cursor after `key`.
pub open spec fn navigate(cursor: int, count: int, key: Key) -> int {
    match key {
        Key::ArrowUp => up(cursor, count),
        Key::ArrowDown => down(cursor, count),
        Key::Char(c) => if jumps(count, key) {
            digit_target(c)
        } else {
            cursor
        },
        _ => cursor,
    }
}

/// The number of options that fit on a terminal of `rows` rows.
pub fn window_of(rows: u16) -> (window: usize)
    requires
        rows > 2,
    ensures
        window == window_size(rows),
        0 < window <= u16::MAX,
{
    (rows - 2) as usize
}

/// The page on which option `index` stands.
pub fn page_of(index: usize, window: usize) -> (number: usize)
    requires
        window > 0,
    ensures
        number == page(index as int, window as int),
        number == index as int / window as int,
{
    index / window
}

/// The options shown with option `index`: from `bounds.0` up to, not
/// including, `bounds.1`.
pub fn page_bounds(count: usize, index: usize, window: usize) -> (bounds: (usize, usize))
    requires
        window > 0,
        index < count,
    ensures
        bounds.0 == page_start(index as int, window as int),
        bounds.1 == bounds.0 + page_len(count as int, index as int, window as int),
        bounds.0 <= index < bounds.1 <= count,
{
    proof {
        lemma_page_holds_index(count as int, index as int, window as int);
        lemma_fundamental_div_mod(index as int, window as int);
    }
    let start = index - index % window;
    let end = if count - start < window {
        count
    } else {
        start + window
    };
    (start, end)
}

/// The cursor after `key`, over a list of `count` options.
pub fn navigate_to(cursor: usize, count: usize, key: Key) -> (next: usize)
    requires
        cursor < count,
    ensures
        next == navigate(cursor as int, count as int, key),
        next < count,
{
    match key {
        Key::ArrowUp => if cursor > 0 {
            cursor - 1
        } else {
            count - 1
        },
        Key::ArrowDown => if cursor < count - 1 {
            cursor + 1
        } else {
            0
        },
        Key::Char(c) => {
            if '1' <= c && c <= '9' {
                let target = (c as u32 - '1' as u32) as usize;
                if target < count {
                    target
                } else {
                    cursor
                }
            } else {
                cursor
            }
        },
        _ => cursor,
    }
}

/// Whether `key` moves the cursor over a list of `count` options.
pub fn is_navigation(count: usize, key: Key) -> (yes: bool)
    ensures
        yes == navigates(count as int, key),
{
    match key {
        Key::ArrowUp => true,
        Key::ArrowDown => true,
        Key::Char(c) => '1' <= c && c <= '9' && ((c as u32 - '1' as u32) as usize) < count,
        _ => false,
    }
}

/// The mathematical content of a [`Menu`].
pub struct MenuView {
    /// The labels of the options, in the order of the options.
    pub labels: Seq<Seq<char>>,
    /// The option at which the cursor stands.
    pub cursor: int,
    /// How many options are on the terminal now.
    pub shown: int,
    /// The options that are selected, in the order in which they were.
    pub chosen: Seq<usize>,
}

impl MenuView {
    /// There is an option, the cursor stands at one, no more options are
    /// shown than there are, no option is selected twice, and every selected
    /// option is on the list.
    pub open spec fn wf(self) -> bool {
        &&& 0 <= self.cursor < self.labels.len()
        &&& 0 <= self.shown <= self.labels.len()
        &&& self.shown <= u16::MAX
        &&& self.chosen.no_duplicates()
        &&& forall|k: int| 0 <= k < self.chosen.len() ==> self.chosen[k] < self.labels.len()
    }
}

/// A list of options with a cursor.
pub struct Menu {
    labels: Vec<String>,
    cursor: usize,
    shown: usize,
    chosen: Vec<usize>,
}

impl View for Menu {
    type V = MenuView;

    closed spec fn view(&self) -> MenuView {
        MenuView {
            labels: self.labels.deep_view(),
            cursor: self.cursor as int,
            shown: self.shown as int,
            chosen: self.chosen@,
        }
    }
}

/// The selection after the option `index` is added, unless it is selected
/// already.
pub open spec fn marked(chosen: Seq<usize>, index: usize) -> Seq<usize> {
    if chosen.contains(index) {
        chosen
    } else {
        chosen.push(index)
    }
}

/// The selection after each option of `indices` is added in turn.
pub open spec fn marked_all(indices: Seq<usize>) -> Seq<usize>
    decreases indices.len(),
{
    if indices.len() == 0 {
        Seq::empty()
    } else {
        marked(marked_all(indices.drop_last()), indices.last())
    }
}

/// The selection after the option `index` is toggled: a selected option
/// leaves the selection, another joins it at the end.
pub open spec fn toggled(chosen: Seq<usize>, index: usize) -> Seq<usize> {
    if chosen.contains(index) {
        chosen.remove_value(index)
    } else {
        chosen.push(index)
    }
}

/// Toggling an option keeps a selection without repeats and within the list.
pub proof fn lemma_toggled_keeps_wf(chosen: Seq<usize>, index: usize, count: int)
    requires
        chosen.no_duplicates(),
        forall|k: int| 0 <= k < chosen.len() ==> chosen[k] < count,
        index < count,
    ensures
        toggled(chosen, index).no_duplicates(),
        forall|k: int|
            0 <= k < toggled(chosen, index).len() ==> (#[trigger] toggled(chosen, index)[k])
                < count,
        toggled(chosen, index).contains(index) == !chosen.contains(index),
        forall|other: usize|
            other != index ==> toggled(chosen, index).contains(other) == chosen.contains(other),
{
    let after = toggled(chosen, index);
    if chosen.contains(index) {
        chosen.index_of_first_ensures(index);
        let at = chosen.index_of_first(index).unwrap();
        assert(after == chosen.remove(at));
        assert forall|other: usize| other != index implies after.contains(other)
            == chosen.contains(other) by {
            if chosen.contains(other) {
                let j = choose|j: int| 0 <= j < chosen.len() && chosen[j] == other;
                if j < at {
                    assert(after[j] == other);
                } else {
                    assert(after[j - 1] == other);
                }
            }
            if after.contains(other) {
                let j = choose|j: int| 0 <= j < after.len() && after[j] == other;
                if j < at {
                    assert(chosen[j] == other);
                } else {
                    assert(chosen[j + 1] == other);
                }
            }
        }
        if after.contains(index) {
            let j = choose|j: int| 0 <= j < after.len() && after[j] == index;
            if j < at {
                assert(chosen[j] == index);
            } else {
                assert(chosen[j + 1] == index);
            }
        }
    } else {
        assert(after == chosen.push(index));
        assert(after[chosen.len() as int] == index);
        assert forall|other: usize| other != index implies after.contains(other)
            == chosen.contains(other) by {
            if chosen.contains(other) {
                let j = choose|j: int| 0 <= j < chosen.len() && chosen[j] == other;
                assert(after[j] == other);
            }
        }
    }
}

/// Toggling the same option twice restores the selection as a set: the
/// options that are selected after the second toggle are those that were
/// selected before the first, and none is selected twice.
pub proof fn lemma_toggle_twice_restores_set(chosen: Seq<usize>, index: usize)
    requires
        chosen.no_duplicates(),
    ensures
        toggled(toggled(chosen, index), index).no_duplicates(),
        forall|other: usize|
            toggled(toggled(chosen, index), index).contains(other) == chosen.contains(other),
        toggled(toggled(chosen, index), index).to_set() == chosen.to_set(),
{
    let bound = usize::MAX + 1;
    let once = toggled(chosen, index);
    let twice = toggled(once, index);
    lemma_toggled_keeps_wf(chosen, index, bound);
    lemma_toggled_keeps_wf(once, index, bound);
    assert forall|other: usize| twice.contains(other) == chosen.contains(other) by {
        if other != index {
            assert(once.contains(other) == chosen.contains(other));
        }
    }
    assert(twice.to_set() =~= chosen.to_set());
}

/// Toggling the same option twice restores the order of the selection too,
/// where the option was not selected, or was the one selected last. (An option
/// selected earlier comes back at the end.)
pub proof fn lemma_toggle_twice_restores_order(chosen: Seq<usize>, index: usize)
    requires
        chosen.no_duplicates(),
        !chosen.contains(index) || chosen.last() == index,
    ensures
        toggled(toggled(chosen, index), index) == chosen,
{
    let once = toggled(chosen, index);
    if chosen.contains(index) {
        chosen.index_of_first_ensures(index);
        let at = chosen.index_of_first(index).unwrap();
        assert(at == chosen.len() - 1);
        assert(once =~= chosen.drop_last());
        if once.contains(index) {
            let j = choose|j: int| 0 <= j < once.len() && once[j] == index;
            assert(chosen[j] == index);
        }
        assert(once.push(index) =~= chosen);
    } else {
        assert(once == chosen.push(index));
        assert(once[chosen.len() as int] == index);
        once.index_of_first_ensures(index);
        let at = once.index_of_first(index).unwrap();
        if at < chosen.len() {
            assert(chosen[at] == index);
        }
        assert(once.remove(at) =~= chosen);
    }
}

/// The place of `index` in `chosen`, if it is there.
pub fn find_index(chosen: &Vec<usize>, index: usize) -> (place: Option<usize>)
    ensures
        match place {
            Some(k) => k < chosen@.len() && chosen@[k as int] == index && (forall|j: int|
                0 <= j < k ==> chosen@[j] != index),
            None => !chosen@.contains(index),
        },
{
    let mut k: usize = 0;
    while k < chosen.len()
        invariant
            k <= chosen.len(),
            forall|j: int| 0 <= j < k ==> chosen@[j] != index,
        decreases chosen.len() - k,
    {
        if chosen[k] == index {
            return Some(k);
        }
        k += 1;
    }
    None
}

impl Menu {
    #[verifier::type_invariant]
    spec fn cursor_on_list(self) -> bool {
        &&& self.cursor < self.labels.len()
        &&& self.shown <= self.labels.len()
        &&& self.shown <= u16::MAX
        &&& self.chosen@.no_duplicates()
        &&& forall|k: int| 0 <= k < self.chosen@.len() ==> self.chosen@[k] < self.labels.len()
    }

    /// A menu of the options with these labels, with the cursor at `cursor`
    /// and nothing on the terminal yet.
    pub fn new(labels: Vec<String>, cursor: usize) -> (menu: Menu)
        requires
            cursor < labels.len(),
        ensures
            menu@ == (MenuView {
                labels: labels.deep_view(),
                cursor: cursor as int,
                shown: 0,
                chosen: Seq::empty(),
            }),
            menu@.wf(),
    {
        Menu { labels, cursor, shown: 0, chosen: Vec::new() }
    }

    /// The number of options.
    pub fn count(&self) -> (count: usize)
        ensures
            count == self@.labels.len(),
            self@.wf(),
    {
        proof {
            use_type_invariant(self);
        }
        self.labels.len()
    }

    /// The option at which the cursor stands.
    pub fn cursor(&self) -> (cursor: usize)
        ensures
            cursor == self@.cursor,
            self@.wf(),
    {
        proof {
            use_type_invariant(self);
        }
        self.cursor
    }

    /// How many options are on the terminal now.
    pub fn shown(&self) -> (shown: usize)
        ensures
            shown == self@.shown,
            self@.wf(),
    {
        proof {
            use_type_invariant(self);
        }
        self.shown
    }

    /// The options that are selected, in the order in which they were.
    pub fn chosen(&self) -> (chosen: &Vec<usize>)
        ensures
            chosen@ == self@.chosen,
            self@.wf(),
    {
        proof {
            use_type_invariant(self);
        }
        &self.chosen
    }

    /// Whether option `index` is selected.
    pub fn is_chosen(&self, index: usize) -> (yes: bool)
        ensures
            yes == self@.chosen.contains(index),
    {
        find_index(&self.chosen, index).is_some()
    }

    /// Selects option `index`, unless it is selected already.
    pub fn mark(&mut self, index: usize)
        requires
            index < old(self)@.labels.len(),
        ensures
            final(self)@ == (MenuView { chosen: marked(old(self)@.chosen, index), ..old(self)@ }),
            final(self)@.wf(),
    {
        proof {
            use_type_invariant(&*self);
        }
        if find_index(&self.chosen, index).is_none() {
            let mut chosen: Vec<usize> = Vec::new();
            std::mem::swap(&mut self.chosen, &mut chosen);
            chosen.push(index);
            self.chosen = chosen;
        }
    }

    /// Toggles the option at the cursor: if it is selected it leaves the
    /// selection, else it joins the selection at the end.
    pub fn toggle(&mut self)
        ensures
            final(self)@ == (MenuView {
                chosen: toggled(old(self)@.chosen, old(self)@.cursor as usize),
                ..old(self)@
            }),
            final(self)@.wf(),
    {
        proof {
            use_type_invariant(&*self);
        }
        let index = self.cursor;
        let place = find_index(&self.chosen, index);
        let mut chosen: Vec<usize> = Vec::new();
        std::mem::swap(&mut self.chosen, &mut chosen);
        match place {
            Some(k) => {
                proof {
                    old(self)@.chosen.index_of_first_ensures(index);
                    assert(old(self)@.chosen.index_of_first(index) == Some(k as int));
                    lemma_toggled_keeps_wf(old(self)@.chosen, index, self.labels.len() as int);
                }
                chosen.remove(k);
            },
            None => {
                chosen.push(index);
            },
        }
        self.chosen = chosen;
    }

    /// The label of option `index`.
    pub fn label(&self, index: usize) -> (label: &str)
        requires
            index < self@.labels.len(),
        ensures
            label@ == self@.labels[index as int],
    {
        self.labels[index].as_str()
    }

    /// Moves the cursor as `key` says. Returns whether `key` is a key that
    /// moves the cursor.
    pub fn press(&mut self, key: Key) -> (moved: bool)
        ensures
            moved == navigates(old(self)@.labels.len() as int, key),
            final(self)@ == (MenuView {
                cursor: navigate(old(self)@.cursor, old(self)@.labels.len() as int, key),
                ..old(self)@
            }),
            final(self)@.wf(),
    {
        proof {
            use_type_invariant(&*self);
        }
        let count = self.labels.len();
        self.cursor = navigate_to(self.cursor, count, key);
        is_navigation(count, key)
    }

    /// The options that a terminal with room for `window` options shows: from
    /// `bounds.0` up to, not including, `bounds.1`. They are noted as shown.
    pub fn turn_page(&mut self, window: usize) -> (bounds: (usize, usize))
        requires
            0 < window <= u16::MAX,
        ensures
            final(self)@ == (MenuView {
                shown: page_len(old(self)@.labels.len() as int, old(self)@.cursor, window as int),
                ..old(self)@
            }),
            final(self)@.wf(),
            bounds.0 == page_start(old(self)@.cursor, window as int),
            bounds.1 == bounds.0 + final(self)@.shown,
            bounds.0 <= old(self)@.cursor < bounds.1 <= old(self)@.labels.len(),
    {
        proof {
            use_type_invariant(&*self);
        }
        let bounds = page_bounds(self.labels.len(), self.cursor, window);
        self.shown = bounds.1 - bounds.0;
        bounds
    }
}

/// Every option of the list stands on the page that its index divided by the
/// window size names, and that page shows it: the page starts at or before the
/// option, holds at least one and at most `window` options, and ends within
/// the list.
pub proof fn lemma_page_holds_index(count: int, index: int, window: int)
    requires
        window > 0,
        0 <= index < count,
    ensures
        page(index, window) == index / window,
        0 <= page(index, window),
        page_start(index, window) == index - index % window,
        page_start(index, window) <= index < page_start(index, window) + page_len(
            count,
            index,
            window,
        ),
        0 < page_len(count, index, window) <= window,
        page_start(index, window) + page_len(count, index, window) <= count,
{
    lemma_fundamental_div_mod(index, window);
    lemma_div_pos_is_pos(index, window);
    assert(window * (index / window) == (index / window) * window) by (nonlinear_arith);
}

/// The cursor stays on the list whatever key is pressed.
pub proof fn lemma_navigate_stays_on_list(cursor: int, count: int, key: Key)
    requires
        0 <= cursor < count,
    ensures
        0 <= navigate(cursor, count, key) < count,
{
}

/// Up and down undo each other, also across the ends of the list.
pub proof fn lemma_up_down_inverse(cursor: int, count: int)
    requires
        0 <= cursor < count,
    ensures
        down(up(cursor, count), count) == cursor,
        up(down(cursor, count), count) == cursor,
{
}

} // verus!

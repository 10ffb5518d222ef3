use quizzard::error::Error;
use quizzard::keys::Key;
use quizzard::multiselect::{MultiSelect, Phase};
use quizzard::navigator::{find_index, navigate_to, page_bounds, page_of, window_of, Menu};
use quizzard::screen::{plain, Command, Span, Tone};
use quizzard::select::{read_labels, SelectEnum};

#[derive(Debug, PartialEq, Clone, Copy)]
enum Language {
    Rust,
    Go,
    C,
    Zig,
    Ada,
}

impl SelectEnum for Language {
    const VARIANTS: &'static [Self] =
        &[Language::Rust, Language::Go, Language::C, Language::Zig, Language::Ada];

    fn prompt(&self) -> &'static str {
        match self {
            Language::Rust => "Rust",
            Language::Go => "Go",
            Language::C => "C",
            Language::Zig => "Zig",
            Language::Ada => "Ada",
        }
    }

    fn to_index(&self) -> usize {
        Self::VARIANTS.iter().position(|v| v == self).unwrap()
    }

    fn from_index(n: usize) -> Option<Self> {
        Self::VARIANTS.get(n).copied()
    }
}

const FILLED: &str = "\u{25c9}";
const OUTLINE: &str = "\u{25ef}";

fn show(commands: &[Command]) -> Vec<String> {
    let mut out = Vec::new();
    for command in commands {
        match command {
            Command::WriteLine(spans) => out.push(plain(spans)),
            Command::ClearLastLines(n) => out.push(format!("<clear {}>", n)),
            other => out.push(format!("{:?}", other)),
        }
    }
    out
}

fn row(selected: bool, label: &str) -> String {
    format!("{} {}", if selected { FILLED } else { OUTLINE }, label)
}

#[test]
fn multiselect_paints_question_and_options() {
    let prompt = MultiSelect::<Language>::new("Languages?");
    let (_, commands) = prompt.begin(24).unwrap();
    assert_eq!(
        show(&commands),
        vec![
            "? Languages? (<space> to select, <enter> to proceed)".to_string(),
            row(false, "Rust"),
            row(false, "Go"),
            row(false, "C"),
            row(false, "Zig"),
            row(false, "Ada"),
        ]
    );
    match &commands[1] {
        Command::WriteLine(spans) => assert_eq!(
            spans,
            &vec![
                Span { text: OUTLINE.to_string(), tone: Tone::Red },
                Span { text: " ".to_string(), tone: Tone::Plain },
                Span { text: "Rust".to_string(), tone: Tone::RedBold },
            ]
        ),
        other => panic!("unexpected command {:?}", other),
    }
    match &commands[2] {
        Command::WriteLine(spans) => assert_eq!(
            spans,
            &vec![
                Span { text: OUTLINE.to_string(), tone: Tone::Plain },
                Span { text: " ".to_string(), tone: Tone::Plain },
                Span { text: "Go".to_string(), tone: Tone::Plain },
            ]
        ),
        other => panic!("unexpected command {:?}", other),
    }
}

#[test]
fn one_selected_is_rejected_and_two_are_returned_in_the_order_selected() {
    let prompt = MultiSelect::<Language>::new("Languages?").min(2).max(4);
    let (mut session, _) = prompt.begin(24).unwrap();
    prompt.step(&mut session, Key::Char('3'), 24);
    let turn = prompt.step(&mut session, Key::Char(' '), 24);
    assert_eq!(
        show(&turn.commands),
        vec![
            "<clear 5>".to_string(),
            row(false, "Rust"),
            row(false, "Go"),
            row(true, "C"),
            row(false, "Zig"),
            row(false, "Ada"),
        ]
    );
    let turn = prompt.step(&mut session, Key::Enter, 24);
    assert!(turn.answer.is_none());
    assert_eq!(
        show(&turn.commands),
        vec![
            "<clear 5>".to_string(),
            "X Must select at least 2".to_string(),
            row(false, "Rust"),
            row(false, "Go"),
            row(true, "C"),
            row(false, "Zig"),
            row(false, "Ada"),
        ]
    );
    prompt.step(&mut session, Key::ArrowUp, 24);
    prompt.step(&mut session, Key::ArrowUp, 24);
    prompt.step(&mut session, Key::Char(' '), 24);
    let turn = prompt.step(&mut session, Key::Enter, 24);
    assert_eq!(turn.answer, Some(Ok(vec![Language::C, Language::Rust])));
    assert_eq!(show(&turn.commands), vec!["<clear 7>", "? Languages? C, Rust"]);
    let turn = prompt.step(&mut session, Key::Char(' '), 24);
    assert!(turn.commands.is_empty());
    assert!(turn.answer.is_none());
}

#[test]
fn more_than_the_maximum_is_rejected() {
    let prompt = MultiSelect::<Language>::new("Languages?").max(1);
    let (mut session, _) = prompt.begin(24).unwrap();
    prompt.step(&mut session, Key::Char(' '), 24);
    prompt.step(&mut session, Key::ArrowDown, 24);
    prompt.step(&mut session, Key::Char(' '), 24);
    let turn = prompt.step(&mut session, Key::Enter, 24);
    assert!(turn.answer.is_none());
    assert_eq!(show(&turn.commands)[1], "X Must select 1 or less");
    let turn = prompt.step(&mut session, Key::Enter, 24);
    assert_eq!(show(&turn.commands)[..3], ["<clear 5>", "<clear 1>", "X Must select 1 or less"]);
    prompt.step(&mut session, Key::Char(' '), 24);
    let turn = prompt.step(&mut session, Key::Enter, 24);
    assert_eq!(turn.answer, Some(Ok(vec![Language::Rust])));
}

#[test]
fn toggling_twice_restores_the_selection() {
    let prompt = MultiSelect::<Language>::new("Languages?")
        .initial(vec![Language::Zig, Language::Go]);
    let (mut session, _) = prompt.begin(24).unwrap();
    prompt.step(&mut session, Key::Char('3'), 24);
    prompt.step(&mut session, Key::Char(' '), 24);
    let turn = prompt.step(&mut session, Key::Char(' '), 24);
    assert_eq!(
        show(&turn.commands),
        vec![
            "<clear 5>".to_string(),
            row(false, "Rust"),
            row(true, "Go"),
            row(false, "C"),
            row(true, "Zig"),
            row(false, "Ada"),
        ]
    );
    let turn = prompt.step(&mut session, Key::Enter, 24);
    assert_eq!(turn.answer, Some(Ok(vec![Language::Zig, Language::Go])));
}

#[test]
fn toggling_an_earlier_option_twice_moves_it_to_the_end() {
    let prompt = MultiSelect::<Language>::new("Languages?")
        .initial(vec![Language::Zig, Language::Go]);
    let (mut session, _) = prompt.begin(24).unwrap();
    prompt.step(&mut session, Key::Char('4'), 24);
    prompt.step(&mut session, Key::Char(' '), 24);
    prompt.step(&mut session, Key::Char(' '), 24);
    let turn = prompt.step(&mut session, Key::Enter, 24);
    assert_eq!(turn.answer, Some(Ok(vec![Language::Go, Language::Zig])));
    assert_eq!(show(&turn.commands)[1], "? Languages? Go, Zig");
}

#[test]
fn an_empty_selection_is_skipped_where_none_is_needed() {
    let prompt = MultiSelect::<Language>::new("Languages?");
    let (mut session, _) = prompt.begin(24).unwrap();
    let turn = prompt.step(&mut session, Key::Enter, 24);
    assert_eq!(turn.answer, Some(Ok(Vec::new())));
    assert_eq!(show(&turn.commands), vec!["<clear 6>", "? Languages? Skipped"]);
}

#[test]
fn options_set_twice_are_selected_once() {
    let prompt = MultiSelect::<Language>::new("Languages?")
        .initial(vec![Language::Ada, Language::Rust, Language::Ada]);
    let (mut session, commands) = prompt.begin(24).unwrap();
    assert_eq!(show(&commands)[1], row(true, "Rust"));
    assert_eq!(show(&commands)[5], row(true, "Ada"));
    let turn = prompt.step(&mut session, Key::Enter, 24);
    assert_eq!(turn.answer, Some(Ok(vec![Language::Ada, Language::Rust])));
}

#[test]
fn a_list_that_gives_no_option_fails_the_multiple_choice() {
    let prompt = MultiSelect::<Language>::new("Languages?");
    let (mut session, _) = prompt.begin(24).unwrap();
    prompt.step(&mut session, Key::Char(' '), 24);
    let turn = prompt.finish(&mut session, vec![Some(Language::Rust), None]);
    assert_eq!(turn.answer, Some(Err(Error::Other("Index out of range"))));
    assert_eq!(show(&turn.commands), vec!["<clear 6>"]);
}

#[test]
fn multiselect_pages_follow_the_cursor() {
    let prompt = MultiSelect::<Language>::new("Languages?");
    let (mut session, commands) = prompt.begin(4).unwrap();
    assert_eq!(commands.len(), 3);
    let turn = prompt.step(&mut session, Key::ArrowUp, 4);
    assert_eq!(show(&turn.commands), vec!["<clear 2>".to_string(), row(false, "Ada")]);
    let turn = prompt.step(&mut session, Key::Char(' '), 5);
    assert_eq!(
        show(&turn.commands),
        vec!["<clear 1>".to_string(), row(false, "Zig"), row(true, "Ada")]
    );
    let turn = prompt.step(&mut session, Key::Other, 5);
    assert!(turn.commands.is_empty());
}

#[test]
fn the_page_of_an_option_is_its_index_divided_by_the_window() {
    for window in 1usize..8 {
        for count in 1usize..20 {
            for index in 0..count {
                assert_eq!(page_of(index, window), index / window);
                let (start, end) = page_bounds(count, index, window);
                assert_eq!(start, (index / window) * window);
                assert_eq!(end, (start + window).min(count));
                assert!(start <= index && index < end);
            }
        }
    }
    assert_eq!(window_of(24), 22);
    assert_eq!(window_of(3), 1);
}

#[test]
fn the_cursor_wraps_and_jumps() {
    assert_eq!(navigate_to(0, 3, Key::ArrowUp), 2);
    assert_eq!(navigate_to(2, 3, Key::ArrowDown), 0);
    assert_eq!(navigate_to(1, 3, Key::ArrowUp), 0);
    assert_eq!(navigate_to(1, 3, Key::ArrowDown), 2);
    assert_eq!(navigate_to(0, 3, Key::Char('3')), 2);
    assert_eq!(navigate_to(0, 5, Key::Char('3')), 2);
    assert_eq!(navigate_to(1, 3, Key::Char('9')), 1);
    assert_eq!(navigate_to(1, 3, Key::Char('4')), 1);
    assert_eq!(navigate_to(1, 3, Key::Char('0')), 1);
    assert_eq!(navigate_to(1, 3, Key::Char('1')), 0);
    assert_eq!(navigate_to(1, 3, Key::Char('a')), 1);
    assert_eq!(navigate_to(1, 3, Key::Enter), 1);
    assert_eq!(navigate_to(0, 1, Key::ArrowUp), 0);
    assert_eq!(navigate_to(0, 1, Key::ArrowDown), 0);
}

#[test]
fn a_menu_keeps_its_selection_in_order() {
    let mut menu = Menu::new(read_labels::<Language>(), 1);
    assert_eq!((menu.count(), menu.cursor(), menu.shown()), (5, 1, 0));
    assert_eq!(menu.label(4), "Ada");
    menu.toggle();
    menu.mark(3);
    menu.mark(1);
    assert_eq!(menu.chosen(), &vec![1, 3]);
    assert!(menu.is_chosen(3));
    assert!(!menu.is_chosen(0));
    assert!(menu.press(Key::ArrowDown));
    assert!(!menu.press(Key::Other));
    menu.toggle();
    assert_eq!(menu.chosen(), &vec![1, 3, 2]);
    assert!(menu.press(Key::ArrowUp));
    menu.toggle();
    assert_eq!(menu.chosen(), &vec![3, 2]);
    assert_eq!(menu.turn_page(2), (0, 2));
    assert_eq!(menu.shown(), 2);
    assert_eq!(find_index(&vec![4, 5, 6], 6), Some(2));
    assert_eq!(find_index(&vec![4, 5, 6], 7), None);
}

#[test]
fn start_selects_the_places_on_the_list_and_fails_on_others() {
    let prompt = MultiSelect::<Language>::new("Languages?");
    let (mut session, _) = prompt.start(&vec![2, 0, 2], 24).unwrap();
    let turn = prompt.step(&mut session, Key::Enter, 24);
    assert_eq!(turn.answer, Some(Ok(vec![Language::C, Language::Rust])));
    assert_eq!(prompt.start(&vec![2, 5], 24).err(), Some(Error::Other("Index out of range")));
}

#[test]
fn a_rejected_enter_shows_an_error_until_the_next_key() {
    let prompt = MultiSelect::<Language>::new("Languages?").min(1);
    let (mut session, _) = prompt.begin(24).unwrap();
    assert_eq!(session.phase(), Phase::Editing);
    assert!(!session.error_shown());
    prompt.step(&mut session, Key::Enter, 24);
    assert_eq!(session.phase(), Phase::ShowingError);
    assert!(session.error_shown());
    prompt.step(&mut session, Key::Other, 24);
    assert_eq!(session.phase(), Phase::Editing);
    assert!(session.error_shown());
    prompt.step(&mut session, Key::Char('2'), 24);
    assert_eq!(session.cursor(), 1);
    prompt.step(&mut session, Key::Char(' '), 24);
    assert_eq!(session.chosen(), &vec![1]);
    let turn = prompt.step(&mut session, Key::Enter, 24);
    assert_eq!(session.phase(), Phase::Finalized);
    assert_eq!(turn.answer, Some(Ok(vec![Language::Go])));
    assert_eq!(show(&turn.commands), vec!["<clear 7>", "? Languages? Go"]);
    prompt.step(&mut session, Key::Char(' '), 24);
    assert_eq!(session.chosen(), &vec![1]);
    assert_eq!(session.phase(), Phase::Finalized);
}

#[test]
fn toggling_the_same_option_twice_restores_the_selection_and_its_order() {
    let prompt = MultiSelect::<Language>::new("Languages?");
    let (mut session, _) = prompt.start(&vec![3, 1], 24).unwrap();
    prompt.step(&mut session, Key::Char('5'), 24);
    prompt.step(&mut session, Key::Char(' '), 24);
    assert_eq!(session.chosen(), &vec![3, 1, 4]);
    prompt.step(&mut session, Key::Char(' '), 24);
    assert_eq!(session.chosen(), &vec![3, 1]);
    prompt.step(&mut session, Key::Char('2'), 24);
    prompt.step(&mut session, Key::Char(' '), 24);
    assert_eq!(session.chosen(), &vec![3]);
    prompt.step(&mut session, Key::Char(' '), 24);
    assert_eq!(session.chosen(), &vec![3, 1]);
}

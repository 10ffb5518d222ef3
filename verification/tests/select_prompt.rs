use quizzard::error::Error;
use quizzard::keys::Key;
use quizzard::screen::{plain, Command};
use quizzard::select::{Select, SelectEnum};

#[derive(Debug, PartialEq, Clone, Copy)]
enum Speed {
    Slow,
    Medium,
    Fast,
}

impl SelectEnum for Speed {
    const VARIANTS: &'static [Self] = &[Speed::Slow, Speed::Medium, Speed::Fast];

    fn prompt(&self) -> &'static str {
        match self {
            Speed::Slow => "Slow",
            Speed::Medium => "Medium",
            Speed::Fast => "Really Fast",
        }
    }

    fn to_index(&self) -> usize {
        match self {
            Speed::Slow => 0,
            Speed::Medium => 1,
            Speed::Fast => 2,
        }
    }

    fn from_index(n: usize) -> Option<Self> {
        match n {
            0 => Some(Speed::Slow),
            1 => Some(Speed::Medium),
            2 => Some(Speed::Fast),
            _ => None,
        }
    }
}

fn lines(commands: &[Command]) -> Vec<String> {
    let mut out = Vec::new();
    for command in commands {
        match command {
            Command::WriteLine(spans) => out.push(plain(spans)),
            Command::Write(spans) => out.push(format!("{}|", plain(spans))),
            Command::CursorLeft(n) => out.push(format!("<left {}>", n)),
            Command::CursorRight(n) => out.push(format!("<right {}>", n)),
            Command::ClearLine => out.push("<clear line>".to_string()),
            Command::ClearLastLines(n) => out.push(format!("<clear {}>", n)),
            Command::ClearChars(n) => out.push(format!("<erase {}>", n)),
        }
    }
    out
}

#[test]
fn select_paints_question_and_options() {
    let prompt = Select::<Speed>::new("How fast?");
    let (_session, commands) = prompt.begin(24).unwrap();
    assert_eq!(
        lines(&commands),
        vec![
            "? How fast? (<enter> to select)",
            "\u{276f} Slow",
            "  Medium",
            "  Really Fast",
        ]
    );
}

#[test]
fn arrow_up_from_first_wraps_to_last() {
    let prompt = Select::<Speed>::new("How fast?");
    let (mut session, _) = prompt.begin(24).unwrap();
    let turn = prompt.step(&mut session, Key::ArrowUp, 24);
    assert!(turn.answer.is_none());
    assert_eq!(
        lines(&turn.commands),
        vec![
            "<clear 4>",
            "? How fast? (<enter> to select)",
            "  Slow",
            "  Medium",
            "\u{276f} Really Fast",
        ]
    );
    let turn = prompt.step(&mut session, Key::Enter, 24);
    assert_eq!(turn.answer, Some(Ok(Speed::Fast)));
    assert_eq!(lines(&turn.commands), vec!["<clear 4>", "? How fast? Really Fast"]);
}

#[test]
fn arrow_down_from_last_wraps_to_first() {
    let prompt = Select::<Speed>::new("How fast?").initial(Speed::Fast);
    let (mut session, _) = prompt.begin(24).unwrap();
    let turn = prompt.step(&mut session, Key::ArrowDown, 24);
    assert!(turn.answer.is_none());
    let turn = prompt.step(&mut session, Key::Enter, 24);
    assert_eq!(turn.answer, Some(Ok(Speed::Slow)));
}

#[test]
fn digit_three_jumps_to_third_option_and_nine_is_ignored() {
    let prompt = Select::<Speed>::new("How fast?");
    let (mut session, _) = prompt.begin(24).unwrap();
    let turn = prompt.step(&mut session, Key::Char('9'), 24);
    assert!(turn.commands.is_empty());
    let turn = prompt.step(&mut session, Key::Char('3'), 24);
    assert_eq!(turn.commands.len(), 5);
    let turn = prompt.step(&mut session, Key::Char('9'), 24);
    assert!(turn.commands.is_empty());
    let turn = prompt.step(&mut session, Key::Enter, 24);
    assert_eq!(turn.answer, Some(Ok(Speed::Fast)));
}

#[test]
fn optional_select_skips_on_enter_and_picks_on_blank() {
    let prompt = Select::<Speed>::new("How fast?").initial(Speed::Fast);
    let (mut session, commands) = prompt.begin_opt(24);
    assert_eq!(
        lines(&commands)[..2],
        ["? How fast? (<space> to select, <enter> to skip)", "\u{276f} Slow"]
    );
    let turn = prompt.step_opt(&mut session, Key::Enter, 24);
    assert_eq!(turn.answer, Some(Ok(None)));
    assert_eq!(lines(&turn.commands), vec!["<clear 4>", "? How fast? Skipped"]);

    let (mut session, _) = prompt.begin_opt(24);
    prompt.step_opt(&mut session, Key::ArrowDown, 24);
    let turn = prompt.step_opt(&mut session, Key::Char(' '), 24);
    assert_eq!(turn.answer, Some(Ok(Some(Speed::Medium))));
    let turn = prompt.step_opt(&mut session, Key::ArrowDown, 24);
    assert!(turn.answer.is_none());
    assert!(turn.commands.is_empty());
}

#[test]
fn a_list_that_gives_no_option_fails_the_prompt() {
    let prompt = Select::<Speed>::new("How fast?");
    let (mut session, _) = prompt.begin(24).unwrap();
    let turn = prompt.pick(&mut session, None);
    assert_eq!(turn.answer, Some(Err(Error::Other("Index out of range"))));
    assert_eq!(lines(&turn.commands), vec!["<clear 4>"]);
    assert_eq!(Error::Other("Index out of range").message(), "Error: Index out of range");
}

#[test]
fn select_shows_only_the_page_of_the_cursor() {
    let prompt = Select::<Speed>::new("How fast?");
    let (mut session, commands) = prompt.begin(4).unwrap();
    assert_eq!(
        lines(&commands),
        vec!["? How fast? (<enter> to select)", "\u{276f} Slow", "  Medium"]
    );
    let turn = prompt.step(&mut session, Key::Char('3'), 4);
    assert_eq!(
        lines(&turn.commands),
        vec!["<clear 3>", "? How fast? (<enter> to select)", "\u{276f} Really Fast"]
    );
    let turn = prompt.step(&mut session, Key::ArrowUp, 4);
    assert_eq!(
        lines(&turn.commands),
        vec!["<clear 2>", "? How fast? (<enter> to select)", "  Slow", "\u{276f} Medium"]
    );
}

#[derive(Debug, PartialEq)]
enum Stray {
    Only,
}

impl SelectEnum for Stray {
    const VARIANTS: &'static [Self] = &[Stray::Only];

    fn prompt(&self) -> &'static str {
        "Only"
    }

    fn to_index(&self) -> usize {
        7
    }

    fn from_index(_: usize) -> Option<Self> {
        None
    }
}

#[test]
fn an_option_that_names_a_place_off_the_list_fails_the_prompt() {
    let prompt = Select::<Stray>::new("Which?").initial(Stray::Only);
    assert_eq!(prompt.begin(24).err(), Some(Error::Other("Index out of range")));
    let prompt = Select::<Stray>::new("Which?");
    let (mut session, _) = prompt.begin(24).unwrap();
    let turn = prompt.step(&mut session, Key::Enter, 24);
    assert_eq!(turn.answer, Some(Err(Error::Other("Index out of range"))));
    assert_eq!(lines(&turn.commands), vec!["<clear 2>"]);
    let turn = prompt.step(&mut session, Key::Enter, 24);
    assert!(turn.answer.is_none());
}

#[test]
fn start_puts_the_cursor_at_a_place_on_the_list() {
    let prompt = Select::<Speed>::new("How fast?");
    let (_, commands) = prompt.start(1, 24).unwrap();
    assert_eq!(lines(&commands)[1..], ["  Slow", "\u{276f} Medium", "  Really Fast"]);
    assert_eq!(prompt.start(3, 24).err(), Some(Error::Other("Index out of range")));
}

#[test]
fn the_cursor_of_three_options_wraps_around() {
    let prompt = Select::<Speed>::new("How fast?");
    let (mut session, _) = prompt.begin(24).unwrap();
    assert_eq!(session.cursor(), 0);
    prompt.step(&mut session, Key::ArrowUp, 24);
    assert_eq!(session.cursor(), 2);
    prompt.step(&mut session, Key::ArrowDown, 24);
    assert_eq!(session.cursor(), 0);
    prompt.step(&mut session, Key::ArrowDown, 24);
    assert_eq!(session.cursor(), 1);
}

#[test]
fn digit_keys_jump_within_the_list_only() {
    let prompt = Select::<Speed>::new("How fast?");
    let (mut session, _) = prompt.begin(24).unwrap();
    prompt.step(&mut session, Key::Char('3'), 24);
    assert_eq!(session.cursor(), 2);
    prompt.step(&mut session, Key::Char('9'), 24);
    assert_eq!(session.cursor(), 2);
    prompt.step(&mut session, Key::Char('4'), 24);
    assert_eq!(session.cursor(), 2);
    prompt.step(&mut session, Key::Char('0'), 24);
    assert_eq!(session.cursor(), 2);
    prompt.step(&mut session, Key::Char('1'), 24);
    assert_eq!(session.cursor(), 0);
    assert!(!session.finished());
    prompt.step(&mut session, Key::Enter, 24);
    assert!(session.finished());
    prompt.step(&mut session, Key::Char('2'), 24);
    assert_eq!(session.cursor(), 0);
}

#[test]
fn the_optional_select_takes_digit_keys_too() {
    let prompt = Select::<Speed>::new("How fast?");
    let (mut session, _) = prompt.begin_opt(24);
    prompt.step_opt(&mut session, Key::Char('2'), 24);
    assert_eq!(session.cursor(), 1);
    let turn = prompt.step_opt(&mut session, Key::Char(' '), 24);
    assert_eq!(turn.answer, Some(Ok(Some(Speed::Medium))));
    assert!(session.finished());
}

use quizzard::editor::LineSession;
use quizzard::input::Input;
use quizzard::keys::Key;
use quizzard::screen::{plain, Command};

fn show(commands: &[Command]) -> Vec<String> {
    let mut out = Vec::new();
    for command in commands {
        match command {
            Command::WriteLine(spans) => out.push(plain(spans)),
            Command::Write(spans) => out.push(format!("{}|", plain(spans))),
            Command::CursorLeft(n) => out.push(format!("<left {}>", n)),
            Command::CursorRight(n) => out.push(format!("<right {}>", n)),
            Command::ClearLine => out.push("<clear line>".to_string()),
            Command::ClearLastLines(n) => out.push(format!("<clear {}>", n)),
            Command::ClearChars(n) => out.push(format!("<erase {}>", n)),
        }
    }
    out
}

fn longer_than_three(input: String) -> Result<String, String> {
    if input.len() > 3 {
        Ok(input)
    } else {
        Err("Too Short".into())
    }
}

#[test]
fn a_rejected_answer_shows_an_error_and_keeps_the_line() {
    let prompt = Input::new("Name?").validator(longer_than_three);
    let (mut session, commands) = prompt.begin();
    assert_eq!(show(&commands)[0], "? Name? (<enter> to proceed)");
    for c in "abc".chars() {
        prompt.step(&mut session, Key::Char(c));
    }
    prompt.step(&mut session, Key::ArrowLeft);
    let turn = prompt.step(&mut session, Key::Enter);
    assert!(turn.answer.is_none());
    assert_eq!(
        show(&turn.commands),
        vec!["<clear line>", "X Too Short", "\u{276f}\u{276f} abc|", "<left 1>"]
    );
    assert_eq!(session.text(), "abc");
}

#[test]
fn a_second_error_replaces_the_first() {
    let prompt = Input::new("Name?").validator(longer_than_three);
    let (mut session, _) = prompt.begin();
    prompt.step(&mut session, Key::Enter);
    prompt.step(&mut session, Key::Char('a'));
    let turn = prompt.step(&mut session, Key::Enter);
    assert_eq!(
        show(&turn.commands),
        vec!["<clear line>", "<clear 1>", "X Too Short", "\u{276f}\u{276f} a|", "<left 0>"]
    );
}

#[test]
fn an_accepted_answer_after_an_error_clears_the_error_line_too() {
    let prompt = Input::new("Name?").validator(longer_than_three);
    let (mut session, _) = prompt.begin();
    prompt.step(&mut session, Key::Enter);
    for c in "abcd".chars() {
        prompt.step(&mut session, Key::Char(c));
    }
    let turn = prompt.step(&mut session, Key::Enter);
    assert_eq!(turn.answer, Some("abcd".to_string()));
    assert_eq!(show(&turn.commands), vec!["<clear line>", "<clear 2>", "? Name? abcd"]);
}

#[test]
fn an_accepted_answer_without_an_error_clears_one_line() {
    let prompt = Input::new("Name?").validator(|input: String| Ok::<usize, String>(input.len()));
    let (mut session, _) = prompt.begin();
    for c in "abcd".chars() {
        prompt.step(&mut session, Key::Char(c));
    }
    let turn = prompt.step(&mut session, Key::Enter);
    assert_eq!(turn.answer, Some(4));
    assert_eq!(show(&turn.commands), vec!["<clear line>", "<clear 1>", "? Name? abcd"]);
}

#[test]
fn input_takes_a_default_and_a_charset() {
    let prompt = Input::new("Job?")
        .default("Dev")
        .charset(('a'..='z').collect())
        .validator(Ok::<String, String>);
    let (mut session, commands) = prompt.begin();
    assert_eq!(show(&commands)[1], "\u{276f}\u{276f} Dev|");
    assert!(prompt.step(&mut session, Key::Char('X')).commands.is_empty());
    prompt.step(&mut session, Key::Char('x'));
    let turn = prompt.step(&mut session, Key::Enter);
    assert_eq!(turn.answer, Some("Devx".to_string()));
}

#[test]
fn settle_ends_the_turn_with_the_verdict() {
    let prompt = Input::new("Name?").validator(longer_than_three);
    let (mut session, _): (LineSession, _) = prompt.begin();
    let turn = prompt.settle(&mut session, Err("No".to_string()));
    assert!(turn.answer.is_none());
    assert_eq!(show(&turn.commands)[1], "X No");
    let turn = prompt.settle(&mut session, Ok("yes".to_string()));
    assert_eq!(turn.answer, Some("yes".to_string()));
    assert_eq!(show(&turn.commands), vec!["<clear line>", "<clear 2>", "? Name? "]);
}

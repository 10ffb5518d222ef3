use quizzard::decimal::{decimal_of, decimal_of_unsigned};
use quizzard::integer::{
    failure_text, judge, parse_integer, IntError, IntErrorKind, Integer, ParseIntError,
};
use quizzard::keys::Key;
use quizzard::screen::{plain, Command};

fn show(commands: &[Command]) -> Vec<String> {
    let mut out = Vec::new();
    for command in commands {
        match command {
            Command::WriteLine(spans) => out.push(plain(spans)),
            Command::Write(spans) => out.push(format!("{}|", plain(spans))),
            Command::CursorLeft(n) => out.push(format!("<left {}>", n)),
            Command::CursorRight(n) => out.push(format!("<right {}>", n)),
            Command::ClearLine => out.push("<clear line>".to_string()),
            Command::ClearLastLines(n) => out.push(format!("<clear {}>", n)),
            Command::ClearChars(n) => out.push(format!("<erase {}>", n)),
        }
    }
    out
}

fn kind_of(error: &std::num::ParseIntError) -> IntErrorKind {
    match error.kind() {
        std::num::IntErrorKind::Empty => IntErrorKind::Empty,
        std::num::IntErrorKind::InvalidDigit => IntErrorKind::InvalidDigit,
        std::num::IntErrorKind::PosOverflow => IntErrorKind::PosOverflow,
        std::num::IntErrorKind::NegOverflow => IntErrorKind::NegOverflow,
        std::num::IntErrorKind::Zero => IntErrorKind::Zero,
        _ => IntErrorKind::Other,
    }
}

#[test]
fn an_age_above_the_maximum_is_rejected_and_one_within_is_returned() {
    let prompt = Integer::new("Age?").min(0).max(120);
    let (mut session, _) = prompt.begin();
    for c in "150".chars() {
        prompt.step(&mut session, Key::Char(c));
    }
    let turn = prompt.step(&mut session, Key::Enter);
    assert!(turn.answer.is_none());
    assert_eq!(
        show(&turn.commands),
        vec![
            "<clear line>",
            "X Too big! Must be below or equal to 120",
            "\u{276f}\u{276f} 150|",
            "<left 0>"
        ]
    );
    for _ in 0..3 {
        prompt.step(&mut session, Key::Backspace);
    }
    for c in "45".chars() {
        prompt.step(&mut session, Key::Char(c));
    }
    let turn = prompt.step(&mut session, Key::Enter);
    assert_eq!(turn.answer, Some(45));
    assert_eq!(show(&turn.commands), vec!["<clear line>", "<clear 2>", "? Age? 45"]);
}

#[test]
fn the_validator_holds_numbers_to_the_range() {
    assert_eq!(Integer::validator("45".into(), 0, 120), Ok(45));
    assert_eq!(Integer::validator("0".into(), 0, 120), Ok(0));
    assert_eq!(Integer::validator("120".into(), 0, 120), Ok(120));
    assert_eq!(
        Integer::validator("121".into(), 0, 120),
        Err("Too big! Must be below or equal to 120".to_string())
    );
    assert_eq!(
        Integer::validator("-1".into(), 0, 120),
        Err("Too small! Must be above or equal to 0".to_string())
    );
    assert_eq!(
        Integer::validator("-7".into(), -5, 5),
        Err("Too small! Must be above or equal to -5".to_string())
    );
}

#[test]
fn the_validator_names_what_is_wrong_with_the_text() {
    assert_eq!(Integer::validator("".into(), 0, 9), Err("You must enter a value".to_string()));
    assert_eq!(
        Integer::validator("1x".into(), 0, 9),
        Err("An invalid character is present".to_string())
    );
    assert_eq!(
        Integer::validator("-".into(), -9, 9),
        Err("An invalid character is present".to_string())
    );
    assert_eq!(
        Integer::validator("170141183460469231731687303715884105728".into(), 0, 9),
        Err("Too big! Must be below or equal to 9".to_string())
    );
    assert_eq!(
        Integer::validator("-170141183460469231731687303715884105729".into(), -3, 9),
        Err("Too small! Must be below or equal to -3".to_string())
    );
}

#[test]
fn every_kind_of_failure_has_its_message() {
    assert_eq!(failure_text(IntErrorKind::Empty, -1, 1), "You must enter a value");
    assert_eq!(failure_text(IntErrorKind::InvalidDigit, -1, 1), "An invalid character is present");
    assert_eq!(
        failure_text(IntErrorKind::PosOverflow, -1, 1),
        "Too big! Must be below or equal to 1"
    );
    assert_eq!(
        failure_text(IntErrorKind::NegOverflow, -1, 1),
        "Too small! Must be below or equal to -1"
    );
    assert_eq!(failure_text(IntErrorKind::Zero, -1, 1), "Number can't be zero");
    assert_eq!(failure_text(IntErrorKind::Other, -1, 1), "Unable to convert input to number");
}

struct NoZero;

impl IntError for NoZero {
    fn kind(&self) -> &IntErrorKind {
        &IntErrorKind::Zero
    }
}

#[test]
fn judge_asks_the_error_for_its_kind() {
    assert_eq!(judge(Err(NoZero), 0, 9), Err("Number can't be zero".to_string()));
    assert_eq!(judge(Ok::<i128, NoZero>(5), 0, 9), Ok(5));
    assert_eq!(
        judge(Ok::<i128, NoZero>(10), 0, 9),
        Err("Too big! Must be below or equal to 9".to_string())
    );
    let error = ParseIntError { kind: IntErrorKind::Empty };
    assert_eq!(error.kind(), &IntErrorKind::Empty);
}

#[test]
fn parsing_agrees_with_the_standard_library() {
    let texts = [
        "",
        "0",
        "7",
        "42",
        "+42",
        "-42",
        "-0",
        "+0",
        "007",
        "-007",
        "+",
        "-",
        "+-1",
        "--1",
        "1-",
        "1+1",
        " 1",
        "1 ",
        "1_000",
        "12a",
        "a12",
        "1.5",
        "\u{661}",
        "170141183460469231731687303715884105727",
        "170141183460469231731687303715884105728",
        "-170141183460469231731687303715884105728",
        "-170141183460469231731687303715884105729",
        "0000000000000000000000000000000000000000000000000000001",
        "999999999999999999999999999999999999999999",
        "-999999999999999999999999999999999999999999",
        "999999999999999999999999999999999999999999x",
        "99999999999999999999999999999999999999x9999",
        "1701411834604692317316873037158841057270",
        "+170141183460469231731687303715884105727",
    ];
    for text in texts {
        let ours = parse_integer(text).map_err(|error| error.kind);
        let theirs = text.parse::<i128>().map_err(|error| kind_of(&error));
        assert_eq!(ours, theirs, "{:?}", text);
    }
    for v in -1100i128..1100 {
        assert_eq!(parse_integer(&v.to_string()), Ok(v));
    }
}

#[test]
fn parsing_gives_each_kind_of_failure() {
    assert_eq!(parse_integer(""), Err(ParseIntError { kind: IntErrorKind::Empty }));
    assert_eq!(parse_integer("x"), Err(ParseIntError { kind: IntErrorKind::InvalidDigit }));
    assert_eq!(
        parse_integer("170141183460469231731687303715884105728"),
        Err(ParseIntError { kind: IntErrorKind::PosOverflow })
    );
    assert_eq!(
        parse_integer("-170141183460469231731687303715884105729"),
        Err(ParseIntError { kind: IntErrorKind::NegOverflow })
    );
    assert_eq!(parse_integer("-170141183460469231731687303715884105728"), Ok(i128::MIN));
    assert_eq!(parse_integer("170141183460469231731687303715884105727"), Ok(i128::MAX));
}

#[test]
fn decimal_text_agrees_with_the_standard_library() {
    let values = [
        0i128,
        1,
        -1,
        9,
        10,
        -10,
        99,
        100,
        120,
        -12345,
        i64::MAX as i128,
        i64::MIN as i128,
        i128::MAX,
        i128::MIN,
        i128::MIN + 1,
    ];
    for v in values {
        assert_eq!(decimal_of(v), v.to_string());
    }
    for n in [0u128, 5, 10, 1234567890, u64::MAX as u128, u128::MAX] {
        assert_eq!(decimal_of_unsigned(n), n.to_string());
    }
    assert_eq!(decimal_of(-305), "-305");
    assert_eq!(decimal_of_unsigned(4096), "4096");
}

#[test]
fn the_charset_has_the_minus_sign_only_for_negative_minimums() {
    let digits: Vec<char> = ('0'..='9').collect();
    assert_eq!(Integer::new("n").min(0).charset(), digits);
    assert_eq!(Integer::new("n").min(5).charset(), digits);
    let mut signed = digits.clone();
    signed.push('-');
    assert_eq!(Integer::new("n").min(-1).charset(), signed);
    assert_eq!(Integer::new("n").charset(), signed);
}

#[test]
fn a_new_integer_prompt_accepts_every_number() {
    let prompt = Integer::new("n");
    let (mut session, _) = prompt.begin();
    for c in "-170141183460469231731687303715884105728".chars() {
        prompt.step(&mut session, Key::Char(c));
    }
    let turn = prompt.step(&mut session, Key::Enter);
    assert_eq!(turn.answer, Some(i128::MIN));

    let (mut session, _) = prompt.begin();
    for c in "170141183460469231731687303715884105727".chars() {
        prompt.step(&mut session, Key::Char(c));
    }
    let turn = prompt.step(&mut session, Key::Enter);
    assert_eq!(turn.answer, Some(i128::MAX));
}

#[test]
fn the_integer_prompt_takes_digits_only() {
    let prompt = Integer::new("Age?").min(0).max(120);
    let (mut session, _) = prompt.begin();
    for c in "-4a5 ".chars() {
        prompt.step(&mut session, Key::Char(c));
    }
    assert_eq!(session.text(), "45");
    let prompt = Integer::new("Delta?").min(-10);
    let (mut session, _) = prompt.begin();
    for c in "-4a".chars() {
        prompt.step(&mut session, Key::Char(c));
    }
    let turn = prompt.step(&mut session, Key::Enter);
    assert_eq!(turn.answer, Some(-4));
}

#[test]
fn enter_on_an_empty_number_asks_for_a_value() {
    let prompt = Integer::new("Age?");
    let (mut session, _) = prompt.begin();
    let turn = prompt.step(&mut session, Key::Enter);
    assert!(turn.answer.is_none());
    assert_eq!(show(&turn.commands)[1], "X You must enter a value");
}

use quizzard::screen::{
    formatted_answered_question, formatted_error, formatted_question, plain, render, Span, Tone,
};

fn piece(text: &str, tone: Tone) -> Span {
    Span { text: text.to_string(), tone }
}

#[test]
fn the_question_line_names_each_key() {
    let line = formatted_question("Pick", &[("space", "select"), ("enter", "proceed")]);
    assert_eq!(
        line,
        vec![
            piece("?", Tone::Green),
            piece(" ", Tone::Plain),
            piece("Pick", Tone::Bold),
            piece(" (", Tone::Plain),
            piece("<space>", Tone::Red),
            piece(" to select", Tone::Plain),
            piece(", ", Tone::Plain),
            piece("<enter>", Tone::Red),
            piece(" to proceed", Tone::Plain),
            piece(")", Tone::Plain),
        ]
    );
    assert_eq!(plain(&line), "? Pick (<space> to select, <enter> to proceed)");
}

#[test]
fn the_question_line_without_keys_has_empty_parentheses() {
    let line = formatted_question("Pick", &[]);
    assert_eq!(plain(&line), "? Pick ()");
}

#[test]
fn the_settled_line_dims_the_answer() {
    let line = formatted_answered_question("Name?", "Ada");
    assert_eq!(
        line,
        vec![
            piece("?", Tone::Green),
            piece(" ", Tone::Plain),
            piece("Name?", Tone::Bold),
            piece(" ", Tone::Plain),
            piece("Ada", Tone::Dim),
        ]
    );
}

#[test]
fn the_error_line_is_red() {
    let line = formatted_error("Too Short");
    assert_eq!(
        line,
        vec![piece("X", Tone::Red), piece(" ", Tone::Plain), piece("Too Short", Tone::Red)]
    );
}

#[test]
fn rendering_wraps_each_tone_in_its_escape_sequences_while_colours_are_on() {
    console::set_colors_enabled(true);
    assert_eq!(render(&vec![piece("a", Tone::Red)]), "\u{1b}[31ma\u{1b}[0m");
    assert_eq!(render(&vec![piece("a", Tone::Green)]), "\u{1b}[32ma\u{1b}[0m");
    assert_eq!(render(&vec![piece("a", Tone::Bold)]), "\u{1b}[1ma\u{1b}[0m");
    assert_eq!(render(&vec![piece("a", Tone::Dim)]), "\u{1b}[2ma\u{1b}[0m");
    assert_eq!(render(&vec![piece("a", Tone::RedBold)]), "\u{1b}[31m\u{1b}[1ma\u{1b}[0m");
    assert_eq!(render(&vec![piece("a", Tone::Plain)]), "a");
    assert_eq!(
        render(&formatted_error("no")),
        "\u{1b}[31mX\u{1b}[0m \u{1b}[31mno\u{1b}[0m"
    );

    console::set_colors_enabled(false);
    let line = formatted_question("Pick", &[("enter", "select")]);
    assert_eq!(render(&line), "? Pick (<enter> to select)");
    assert_eq!(render(&line), plain(&line));
    assert_eq!(render(&vec![piece("a", Tone::RedBold)]), "a");
    assert_eq!(render(&Vec::new()), "");
}

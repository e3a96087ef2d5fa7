use userror::colour::{Colour, ColourMode};
use userror::printer::Printer;
use userror::severity::Severity;

const ALL: [Severity; 5] = [
    Severity::Info,
    Severity::Warning,
    Severity::Error,
    Severity::Fatal,
    Severity::Internal,
];

#[test]
fn error_line_for_named_program() {
    let p = Printer::new(ColourMode::Disabled);
    assert_eq!(
        p.line(Severity::Error, Some("mytool"), "disk full"),
        "mytool:error: disk full\n"
    );
}

#[test]
fn warning_line_without_program_name() {
    let p = Printer::new(ColourMode::Disabled);
    assert_eq!(p.line(Severity::Warning, None, "low memory"), "warning low memory\n");
}

#[test]
fn every_severity_line_ends_with_message() {
    for mode in [ColourMode::Enabled, ColourMode::Disabled] {
        let p = Printer::new(mode);
        for s in ALL {
            let l = p.line(s, Some("tool"), "something happened");
            assert!(l.ends_with(": something happened\n"));
            assert_eq!(l.matches('\n').count(), 1);
            assert_eq!(l.contains('\x1b'), mode == ColourMode::Enabled);
        }
    }
}

#[test]
fn unnamed_lines_use_a_space() {
    let p = Printer::new(ColourMode::Disabled);
    assert_eq!(p.line(Severity::Info, None, "x"), "info x\n");
    assert_eq!(p.line(Severity::Error, None, "x"), "error x\n");
    assert_eq!(p.line(Severity::Fatal, None, "x"), "fatal x\n");
    assert_eq!(p.line(Severity::Internal, None, "x"), "internal x\n");
}

#[test]
fn same_message_twice_gives_same_line() {
    let p = Printer::new(ColourMode::Enabled);
    let a = p.line(Severity::Internal, Some("prog"), "bad state");
    let b = p.line(Severity::Internal, Some("prog"), "bad state");
    assert_eq!(a, b);
}

#[test]
fn coloured_named_line() {
    let p = Printer::new(ColourMode::Enabled);
    assert_eq!(
        p.line(Severity::Warning, Some("mytool"), "low memory"),
        "\x1b[34mmytool\x1b[0m:\x1b[33mwarning\x1b[0m: low memory\n"
    );
    assert_eq!(
        p.line(Severity::Info, None, "hi"),
        "\x1b[35minfo\x1b[0m hi\n"
    );
}

#[test]
fn labels_and_colours() {
    let labels: Vec<&str> = ALL.iter().map(|s| s.label()).collect();
    assert_eq!(labels, vec!["info", "warning", "error", "fatal", "internal"]);
    let colours: Vec<Colour> = ALL.iter().map(|s| s.colour()).collect();
    assert_eq!(
        colours,
        vec![Colour::Purple, Colour::Yellow, Colour::Red, Colour::Red, Colour::Red]
    );
}

#[test]
fn paint_follows_mode() {
    assert_eq!(Colour::Red.paint(ColourMode::Enabled, "error"), "\x1b[31merror\x1b[0m");
    assert_eq!(Colour::Yellow.paint(ColourMode::Enabled, "w"), "\x1b[33mw\x1b[0m");
    assert_eq!(Colour::Blue.paint(ColourMode::Enabled, ""), "\x1b[34m\x1b[0m");
    assert_eq!(Colour::Purple.paint(ColourMode::Enabled, "i"), "\x1b[35mi\x1b[0m");
    assert_eq!(Colour::Red.paint(ColourMode::Disabled, "error"), "error");
}

#[test]
fn empty_message() {
    let p = Printer::new(ColourMode::Disabled);
    assert_eq!(p.line(Severity::Error, Some("t"), ""), "t:error: \n");
}

use pipeflow::{forward_line, marker, on_signal, render, run, Event, UserSignal};

fn line(s: &str) -> Event {
    Event::Line(String::from(s))
}

fn output(discard_mode_start: bool, events: Vec<Event>) -> String {
    render(&run(discard_mode_start, &events))
}

#[test]
fn many_lines_pass_through_in_order() {
    let events = vec![line("a"), line(""), line("b c"), line("a")];
    assert_eq!(output(false, events), "a\n\nb c\na\n");
}

#[test]
fn no_input_gives_no_output() {
    assert_eq!(output(false, vec![]), "");
    assert_eq!(output(true, vec![]), "");
}

#[test]
fn discard_mode_without_signal_drops_everything() {
    let events = vec![line("one"), line("two"), line("three")];
    assert_eq!(output(true, events), "");
}

#[test]
fn first_signal_in_discard_mode_is_swallowed() {
    let events = vec![line("x"), Event::Signal(UserSignal::Usr1), line("y")];
    assert_eq!(output(true, events), "y\n");
    let events = vec![Event::Signal(UserSignal::Usr2), Event::Signal(UserSignal::Usr2)];
    assert_eq!(output(true, events), "===USR2===\n");
}

#[test]
fn marker_sits_where_the_signal_came() {
    let events = vec![
        line("a"),
        Event::Signal(UserSignal::Usr1),
        line("b"),
        Event::Signal(UserSignal::Usr1),
        Event::Signal(UserSignal::Usr2),
        line("c"),
    ];
    let msgs = run(false, &events);
    assert_eq!(msgs, vec!["a", "===USR1===", "b", "===USR1===", "===USR2===", "c"]);
}

#[test]
fn a_line_that_looks_like_a_marker_is_passed_as_is() {
    let events = vec![line("===USR1==="), Event::Signal(UserSignal::Usr1)];
    assert_eq!(output(false, events), "===USR1===\n===USR1===\n");
}

#[test]
fn markers_are_fixed_and_distinct() {
    assert_eq!(marker(UserSignal::Usr1), "===USR1===");
    assert_eq!(marker(UserSignal::Usr2), "===USR2===");
    assert_ne!(marker(UserSignal::Usr1), marker(UserSignal::Usr2));
}

#[test]
fn reader_forwards_only_when_enabled() {
    assert_eq!(forward_line(true, String::from("l")), Some(String::from("l")));
    assert_eq!(forward_line(false, String::from("l")), None);
}

#[test]
fn watcher_opens_a_closed_gate_silently() {
    let action = on_signal(false, UserSignal::Usr1);
    assert!(action.enabled);
    assert_eq!(action.message, None);
}

#[test]
fn watcher_sends_the_marker_when_open() {
    let action = on_signal(true, UserSignal::Usr2);
    assert!(action.enabled);
    assert_eq!(action.message, Some(String::from("===USR2===")));
}

#[test]
fn writeln_appends_text_and_line_feed() {
    let mut out = String::from("head\n");
    pipeflow::output::writeln(&mut out, String::from("body"));
    assert_eq!(out, "head\nbody\n");
    pipeflow::output::writeln(&mut out, String::new());
    assert_eq!(out, "head\nbody\n\n");
}

#[test]
fn render_terminates_every_message() {
    let msgs = vec![String::from("x"), String::from("y")];
    assert_eq!(render(&msgs), "x\ny\n");
    assert_eq!(render(&vec![]), "");
}

use vstd::prelude::*;
use crate::flow::{
    enabled_after_signal, forward_line, line_message, on_signal, signal_message, UserSignal,
};
use crate::output::views;

verus! {

/// One thing that happens to the filter: an input line is read, or a signal is
/// delivered.
pub enum Event {
    /// A line of input, without its line feed.
    Line(String),
    /// A delivered signal.
    Signal(UserSignal),
}

/// The enabled flag after one event.
pub open spec fn step_enabled(enabled: bool, e: Event) -> bool {
    match e {
        Event::Line(_) => enabled,
        Event::Signal(_) => enabled_after_signal(enabled),
    }
}

/// The message that one event sends into the output channel, if any.
pub open spec fn step_message(enabled: bool, e: Event) -> Option<Seq<char>> {
    match e {
        Event::Line(l) => line_message(enabled, l@),
        Event::Signal(sig) => signal_message(enabled, sig),
    }
}

/// The enabled flag after a sequence of events, starting from `start`.
pub open spec fn enabled_after(start: bool, events: Seq<Event>) -> bool
    decreases events.len(),
{
    if events.len() == 0 {
        start
    } else {
        step_enabled(enabled_after(start, events.drop_last()), events.last())
    }
}

/// The messages that a sequence of events sends, in order, starting from an
/// enabled flag equal to `start`.
pub open spec fn messages(start: bool, events: Seq<Event>) -> Seq<Seq<char>>
    decreases events.len(),
{
    if events.len() == 0 {
        Seq::empty()
    } else {
        let prev = messages(start, events.drop_last());
        match step_message(enabled_after(start, events.drop_last()), events.last()) {
            Some(m) => prev.push(m),
            None => prev,
        }
    }
}

/// Feeds a sequence of events, one after another, through the reader's and
/// the watcher's decisions, and returns the messages they send, in order. The
/// enabled flag starts clear in discard mode and set otherwise.
pub fn run(discard_mode_start: bool, events: &Vec<Event>) -> (r: Vec<String>)
    ensures
        views(r@) == messages(!discard_mode_start, events@),
{
    let ghost start = !discard_mode_start;
    let mut enabled = !discard_mode_start;
    let mut out: Vec<String> = Vec::new();
    let mut i: usize = 0;
    while i < events.len()
        invariant
            i <= events.len(),
            enabled == enabled_after(start, events@.take(i as int)),
            views(out@) == messages(start, events@.take(i as int)),
        decreases events.len() - i,
    {
        let ghost before = events@.take(i as int);
        let ghost out_before = out@;
        proof {
            assert(events@.take(i + 1).drop_last() =~= before);
            assert(events@.take(i + 1).last() == events@[i as int]);
        }
        match &events[i] {
            Event::Line(l) => {
                if let Some(m) = forward_line(enabled, l.clone()) {
                    out.push(m);
                }
            },
            Event::Signal(sig) => {
                let action = on_signal(enabled, *sig);
                enabled = action.enabled;
                if let Some(m) = action.message {
                    out.push(m);
                }
            },
        }
        proof {
            assert(views(out_before.push(out@.last())) =~= views(out_before).push(out@.last()@));
        }
        i = i + 1;
    }
    proof {
        assert(events@.take(i as int) =~= events@);
    }
    out
}

} // verus!

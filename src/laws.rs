//! Properties of the filter as a whole, stated over the model of
//! `crate::pipeline` and `crate::output`.

use vstd::prelude::*;
use crate::flow::{marker_text, UserSignal};
use crate::output::{line_text, rendered, views};
use crate::pipeline::{enabled_after, messages, Event};

verus! {

/// The text that an event stands for once the flag is set: a line stands for
/// itself, a signal for its marker.
pub open spec fn event_text(e: Event) -> Seq<char> {
    match e {
        Event::Line(l) => l@,
        Event::Signal(sig) => marker_text(sig),
    }
}

/// The events that reading the given lines makes, in order.
pub open spec fn line_events(lines: Seq<String>) -> Seq<Event> {
    lines.map_values(|l: String| Event::Line(l))
}

/// A set flag stays set, whatever happens after.
pub proof fn lemma_enabled_stays_set(events: Seq<Event>)
    ensures
        enabled_after(true, events),
    decreases events.len(),
{
    if events.len() > 0 {
        lemma_enabled_stays_set(events.drop_last());
    }
}

/// Feeding two runs of events one after the other sends the messages of the
/// first, then those of the second from the state the first left: the order
/// within each is kept, and nothing is duplicated or dropped.
pub proof fn lemma_messages_append(start: bool, a: Seq<Event>, b: Seq<Event>)
    ensures
        messages(start, a + b) == messages(start, a) + messages(enabled_after(start, a), b),
        enabled_after(start, a + b) == enabled_after(enabled_after(start, a), b),
    decreases b.len(),
{
    if b.len() == 0 {
        assert(a + b =~= a);
        assert(messages(start, a) + Seq::<Seq<char>>::empty() =~= messages(start, a));
    } else {
        lemma_messages_append(start, a, b.drop_last());
        assert((a + b).drop_last() =~= a + b.drop_last());
        assert((a + b).last() == b.last());
        let mid = enabled_after(start, a);
        let prev_a = messages(start, a);
        let prev_b = messages(mid, b.drop_last());
        assert(forall|m: Seq<char>| (prev_a + prev_b).push(m) =~= prev_a + prev_b.push(m));
    }
}

/// With the flag set, every event sends exactly one message, its own text, in
/// the order of the events.
pub proof fn lemma_enabled_one_for_one(events: Seq<Event>)
    ensures
        messages(true, events) == events.map_values(|e: Event| event_text(e)),
    decreases events.len(),
{
    if events.len() > 0 {
        lemma_enabled_one_for_one(events.drop_last());
        lemma_enabled_stays_set(events.drop_last());
        assert(events.map_values(|e: Event| event_text(e)) =~= events.drop_last().map_values(
            |e: Event| event_text(e),
        ).push(event_text(events.last())));
    }
}

/// With the flag set from the start and no signal, the output holds the input
/// lines, one for one and in order, each newline-terminated.
pub proof fn lemma_passthrough(lines: Seq<String>)
    ensures
        messages(true, line_events(lines)) == views(lines),
        rendered(messages(true, line_events(lines))) == rendered(views(lines)),
{
    lemma_enabled_one_for_one(line_events(lines));
    assert(line_events(lines).map_values(|e: Event| event_text(e)) =~= views(lines));
}

/// The two markers differ, so each marker line tells which signal came.
pub proof fn lemma_markers_distinct()
    ensures
        marker_text(UserSignal::Usr1) != marker_text(UserSignal::Usr2),
{
    reveal_strlit("===USR1===");
    reveal_strlit("===USR2===");
    assert(marker_text(UserSignal::Usr1)[6] != marker_text(UserSignal::Usr2)[6]);
}

/// A signal delivered while the flag is set sends exactly its marker, between
/// the messages of what came before it and of what comes after it.
pub proof fn lemma_signal_marker(start: bool, pre: Seq<Event>, sig: UserSignal, post: Seq<Event>)
    requires
        enabled_after(start, pre),
    ensures
        messages(start, pre.push(Event::Signal(sig)) + post) == messages(start, pre).push(
            marker_text(sig),
        ) + messages(true, post),
{
    lemma_messages_append(start, pre.push(Event::Signal(sig)), post);
    assert(pre.push(Event::Signal(sig)).drop_last() =~= pre);
}

/// In discard mode, lines read before the first signal send nothing; that
/// signal sends no marker and only sets the flag; from then on the filter
/// behaves as one that started enabled.
pub proof fn lemma_discard_gating(lines: Seq<String>, sig: UserSignal, post: Seq<Event>)
    ensures
        messages(false, line_events(lines)) == Seq::<Seq<char>>::empty(),
        !enabled_after(false, line_events(lines)),
        messages(false, line_events(lines).push(Event::Signal(sig)) + post) == messages(
            true,
            post,
        ),
    decreases lines.len(),
{
    let pre = line_events(lines);
    if lines.len() > 0 {
        lemma_discard_gating(lines.drop_last(), sig, post);
        assert(pre.drop_last() =~= line_events(lines.drop_last()));
    }
    lemma_messages_append(false, pre.push(Event::Signal(sig)), post);
    assert(pre.push(Event::Signal(sig)).drop_last() =~= pre);
    assert(messages(false, pre.push(Event::Signal(sig))) == messages(false, pre));
    assert(Seq::<Seq<char>>::empty() + messages(true, post) =~= messages(true, post));
}

/// Writing two runs of messages one after the other gives the text of the
/// first followed by that of the second: every message sent is written.
pub proof fn lemma_rendered_append(a: Seq<Seq<char>>, b: Seq<Seq<char>>)
    ensures
        rendered(a + b) == rendered(a) + rendered(b),
    decreases b.len(),
{
    if b.len() == 0 {
        assert(a + b =~= a);
        assert(rendered(a) + Seq::<char>::empty() =~= rendered(a));
    } else {
        lemma_rendered_append(a, b.drop_last());
        assert((a + b).drop_last() =~= a + b.drop_last());
        assert(rendered(a) + rendered(b.drop_last()) + line_text(b.last()) =~= rendered(a) + (
        rendered(b.drop_last()) + line_text(b.last())));
    }
}

} // verus!

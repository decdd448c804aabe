use vstd::prelude::*;
use vstd::string::StringExecFns;

verus! {

/// The two signals that the filter subscribes to.
#[derive(Clone, Copy, Debug, PartialEq, Eq, Structural)]
pub enum UserSignal {
    /// The first user-defined signal (`SIGUSR1` on POSIX systems).
    Usr1,
    /// The second user-defined signal (`SIGUSR2` on POSIX systems).
    Usr2,
}

/// The marker line that a signal stands for in the output.
pub open spec fn marker_text(sig: UserSignal) -> Seq<char> {
    match sig {
        UserSignal::Usr1 => "===USR1==="@,
        UserSignal::Usr2 => "===USR2==="@,
    }
}

/// The marker line for `sig`.
pub fn marker(sig: UserSignal) -> (r: String)
    ensures
        r@ == marker_text(sig),
{
    match sig {
        UserSignal::Usr1 => String::from_str("===USR1==="),
        UserSignal::Usr2 => String::from_str("===USR2==="),
    }
}

/// What the watcher does with one delivered signal: whether the enabled flag
/// is set afterwards, and the marker it sends, if any.
pub struct SignalAction {
    /// The enabled flag after the signal.
    pub enabled: bool,
    /// The marker line to send into the output channel.
    pub message: Option<String>,
}

/// The enabled flag after a signal: any signal sets it, and a set flag
/// stays set.
pub open spec fn enabled_after_signal(enabled: bool) -> bool {
    true
}

/// The message a signal sends: its marker when the flag was already set,
/// nothing when the signal only set the flag.
pub open spec fn signal_message(enabled: bool, sig: UserSignal) -> Option<Seq<char>> {
    if enabled {
        Some(marker_text(sig))
    } else {
        None
    }
}

/// The message an input line sends: the line itself when the flag is set,
/// nothing when it is clear.
pub open spec fn line_message(enabled: bool, line: Seq<char>) -> Option<Seq<char>> {
    if enabled {
        Some(line)
    } else {
        None
    }
}

/// The view of an optional message.
pub open spec fn opt_view(m: Option<String>) -> Option<Seq<char>> {
    match m {
        Some(s) => Some(s@),
        None => None,
    }
}

/// Decides what the reader does with one input line: the line goes into the
/// channel when the flag is set and is dropped when it is clear.
pub fn forward_line(enabled: bool, line: String) -> (r: Option<String>)
    ensures
        opt_view(r) == line_message(enabled, line@),
        enabled ==> r == Some(line),
        !enabled ==> r is None,
{
    if enabled {
        Some(line)
    } else {
        None
    }
}

/// Decides what the watcher does with one delivered signal. A clear flag is
/// set and the signal is consumed without a marker; a set flag stays set
/// and the signal's marker is sent.
pub fn on_signal(enabled: bool, sig: UserSignal) -> (r: SignalAction)
    ensures
        r.enabled == enabled_after_signal(enabled),
        opt_view(r.message) == signal_message(enabled, sig),
{
    if !enabled {
        SignalAction { enabled: true, message: None }
    } else {
        SignalAction { enabled: true, message: Some(marker(sig)) }
    }
}

} // verus!

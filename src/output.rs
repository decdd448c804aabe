use vstd::prelude::*;
use vstd::string::StringExecFns;

verus! {

/// The text of one message as written out: the message followed by a line
/// feed.
pub open spec fn line_text(msg: Seq<char>) -> Seq<char> {
    msg.push('\n')
}

/// The text of a sequence of messages as written out, each newline-terminated,
/// in order.
pub open spec fn rendered(msgs: Seq<Seq<char>>) -> Seq<char>
    decreases msgs.len(),
{
    if msgs.len() == 0 {
        Seq::empty()
    } else {
        rendered(msgs.drop_last()) + line_text(msgs.last())
    }
}

/// The views of a sequence of strings.
pub open spec fn views(v: Seq<String>) -> Seq<Seq<char>> {
    v.map_values(|s: String| s@)
}

/// Writes one message to `writer`: its text, then a line feed. Nothing else is
/// added and nothing is changed.
pub fn writeln(writer: &mut String, msg: String)
    ensures
        final(writer)@ == old(writer)@ + line_text(msg@),
{
    writer.append(msg.as_str());
    writer.append("\n");
    proof {
        reveal_strlit("\n");
        assert(old(writer)@ + msg@ + "\n"@ =~= old(writer)@ + line_text(msg@));
    }
}

/// Drains a sequence of messages into one output text, each message
/// newline-terminated, in order.
pub fn render(msgs: &Vec<String>) -> (r: String)
    ensures
        r@ == rendered(views(msgs@)),
{
    let mut out = String::new();
    let mut i: usize = 0;
    while i < msgs.len()
        invariant
            i <= msgs.len(),
            out@ == rendered(views(msgs@.take(i as int))),
        decreases msgs.len() - i,
    {
        writeln(&mut out, msgs[i].clone());
        proof {
            assert(views(msgs@.take(i + 1)).drop_last() =~= views(msgs@.take(i as int)));
        }
        i = i + 1;
    }
    proof {
        assert(msgs@.take(i as int) =~= msgs@);
    }
    out
}

} // verus!

//! The relay between a miner's connection and the translator.
use vstd::prelude::*;

use crate::shared::error::Sv1IngressError;

verus! {

/// Whether a character ends a line.
pub open spec fn is_line_break(c: char) -> bool {
    c == '\n' || c == '\r'
}

/// A text without its line breaks.
pub open spec fn without_line_breaks(s: Seq<char>) -> Seq<char> {
    s.filter(|c: char| !is_line_break(c))
}

/// Removes the line breaks of a message, so that it makes a single line.
pub fn strip_line_breaks(message: &str) -> (r: String)
    ensures
        r@ == without_line_breaks(message@),
{
    let ghost keep = |c: char| !is_line_break(c);
    let mut line = String::new();
    for c in it: message.chars()
        invariant
            it.seq() == message@,
            keep == (|c: char| !is_line_break(c)),
            line@ == it.seq().take(it.index()).filter(keep),
    {
        proof {
            reveal_with_fuel(Seq::filter, 2);
            assert(it.seq().take(it.index() + 1).drop_last() =~= it.seq().take(it.index()));
        }
        if c != '\n' && c != '\r' {
            line.push(c);
        }
    }
    proof {
        assert(message@.take(message@.len() as int) =~= message@);
    }
    line
}

/// What happened on the way from a miner to the translator.
#[derive(Debug)]
pub enum UpEvent {
    /// The next line of the miner; nothing at the end of the connection.
    Line(Option<Result<String, ()>>),
    /// A line was handed to the translator, or the translator is gone.
    Sent { ok: bool },
    /// The task that relays panicked.
    TaskFailed,
}

/// What happened on the way from the translator to a miner.
#[derive(Debug)]
pub enum DownEvent {
    /// The next message of the translator; nothing when the translator is gone.
    Message(Option<String>),
    /// A line was written to the miner, or the miner is gone.
    Sent { ok: bool },
    /// The task that relays panicked.
    TaskFailed,
}

/// What to do next in a relay.
#[derive(Debug)]
pub enum RelayAction {
    /// Take the next message in.
    Receive,
    /// Pass this on.
    Send(String),
    /// End the relay.
    Stop(Sv1IngressError),
}

/// The connection of a miner.
pub struct Downstream {}

impl Downstream {
    /// The next step on the way from a miner to the translator: every line is passed
    /// on as it is until one of the two is gone.
    pub fn receive_from_downstream_and_relay_up(event: UpEvent) -> (r: RelayAction)
        ensures
            r == (match event {
                UpEvent::Line(Some(Ok(message))) => RelayAction::Send(message),
                UpEvent::Line(_) => RelayAction::Stop(Sv1IngressError::DownstreamDropped),
                UpEvent::Sent { ok } => if ok {
                    RelayAction::Receive
                } else {
                    RelayAction::Stop(Sv1IngressError::TranslatorDropped)
                },
                UpEvent::TaskFailed => RelayAction::Stop(Sv1IngressError::TaskFailed),
            }),
    {
        match event {
            UpEvent::Line(Some(Ok(message))) => RelayAction::Send(message),
            UpEvent::Line(_) => RelayAction::Stop(Sv1IngressError::DownstreamDropped),
            UpEvent::Sent { ok } => {
                if ok {
                    RelayAction::Receive
                } else {
                    RelayAction::Stop(Sv1IngressError::TranslatorDropped)
                }
            },
            UpEvent::TaskFailed => RelayAction::Stop(Sv1IngressError::TaskFailed),
        }
    }

    /// The next step on the way from the translator to a miner: every message is
    /// passed on as a single line until one of the two is gone.
    pub fn receive_from_upstream_and_relay_down(event: DownEvent) -> (r: RelayAction)
        ensures
            match event {
                DownEvent::Message(Some(message)) => r matches RelayAction::Send(line) && line@
                    == without_line_breaks(message@),
                DownEvent::Message(None) => r == RelayAction::Stop(Sv1IngressError::TranslatorDropped),
                DownEvent::Sent { ok } => if ok {
                    r is Receive
                } else {
                    r == RelayAction::Stop(Sv1IngressError::DownstreamDropped)
                },
                DownEvent::TaskFailed => r == RelayAction::Stop(Sv1IngressError::TaskFailed),
            },
    {
        match event {
            DownEvent::Message(Some(message)) => RelayAction::Send(
                strip_line_breaks(message.as_str()),
            ),
            DownEvent::Message(None) => RelayAction::Stop(Sv1IngressError::TranslatorDropped),
            DownEvent::Sent { ok } => {
                if ok {
                    RelayAction::Receive
                } else {
                    RelayAction::Stop(Sv1IngressError::DownstreamDropped)
                }
            },
            DownEvent::TaskFailed => RelayAction::Stop(Sv1IngressError::TaskFailed),
        }
    }
}

/// What is sent to a miner has no line break, and every other character of the
/// message, in order: a message that is one line already stays as it is, but for
/// the break at its end.
pub proof fn a_relayed_message_is_one_line(s: Seq<char>)
    ensures
        forall|i: int|
            0 <= i < without_line_breaks(s).len() ==> !is_line_break(
                #[trigger] without_line_breaks(s)[i],
            ),
        (forall|i: int| 0 <= i < s.len() ==> !is_line_break(#[trigger] s[i])) ==> {
            &&& without_line_breaks(s) == s
            &&& without_line_breaks(s.push('\n')) == s
        },
    decreases s.len(),
{
    let keep = |c: char| !is_line_break(c);
    broadcast use vstd::seq_lib::group_filter_ensures;

    assert forall|i: int| 0 <= i < without_line_breaks(s).len() implies !is_line_break(
        #[trigger] without_line_breaks(s)[i],
    ) by {
        assert(keep(s.filter(keep)[i]));
    }
    reveal(Seq::filter);
    if forall|i: int| 0 <= i < s.len() ==> !is_line_break(#[trigger] s[i]) {
        if s.len() > 0 {
            a_relayed_message_is_one_line(s.drop_last());
            assert(!is_line_break(s[s.len() - 1]));
            assert(s.drop_last().push(s.last()) =~= s);
        }
        assert(without_line_breaks(s) =~= s);
        assert(s.push('\n').drop_last() =~= s);
    }
}

/// Line breaks are removed wherever they stand and nothing else is: a message in two
/// parts loses the line breaks of each, and of single characters only line feed and
/// carriage return go.
pub proof fn only_line_breaks_are_removed(a: Seq<char>, b: Seq<char>, c: char)
    ensures
        without_line_breaks(a + b) == without_line_breaks(a) + without_line_breaks(b),
        without_line_breaks(seq![c]) == (if c == '\n' || c == '\r' {
            Seq::<char>::empty()
        } else {
            seq![c]
        }),
        without_line_breaks(Seq::<char>::empty()) == Seq::<char>::empty(),
{
    let keep = |c: char| !is_line_break(c);
    Seq::filter_distributes_over_add(a, b, keep);
    reveal_with_fuel(Seq::filter, 2);
    assert(seq![c].drop_last() =~= Seq::empty());
    assert(without_line_breaks(seq![c]) =~= (if c == '\n' || c == '\r' {
        Seq::<char>::empty()
    } else {
        seq![c]
    }));
}

} // verus!

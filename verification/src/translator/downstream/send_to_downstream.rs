//! Writing messages to a miner.
use vstd::prelude::*;

verus! {

/// What happened while messages are written to a miner.
#[derive(Debug)]
pub enum SendEvent {
    /// The text of the next message, where it could be serialized; nothing when
    /// there will be no more.
    Message(Option<Result<String, ()>>),
    /// A line was handed over, or the miner is gone.
    Sent { ok: bool },
}

/// What to do next to write messages to a miner.
#[derive(Debug)]
pub enum SendAction {
    /// Wait for a message.
    AwaitMessage,
    /// Hand this line over.
    Send(String),
    /// Stop.
    Stop,
}

/// The next step of writing messages to a miner: each becomes a line of its own,
/// until one cannot be serialized or the miner is gone.
pub fn start_send_to_downstream(event: SendEvent) -> (r: SendAction)
    ensures
        match event {
            SendEvent::Message(Some(Ok(text))) => r matches SendAction::Send(line) && line@
                == text@.push('\n'),
            SendEvent::Message(_) => r is Stop,
            SendEvent::Sent { ok } => if ok {
                r is AwaitMessage
            } else {
                r is Stop
            },
        },
{
    match event {
        SendEvent::Message(Some(Ok(text))) => {
            let mut line = text;
            line.push('\n');
            SendAction::Send(line)
        },
        SendEvent::Message(_) => SendAction::Stop,
        SendEvent::Sent { ok } => {
            if ok {
                SendAction::AwaitMessage
            } else {
                SendAction::Stop
            }
        },
    }
}

/// A message that the translator writes as a line and the relay passes on reaches
/// the miner as it was serialized, where it has no line break of its own.
pub proof fn serialized_message_reaches_the_miner(text: Seq<char>)
    requires
        forall|i: int|
            0 <= i < text.len() ==> !crate::ingress::sv1_ingress::is_line_break(#[trigger] text[i]),
    ensures
        crate::ingress::sv1_ingress::without_line_breaks(text.push('\n')) == text,
{
    crate::ingress::sv1_ingress::a_relayed_message_is_one_line(text);
}

} // verus!

//! The log sink's message type and dispatch.
//!
//! The sink consumes an ordered stream of messages: each text message is
//! displayed with a fixed prefix, and a shutdown message stops the sink.
//! The decision of what to display and when to stop is made here; the
//! surrounding process owns the queue and performs the printing.

use vstd::prelude::*;

verus! {

/// A message for the log sink: text to display, or the request to stop.
pub enum LogMessage {
    Message(Vec<u8>),
    Shutdown,
}

/// The fixed prefix put before every displayed line: the client identity
/// followed by a colon and a space.
pub open spec fn log_prefix() -> Seq<u8> {
    seq![112u8, 114u8, 111u8, 99u8, 121u8, 111u8, 110u8, 58u8, 32u8]
}

/// The log sink's state: whether it has seen its shutdown message.
pub struct Log {
    pub stopped: bool,
}

impl Log {
    /// A fresh sink, still accepting messages.
    pub fn new() -> (r: Log)
        ensures
            !r.stopped,
    {
        Log { stopped: false }
    }

    /// Dispatch one queued message: a text message yields the prefixed line
    /// to display; the shutdown message stops the sink; a stopped sink
    /// accepts nothing further.
    pub fn handle(&mut self, msg: LogMessage) -> (out: Option<Vec<u8>>)
        ensures
            old(self).stopped ==> final(self).stopped && out is None,
            (!old(self).stopped && msg is Message) ==> (!final(self).stopped && (msg matches LogMessage::Message(s)
                && out matches Some(l) && l@ == log_prefix() + s@)),
            (!old(self).stopped && msg is Shutdown) ==> final(self).stopped && out is None,
    {
        if self.stopped {
            return None;
        }
        match msg {
            LogMessage::Message(s) => {
                let mut p: Vec<u8> = Vec::new();
                p.push(112u8);
                p.push(114u8);
                p.push(111u8);
                p.push(99u8);
                p.push(121u8);
                p.push(111u8);
                p.push(110u8);
                p.push(58u8);
                p.push(32u8);
                proof {
                    assert(p@ =~= log_prefix());
                }
                Some(crate::bytes::concat_bytes(&p, &s))
            },
            LogMessage::Shutdown => {
                self.stopped = true;
                None
            },
        }
    }
}

/// Wrap text as the message that asks the sink to display it.
pub fn log(text: &Vec<u8>) -> (m: LogMessage)
    ensures
        m matches LogMessage::Message(s) && s@ == text@,
{
    LogMessage::Message(crate::bytes::copy_bytes(text))
}

/// The message that asks the sink to stop.
pub fn stop() -> (m: LogMessage)
    ensures
        m is Shutdown,
{
    LogMessage::Shutdown
}

} // verus!

//! What a node does with an inbound message, and the host's listener.

use crate::command::ChatCommand;
use crate::text::{decode_lossy, lossy_text};
use vstd::prelude::*;
use vstd::utf8::*;

verus! {

/// An inbound message as the host sees it.
#[derive(Debug, Clone, PartialEq, Eq)]
pub struct Event {
    pub topic: String,
    pub message: String,
}

/// A host-supplied callback that receives inbound messages.
pub trait EventListener {
    /// Whether this listener, handed an event with this topic and message,
    /// may answer with this response. A listener that says nothing of its
    /// responses allows any.
    open spec fn responds(&self, topic: Seq<char>, message: Seq<char>, response: Seq<char>) -> bool {
        true
    }

    fn on_event(&self, event: Event) -> (r: String)
        ensures
            self.responds(event.topic@, event.message@, r@),
    ;
}

/// The policy a node applies to each inbound message; it may answer with a
/// command, which the node then carries out itself.
pub trait MessageHandler: Sized {
    /// Whether this handler, in state `self`, may handle a message from
    /// `peer` on `topic` with payload `data` by moving to state `after` and
    /// answering `answer`. A handler that says nothing of itself allows any
    /// such step.
    open spec fn handled(
        &self,
        after: Self,
        peer: libp2p::PeerId,
        topic: Seq<char>,
        data: Seq<u8>,
        answer: Option<ChatCommand>,
    ) -> bool {
        true
    }

    fn handle_message(&mut self, peer: libp2p::PeerId, topic: &str, data: &[u8]) -> (r: Option<
        ChatCommand,
    >)
        ensures
            old(self).handled(*final(self), peer, topic@, data@, r),
    ;
}

/// A handler that reacts to nothing.
#[derive(Debug, Clone, Default)]
pub struct SimpleClientHandler;

impl MessageHandler for SimpleClientHandler {
    /// It answers no command and keeps no state.
    open spec fn handled(
        &self,
        after: Self,
        peer: libp2p::PeerId,
        topic: Seq<char>,
        data: Seq<u8>,
        answer: Option<ChatCommand>,
    ) -> bool {
        answer is None && after == *self
    }

    fn handle_message(&mut self, peer: libp2p::PeerId, topic: &str, data: &[u8]) -> (r: Option<
        ChatCommand,
    >)
        ensures
            r is None,
    {
        None
    }
}

/// A handler that hands every inbound message to a listener, and answers
/// with no command, whatever the listener responds.
pub struct MyEventHandler<L> {
    pub listener: L,
}

impl<L: EventListener> MyEventHandler<L> {
    pub fn new(listener: L) -> (r: Self)
        ensures
            r.listener == listener,
    {
        MyEventHandler { listener }
    }

    /// The event delivered for a message: its own topic, and its payload read
    /// as text.
    pub fn event_for(topic: &str, data: &[u8]) -> (e: Event)
        ensures
            e.topic@ == topic@,
            e.message@ == lossy_text(data@),
            valid_utf8(data@) ==> e.message@ == decode_utf8(data@),
    {
        Event { topic: topic.to_owned(), message: decode_lossy(data) }
    }
}

impl<L: EventListener> MessageHandler for MyEventHandler<L> {
    /// The listener was handed the message's topic and its payload as text,
    /// and gave some response; the handler answers no command and its state
    /// is unchanged.
    open spec fn handled(
        &self,
        after: Self,
        peer: libp2p::PeerId,
        topic: Seq<char>,
        data: Seq<u8>,
        answer: Option<ChatCommand>,
    ) -> bool {
        &&& answer is None
        &&& after == *self
        &&& exists|response: Seq<char>| #[trigger]
            self.listener.responds(topic, lossy_text(data), response)
    }

    fn handle_message(&mut self, peer: libp2p::PeerId, topic: &str, data: &[u8]) -> (r: Option<
        ChatCommand,
    >)
        ensures
            r is None,
    {
        let event = Self::event_for(topic, data);
        let response = self.listener.on_event(event);
        proof {
            assert(self.listener.responds(topic@, lossy_text(data@), response@));
        }
        None
    }
}

} // verus!

//! The host-facing context: starts the node once, registers one listener for
//! good, and turns host messages into commands.

use crate::command::ChatCommand;
use crate::handlers::{Event, EventListener};
use vstd::prelude::*;
use vstd::string::*;
use vstd::utf8::*;

verus! {

/// The host's view of one node: whether it has been started, and the
/// listener registered, if any.
#[derive(Clone)]
pub struct Bridge<L> {
    listener: Option<L>,
    started: bool,
}

/// The listener left registered after offering `offered` to a registration
/// that held `current`: the first one stays.
pub open spec fn registered_after<L>(current: Option<L>, offered: L) -> Option<L> {
    match current {
        Some(first) => Some(first),
        None => Some(offered),
    }
}

impl<L: EventListener> Bridge<L> {
    pub closed spec fn listener_spec(&self) -> Option<L> {
        self.listener
    }

    pub closed spec fn started_spec(&self) -> bool {
        self.started
    }

    /// A bridge with no node started and no listener.
    pub fn new() -> (r: Self)
        ensures
            r.listener_spec() is None,
            !r.started_spec(),
    {
        Bridge { listener: None, started: false }
    }

    /// Marks the node started; true when this call is the one that must
    /// launch it, false when it was already started.
    pub fn start(&mut self) -> (launch: bool)
        ensures
            launch == !old(self).started_spec(),
            final(self).started_spec(),
            final(self).listener_spec() == old(self).listener_spec(),
    {
        let launch = !self.started;
        self.started = true;
        launch
    }

    pub fn is_started(&self) -> (r: bool)
        ensures
            r == self.started_spec(),
    {
        self.started
    }

    pub fn has_listener(&self) -> (r: bool)
        ensures
            r == self.listener_spec() is Some,
    {
        self.listener.is_some()
    }

    /// Registers `listener` unless one is registered already, in which case
    /// the call is ignored.
    pub fn set_listener(&mut self, listener: L)
        ensures
            final(self).listener_spec() == registered_after(old(self).listener_spec(), listener),
            final(self).started_spec() == old(self).started_spec(),
    {
        if self.listener.is_none() {
            self.listener = Some(listener);
        }
    }

    /// The command that publishes `message` on `topic`: its UTF-8 bytes, on
    /// the same topic. Before the node is started the message is dropped.
    pub fn send_message(&self, topic: String, message: String) -> (r: Option<ChatCommand>)
        ensures
            match r {
                Some(ChatCommand::Publish(t, p)) => self.started_spec() && t == topic && p@
                    == encode_utf8(message@),
                Some(ChatCommand::Subscribe(_)) => false,
                None => !self.started_spec(),
            },
    {
        if self.started {
            let payload = message.as_str().as_bytes_vec();
            Some(ChatCommand::Publish(topic, payload))
        } else {
            None
        }
    }

    /// Hands `event` to the registered listener, the first one offered, and
    /// returns its response; with no listener the event is dropped.
    pub fn deliver(&self, event: Event) -> (r: Option<String>)
        ensures
            match self.listener_spec() {
                Some(l) => r is Some && l.responds(event.topic@, event.message@, r->Some_0@),
                None => r is None,
            },
    {
        match &self.listener {
            Some(listener) => Some(listener.on_event(event)),
            None => None,
        }
    }
}

/// Whatever listener a bridge held, offering a second listener after a first
/// leaves the registration as the first offer left it.
pub proof fn lemma_first_listener_wins<L>(current: Option<L>, a: L, b: L)
    ensures
        registered_after(registered_after(current, a), b) == registered_after(current, a),
        current is None ==> registered_after(registered_after(current, a), b) == Some(a),
{
}

/// Text the host publishes reaches a listener unchanged: the payload of the
/// command `send_message` builds is valid UTF-8, and the event delivered for
/// it reads back the same text.
pub proof fn lemma_published_text_round_trips(message: Seq<char>)
    ensures
        valid_utf8(encode_utf8(message)),
        decode_utf8(encode_utf8(message)) == message,
{
    encode_utf8_valid_utf8(message);
    encode_utf8_decode_utf8(message);
}

} // verus!

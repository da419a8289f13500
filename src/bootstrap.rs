//! The bootstrap node's one decision: which record to write to the config
//! store. Every new listen address is written, over the one before it, so
//! the store ends with the last address observed.

use crate::node::BootstrapConfig;
use vstd::prelude::*;

verus! {

/// What the bootstrap node's run loop observes.
pub enum BootstrapEvent {
    ListenAddress(String),
    Other,
}

/// The address on record after `event`, given the one before it.
pub open spec fn saved_after(saved: Option<Seq<char>>, event: BootstrapEvent) -> Option<
    Seq<char>,
> {
    match event {
        BootstrapEvent::ListenAddress(a) => Some(a@),
        BootstrapEvent::Other => saved,
    }
}

/// The address on record after each of `events` in turn.
pub open spec fn saved_after_all(saved: Option<Seq<char>>, events: Seq<BootstrapEvent>) -> Option<
    Seq<char>,
>
    decreases events.len(),
{
    if events.len() == 0 {
        saved
    } else {
        saved_after(saved_after_all(saved, events.drop_last()), events.last())
    }
}

/// The last listen address among `events`, if there is one.
pub open spec fn last_address(events: Seq<BootstrapEvent>) -> Option<Seq<char>>
    decreases events.len(),
{
    if events.len() == 0 {
        None
    } else {
        match events.last() {
            BootstrapEvent::ListenAddress(a) => Some(a@),
            BootstrapEvent::Other => last_address(events.drop_last()),
        }
    }
}

/// A bootstrap node apart from its network session: its own peer id, and the
/// address it last wrote to the store.
pub struct BootstrapServer {
    peer_id: String,
    saved: Option<String>,
}

impl BootstrapServer {
    pub closed spec fn peer_id_spec(&self) -> Seq<char> {
        self.peer_id@
    }

    pub closed spec fn saved_spec(&self) -> Option<Seq<char>> {
        match self.saved {
            Some(a) => Some(a@),
            None => None,
        }
    }

    /// A node with the given peer id that has written nothing yet.
    pub fn new(peer_id: String) -> (r: Self)
        ensures
            r.peer_id_spec() == peer_id@,
            r.saved_spec() is None,
    {
        BootstrapServer { peer_id, saved: None }
    }

    /// The address this node last wrote to the store, if any.
    pub fn saved_address(&self) -> (r: Option<&String>)
        ensures
            match r {
                Some(a) => self.saved_spec() == Some(a@),
                None => self.saved_spec() is None,
            },
    {
        self.saved.as_ref()
    }

    /// The record to write to the store for `event`: on a new listen address,
    /// this node's peer id with that address; on anything else, none.
    pub fn on_event(&mut self, event: BootstrapEvent) -> (r: Option<BootstrapConfig>)
        ensures
            final(self).peer_id_spec() == old(self).peer_id_spec(),
            final(self).saved_spec() == saved_after(old(self).saved_spec(), event),
            match event {
                BootstrapEvent::ListenAddress(a) => r is Some && r->Some_0.peer_id@
                    == old(self).peer_id_spec() && r->Some_0.address@ == a@,
                BootstrapEvent::Other => r is None,
            },
    {
        match event {
            BootstrapEvent::ListenAddress(address) => {
                self.saved = Some(address.clone());
                Some(BootstrapConfig { peer_id: self.peer_id.clone(), address })
            },
            BootstrapEvent::Other => None,
        }
    }
}

/// After a run of events the address on record is the last listen address
/// among them, whatever was on record before; with none among them the
/// record is unchanged.
pub proof fn lemma_last_address_wins(saved: Option<Seq<char>>, events: Seq<BootstrapEvent>)
    ensures
        last_address(events) is Some ==> saved_after_all(saved, events) == last_address(events),
        last_address(events) is None ==> saved_after_all(saved, events) == saved,
    decreases events.len(),
{
    if events.len() > 0 {
        lemma_last_address_wins(saved, events.drop_last());
    }
}

} // verus!

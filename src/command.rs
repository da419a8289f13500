//! Control-plane commands for a running node, and the overlay calls they
//! turn into.

use std::collections::hash_map::DefaultHasher;
use std::hash::Hasher;
use vstd::prelude::*;
use vstd::std_specs::hash::DefaultHasherAdditionalSpecFns;

verus! {

/// How many commands the node's queue holds before a producer has to wait.
pub const COMMAND_CAPACITY: usize = 32;

/// An intent handed to the run loop; each is consumed exactly once.
#[derive(Debug, Clone, PartialEq, Eq)]
pub enum ChatCommand {
    Subscribe(String),
    Publish(String, Vec<u8>),
}

/// A call the run loop makes on the gossip overlay.
#[derive(Debug, Clone, PartialEq, Eq)]
pub enum OverlayCall {
    Subscribe(String),
    Publish(String, Vec<u8>),
}

/// The overlay call that carries out a command: the topic and the payload
/// pass on unchanged.
pub open spec fn call_of(c: ChatCommand) -> OverlayCall {
    match c {
        ChatCommand::Subscribe(topic) => OverlayCall::Subscribe(topic),
        ChatCommand::Publish(topic, payload) => OverlayCall::Publish(topic, payload),
    }
}

/// The overlay call that carries out `command`.
pub fn overlay_call(command: ChatCommand) -> (r: OverlayCall)
    ensures
        r == call_of(command),
{
    match command {
        ChatCommand::Subscribe(topic) => OverlayCall::Subscribe(topic),
        ChatCommand::Publish(topic, payload) => OverlayCall::Publish(topic, payload),
    }
}

/// The identity the overlay gives a message: a digest of its payload alone.
pub open spec fn message_id_of(payload: Seq<u8>) -> u64 {
    DefaultHasher::spec_finish(seq![payload])
}

/// The content-derived identity of a message, by which the overlay drops
/// copies it has already seen. std does not fix the hashing algorithm across
/// its releases, so nodes agree on identities when built with the same
/// toolchain.
pub fn message_id(payload: &[u8]) -> (r: u64)
    ensures
        r == message_id_of(payload@),
{
    let mut hasher = DefaultHasher::new();
    hasher.write(payload);
    proof {
        assert(hasher@ == seq![payload@]);
    }
    hasher.finish()
}

/// Two payloads with the same bytes get the same message identity, so the
/// overlay treats a second publication of them as a duplicate.
pub proof fn lemma_same_payload_same_id(a: Seq<u8>, b: Seq<u8>)
    requires
        a == b,
    ensures
        message_id_of(a) == message_id_of(b),
{
}

} // verus!

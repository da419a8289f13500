//! The client node: its construction from a bootstrap record, and the
//! decision its run loop takes on each command or network event.

use crate::command::{call_of, overlay_call, ChatCommand, OverlayCall};
use crate::handlers::MessageHandler;
use crate::peer::{multiaddr_parses, parse_multiaddr, parse_peer_id, peer_id_parses};
use vstd::prelude::*;

verus! {

/// The rendezvous peer a client dials first: its peer id and its address,
/// both as text.
#[derive(Debug, Clone, PartialEq, Eq)]
pub struct BootstrapConfig {
    pub peer_id: String,
    pub address: String,
}

/// Why a node could not be built from a bootstrap record.
#[derive(Debug, Clone, Copy, PartialEq, Eq)]
pub enum ConfigError {
    InvalidPeerId,
    InvalidAddress,
}

/// The error a bootstrap record gives, if any: the peer id is read first.
pub open spec fn config_error(config: BootstrapConfig) -> Option<ConfigError> {
    if !peer_id_parses(config.peer_id@) {
        Some(ConfigError::InvalidPeerId)
    } else if !multiaddr_parses(config.address@) {
        Some(ConfigError::InvalidAddress)
    } else {
        None
    }
}

/// What reaches the run loop: a command from the queue, or an event of the
/// network.
pub enum NodeInput {
    Command(ChatCommand),
    Message { source: libp2p::PeerId, topic: String, payload: Vec<u8> },
    ListenAddress(String),
    Connected(libp2p::PeerId),
    Discovery,
    Other,
}

/// A client node, apart from its network session: its own key pair, the
/// bootstrap record it was built from with the peer id and address read from
/// it, and its policy for inbound messages.
pub struct ClientNode<H> {
    keypair: libp2p::identity::Keypair,
    bootstrap: BootstrapConfig,
    server_peer_id: libp2p::PeerId,
    server_address: libp2p::Multiaddr,
    handler: H,
}

impl<H: MessageHandler> ClientNode<H> {
    pub closed spec fn keypair_spec(&self) -> libp2p::identity::Keypair {
        self.keypair
    }

    pub closed spec fn bootstrap_spec(&self) -> BootstrapConfig {
        self.bootstrap
    }

    pub closed spec fn handler_spec(&self) -> H {
        self.handler
    }

    /// The bootstrap record it holds is one that reads.
    pub closed spec fn wf(&self) -> bool {
        config_error(self.bootstrap) is None
    }

    /// Reads the bootstrap record; fails when the peer id or the address
    /// cannot be read. The node keeps the record, the key pair and the handler
    /// it is given.
    pub fn from_config(
        config: &BootstrapConfig,
        keypair: libp2p::identity::Keypair,
        handler: H,
    ) -> (r: Result<Self, ConfigError>)
        ensures
            r is Ok <==> config_error(*config) is None,
            r is Err ==> Some(r->Err_0) == config_error(*config),
            r is Ok ==> {
                &&& r->Ok_0.wf()
                &&& r->Ok_0.bootstrap_spec().peer_id@ == config.peer_id@
                &&& r->Ok_0.bootstrap_spec().address@ == config.address@
                &&& r->Ok_0.keypair_spec() == keypair
                &&& r->Ok_0.handler_spec() == handler
            },
    {
        let server_peer_id = match parse_peer_id(config.peer_id.as_str()) {
            Some(p) => p,
            None => {
                return Err(ConfigError::InvalidPeerId);
            },
        };
        let server_address = match parse_multiaddr(config.address.as_str()) {
            Some(a) => a,
            None => {
                return Err(ConfigError::InvalidAddress);
            },
        };
        let bootstrap = BootstrapConfig {
            peer_id: config.peer_id.clone(),
            address: config.address.clone(),
        };
        Ok(ClientNode { keypair, bootstrap, server_peer_id, server_address, handler })
    }

    pub fn keypair(&self) -> (r: &libp2p::identity::Keypair)
        ensures
            *r == self.keypair_spec(),
    {
        &self.keypair
    }

    /// The bootstrap record this node was built from.
    pub fn bootstrap_config(&self) -> (r: &BootstrapConfig)
        ensures
            *r == self.bootstrap_spec(),
    {
        &self.bootstrap
    }

    /// The peer id read from the bootstrap record's `peer_id`.
    pub fn server_peer_id(&self) -> &libp2p::PeerId {
        &self.server_peer_id
    }

    /// The address read from the bootstrap record's `address`.
    pub fn server_address(&self) -> &libp2p::Multiaddr {
        &self.server_address
    }

    /// What the loop does with one input. A command becomes its overlay call;
    /// an inbound message goes to the handler, with its source, topic and
    /// payload, and the handler's answer is carried out at once; every other
    /// event is only observed and leaves the node as it was.
    pub fn step(&mut self, input: NodeInput) -> (r: Option<OverlayCall>)
        ensures
            final(self).keypair_spec() == old(self).keypair_spec(),
            final(self).bootstrap_spec() == old(self).bootstrap_spec(),
            final(self).wf() == old(self).wf(),
            input matches NodeInput::Command(c) ==> r == Some(call_of(c)),
            input matches NodeInput::Message { source, topic, payload } ==> exists|
                answer: Option<ChatCommand>,
            |
                #[trigger] old(self).handler_spec().handled(
                    final(self).handler_spec(),
                    source,
                    topic@,
                    payload@,
                    answer,
                ) && r == follow_up_of(answer),
            !(input is Command || input is Message) ==> r is None,
            !(input is Message) ==> *final(self) == *old(self),
    {
        match input {
            NodeInput::Command(c) => Some(overlay_call(c)),
            NodeInput::Message { source, topic, payload } => {
                let ghost before = *self;
                let answer = self.handler.handle_message(source, topic.as_str(), payload.as_slice());
                proof {
                    assert(self.handler_spec() == self.handler);
                    assert(before.handler_spec() == before.handler);
                    assert(before.handler.handled(self.handler, source, topic@, payload@, answer));
                }
                follow_up(answer)
            },
            _ => None,
        }
    }
}

/// The overlay call for a handler's answer.
pub open spec fn follow_up_of(answer: Option<ChatCommand>) -> Option<OverlayCall> {
    match answer {
        Some(c) => Some(call_of(c)),
        None => None,
    }
}

/// The overlay call for a handler's answer: none, or the call of the command
/// it answered with.
pub fn follow_up(answer: Option<ChatCommand>) -> (r: Option<OverlayCall>)
    ensures
        match answer {
            Some(c) => r == Some(call_of(c)),
            None => r is None,
        },
{
    match answer {
        Some(c) => Some(overlay_call(c)),
        None => None,
    }
}

} // verus!

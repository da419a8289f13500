//! Peer identities and transport addresses, as the libp2p crates define them.

use vstd::prelude::*;

verus! {

#[verifier::external_type_specification]
#[verifier::external_body]
pub struct ExPeerId(libp2p::PeerId);

#[verifier::external_type_specification]
#[verifier::external_body]
pub struct ExMultiaddr(libp2p::Multiaddr);

#[verifier::external_type_specification]
#[verifier::external_body]
pub struct ExKeypair(libp2p::identity::Keypair);

/// Whether libp2p reads the text as a peer id (base-58 of a multihash).
pub uninterp spec fn peer_id_parses(s: Seq<char>) -> bool;

/// Whether libp2p reads the text as a multiaddr.
pub uninterp spec fn multiaddr_parses(s: Seq<char>) -> bool;

/// Relies on `<libp2p::PeerId as FromStr>::from_str`, whose outcome depends on
/// the text alone.
#[verifier::external_body]
pub(crate) fn parse_peer_id(s: &str) -> (r: Option<libp2p::PeerId>)
    ensures
        r is Some <==> peer_id_parses(s@),
{
    s.parse::<libp2p::PeerId>().ok()
}

/// Relies on `<libp2p::Multiaddr as FromStr>::from_str`, whose outcome depends
/// on the text alone, and which refuses a non-empty text that does not start
/// with `/`.
#[verifier::external_body]
pub(crate) fn parse_multiaddr(s: &str) -> (r: Option<libp2p::Multiaddr>)
    ensures
        r is Some <==> multiaddr_parses(s@),
        s@.len() > 0 && s@[0] != '/' ==> r is None,
{
    s.parse::<libp2p::Multiaddr>().ok()
}

} // verus!

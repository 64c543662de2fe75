//! Reading peer ids and multiaddresses, as libp2p reads them.
use vstd::prelude::*;

verus! {

/// The base58 text of the peer id that libp2p reads from `s`, if it reads one.
pub uninterp spec fn parsed_peer_id(s: Seq<char>) -> Option<Seq<char>>;

/// Parses `s` with `<libp2p::PeerId as FromStr>::from_str` (base58 decoding, then a
/// multihash of a supported code) and, on success, writes the id back with `to_base58`.
/// The contract names the result and claims no more.
#[verifier::external_body]
pub(crate) fn parse_peer_id(s: &str) -> (r: Option<String>)
    ensures
        match r {
            Some(t) => parsed_peer_id(s@) == Some(t@),
            None => parsed_peer_id(s@) is None,
        },
{
    match s.parse::<libp2p::PeerId>() {
        Ok(peer) => Some(peer.to_base58()),
        Err(_) => None,
    }
}

/// One component of a multiaddress, as far as the library looks at it.
#[derive(Clone, Copy, Debug)]
pub enum AddrComponent {
    /// `/ip4/a.b.c.d`, by its four octets
    Ip4([u8; 4]),
    /// `/tcp/port`
    Tcp(u16),
    /// Any other protocol
    Other,
}

/// The components, in order, of the multiaddress libp2p reads from `s`, if it reads one.
pub uninterp spec fn multiaddr_parts(s: Seq<char>) -> Option<Seq<AddrComponent>>;

/// Whether libp2p reads `s` as a multiaddress.
pub open spec fn is_multiaddr_text(s: Seq<char>) -> bool {
    multiaddr_parts(s) is Some
}

/// Parses `s` with `<libp2p::Multiaddr as FromStr>::from_str` and lists its protocols
/// (`Multiaddr::iter`) in order, keeping the octets of `Ip4` and the port of `Tcp`. The
/// contract names the result and claims no more.
#[verifier::external_body]
pub(crate) fn multiaddr_components(s: &str) -> (r: Option<Vec<AddrComponent>>)
    ensures
        match r {
            Some(v) => multiaddr_parts(s@) == Some(v@),
            None => multiaddr_parts(s@) is None,
        },
{
    match s.parse::<libp2p::Multiaddr>() {
        Ok(addr) => Some(addr.iter().map(|p| match p {
            libp2p::multiaddr::Protocol::Ip4(ip) => AddrComponent::Ip4(ip.octets()),
            libp2p::multiaddr::Protocol::Tcp(port) => AddrComponent::Tcp(port),
            _ => AddrComponent::Other,
        }).collect()),
        Err(_) => None,
    }
}

} // verus!

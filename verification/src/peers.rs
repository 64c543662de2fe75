//! Peers found through the Kubernetes headless service, and their connection status.
use vstd::prelude::*;
use crate::discovery::identity::{multiaddr_components, multiaddr_parts, AddrComponent};
use crate::text::{decimal, decimal_text, parse_u16, parsed_u16, texts};

verus! {

/// Information about a discovered peer.
pub struct PeerInfo {
    pub pod_name: String,
    /// IP address, as text
    pub address: String,
    pub port: u16,
}

/// `/ip4/{address}/tcp/{port}`.
pub open spec fn multiaddr_text(address: Seq<char>, port: u16) -> Seq<char> {
    "/ip4/"@ + address + "/tcp/"@ + decimal_text(port as nat)
}

impl PeerInfo {
    /// The peer's TCP multiaddress.
    pub fn multiaddr(&self) -> (r: String)
        ensures
            r@ == multiaddr_text(self.address@, self.port),
    {
        let port = decimal(self.port as u64);
        String::from_str("/ip4/").concat(self.address.as_str()).concat("/tcp/").concat(port.as_str())
    }
}

/// The octets of the first `/ip4` component.
pub open spec fn first_ip4(parts: Seq<AddrComponent>) -> Option<Seq<u8>>
    decreases parts.len(),
{
    if parts.len() == 0 {
        None
    } else {
        match first_ip4(parts.drop_last()) {
            Some(o) => Some(o),
            None => match parts.last() {
                AddrComponent::Ip4(o) => Some(o@),
                _ => None,
            },
        }
    }
}

/// The port of the first `/tcp` component.
pub open spec fn first_tcp(parts: Seq<AddrComponent>) -> Option<u16>
    decreases parts.len(),
{
    if parts.len() == 0 {
        None
    } else {
        match first_tcp(parts.drop_last()) {
            Some(p) => Some(p),
            None => match parts.last() {
                AddrComponent::Tcp(p) => Some(p),
                _ => None,
            },
        }
    }
}

/// Dotted-decimal text of four octets.
pub open spec fn ipv4_text(o: Seq<u8>) -> Seq<char> {
    decimal_text(o[0] as nat) + "."@ + decimal_text(o[1] as nat) + "."@ + decimal_text(o[2] as nat) + "."@
        + decimal_text(o[3] as nat)
}

fn ipv4_string(o: [u8; 4]) -> (r: String)
    ensures
        r@ == ipv4_text(o@),
{
    decimal(o[0] as u64).concat(".").concat(decimal(o[1] as u64).as_str()).concat(".").concat(
        decimal(o[2] as u64).as_str(),
    ).concat(".").concat(decimal(o[3] as u64).as_str())
}

/// The peer-table entry of a peer that discovery adds: named `peer-{peer_id}`, at the
/// first IPv4 address and the first TCP port of its multiaddress. A multiaddress
/// without either gives no entry.
pub fn peer_info_for(peer_id: &String, addr: &str) -> (r: Option<PeerInfo>)
    ensures
        match multiaddr_parts(addr@) {
            None => r is None,
            Some(parts) => match (first_ip4(parts), first_tcp(parts)) {
                (Some(o), Some(p)) => match r {
                    Some(info) => info.pod_name@ == "peer-"@ + peer_id@ && info.address@ == ipv4_text(o)
                        && info.port == p,
                    None => false,
                },
                _ => r is None,
            },
        },
{
    let parts = match multiaddr_components(addr) {
        Some(v) => v,
        None => {
            return None;
        },
    };
    let mut ip: Option<[u8; 4]> = None;
    let mut port: Option<u16> = None;
    let mut i: usize = 0;
    while i < parts.len()
        invariant
            i <= parts.len(),
            match ip {
                Some(o) => first_ip4(parts@.take(i as int)) == Some(o@),
                None => first_ip4(parts@.take(i as int)) is None,
            },
            port == first_tcp(parts@.take(i as int)),
        decreases parts.len() - i,
    {
        assert(parts@.take(i + 1).drop_last() =~= parts@.take(i as int));
        match parts[i] {
            AddrComponent::Ip4(o) => {
                if ip.is_none() {
                    ip = Some(o);
                }
            },
            AddrComponent::Tcp(p) => {
                if port.is_none() {
                    port = Some(p);
                }
            },
            AddrComponent::Other => {},
        }
        i = i + 1;
    }
    assert(parts@.take(parts.len() as int) =~= parts@);
    match (ip, port) {
        (Some(o), Some(p)) => {
            let pod_name = String::from_str("peer-").concat(peer_id.as_str());
            Some(PeerInfo { pod_name, address: ipv4_string(o), port: p })
        },
        _ => None,
    }
}

/// Connection status of a peer.
#[derive(Clone, Copy, Debug, PartialEq, Eq, Structural)]
pub enum ConnectionStatus {
    Connected,
    Disconnected,
    Failed,
}

/// Why a discovery configuration could not be built.
#[derive(Clone, Copy, Debug, PartialEq, Eq, Structural)]
pub enum DiscoveryConfigError {
    /// `P2P_PORT` is not a port number
    InvalidPort,
}

/// Kubernetes DNS-based peer discovery through a headless service.
pub struct KubernetesPeerDiscovery {
    /// Headless service DNS name (e.g., "neolaas-headless.infra.svc.cluster.local")
    service_dns: String,
    /// Port for P2P communication
    p2p_port: u16,
    /// Current pod IP (to exclude self from discovered peers)
    self_pod_ip: Option<String>,
}

pub open spec fn opt_view(o: Option<String>) -> Option<Seq<char>> {
    match o {
        Some(s) => Some(s@),
        None => None,
    }
}

/// The service name a headless service and namespace resolve under.
pub open spec fn service_dns_text(service_name: Seq<char>, namespace: Seq<char>) -> Seq<char> {
    service_name + "."@ + namespace + ".svc.cluster.local"@
}

/// The peers a DNS answer yields: every address but our own, on the P2P port.
pub open spec fn discovered_peers(addresses: Seq<Seq<char>>, self_ip: Option<Seq<char>>) -> Seq<Seq<char>>
    decreases addresses.len(),
{
    if addresses.len() == 0 {
        Seq::empty()
    } else {
        let prev = discovered_peers(addresses.drop_last(), self_ip);
        if self_ip == Some(addresses.last()) {
            prev
        } else {
            prev.push(addresses.last())
        }
    }
}

impl KubernetesPeerDiscovery {
    pub closed spec fn dns(&self) -> Seq<char> {
        self.service_dns@
    }

    pub closed spec fn port(&self) -> u16 {
        self.p2p_port
    }

    pub closed spec fn self_ip(&self) -> Option<Seq<char>> {
        opt_view(self.self_pod_ip)
    }

    pub fn new(service_dns: String, p2p_port: u16, self_pod_ip: Option<String>) -> (r: Self)
        ensures
            r.dns() == service_dns@,
            r.port() == p2p_port,
            r.self_ip() == opt_view(self_pod_ip),
    {
        KubernetesPeerDiscovery { service_dns, p2p_port, self_pod_ip }
    }

    /// Builds the discovery from the environment's values: `HEADLESS_SERVICE_DNS`, else
    /// `HEADLESS_SERVICE_NAME` (default `neolaas-headless`) in `NAMESPACE` (default
    /// `default`); `P2P_PORT` (default 9000); `POD_IP`.
    pub fn from_env_values(
        headless_service_dns: Option<String>,
        namespace: Option<String>,
        headless_service_name: Option<String>,
        p2p_port: Option<String>,
        pod_ip: Option<String>,
    ) -> (r: Result<Self, DiscoveryConfigError>)
        ensures
            ({
                let port_text = match p2p_port {
                    Some(p) => p@,
                    None => "9000"@,
                };
                match r {
                    Ok(d) => {
                        &&& parsed_u16(port_text) == Some(d.port())
                        &&& d.self_ip() == opt_view(pod_ip)
                        &&& d.dns() == match headless_service_dns {
                            Some(dns) => dns@,
                            None => service_dns_text(
                                match headless_service_name {
                                    Some(n) => n@,
                                    None => "neolaas-headless"@,
                                },
                                match namespace {
                                    Some(n) => n@,
                                    None => "default"@,
                                },
                            ),
                        }
                    },
                    Err(e) => parsed_u16(port_text) is None && e == DiscoveryConfigError::InvalidPort,
                }
            }),
    {
        let service_dns = match headless_service_dns {
            Some(dns) => dns,
            None => {
                let ns = match namespace {
                    Some(n) => n,
                    None => String::from_str("default"),
                };
                let name = match headless_service_name {
                    Some(n) => n,
                    None => String::from_str("neolaas-headless"),
                };
                name.concat(".").concat(ns.as_str()).concat(".svc.cluster.local")
            },
        };
        let port_text = match p2p_port {
            Some(p) => p,
            None => String::from_str("9000"),
        };
        match parse_u16(port_text.as_str()) {
            Some(port) => Ok(Self::new(service_dns, port, pod_ip)),
            None => Err(DiscoveryConfigError::InvalidPort),
        }
    }

    /// The `host:port` text resolved to find the peers.
    pub fn lookup_target(&self) -> (r: String)
        ensures
            r@ == self.dns() + ":0"@,
    {
        self.service_dns.clone().concat(":0")
    }

    /// The peers of a DNS answer (addresses as text): every address except this pod's
    /// own, named `pod-{address}`, on the P2P port.
    pub fn peers_from_addresses(&self, addresses: Vec<String>) -> (r: Vec<PeerInfo>)
        ensures
            r.len() == discovered_peers(texts(addresses@), self.self_ip()).len(),
            forall|i: int| 0 <= i < r.len() ==> {
                &&& (#[trigger] r@[i]).address@ == discovered_peers(texts(addresses@), self.self_ip())[i]
                &&& r@[i].pod_name@ == "pod-"@ + r@[i].address@
                &&& r@[i].port == self.port()
            },
    {
        let ghost ts = texts(addresses@);
        let mut peers: Vec<PeerInfo> = Vec::new();
        let mut i: usize = 0;
        while i < addresses.len()
            invariant
                ts == texts(addresses@),
                i <= addresses.len(),
                peers.len() == discovered_peers(ts.take(i as int), self.self_ip()).len(),
                forall|k: int| 0 <= k < peers.len() ==> {
                    &&& (#[trigger] peers@[k]).address@ == discovered_peers(ts.take(i as int), self.self_ip())[k]
                    &&& peers@[k].pod_name@ == "pod-"@ + peers@[k].address@
                    &&& peers@[k].port == self.port()
                },
            decreases addresses.len() - i,
        {
            let ip = &addresses[i];
            assert(ts.take(i + 1).drop_last() =~= ts.take(i as int));
            let is_self = match &self.self_pod_ip {
                Some(self_ip) => *ip == *self_ip,
                None => false,
            };
            if !is_self {
                let pod_name = String::from_str("pod-").concat(ip.as_str());
                peers.push(PeerInfo { pod_name, address: ip.clone(), port: self.p2p_port });
            }
            i = i + 1;
        }
        assert(ts.take(addresses.len() as int) =~= ts);
        peers
    }
}

impl Clone for KubernetesPeerDiscovery {
    fn clone(&self) -> (r: Self)
        ensures
            r.dns() == self.dns(),
            r.port() == self.port(),
            r.self_ip() == self.self_ip(),
    {
        KubernetesPeerDiscovery {
            service_dns: self.service_dns.clone(),
            p2p_port: self.p2p_port,
            self_pod_ip: match &self.self_pod_ip {
                Some(ip) => Some(ip.clone()),
                None => None,
            },
        }
    }
}

/// Discovery leaves out exactly this pod's own address: the peers are the DNS answer's
/// addresses, in order, without those equal to this pod's IP (an address that merely
/// starts with it is kept).
pub proof fn lemma_discovered_peers_drop_only_self(addresses: Seq<Seq<char>>, self_ip: Option<Seq<char>>)
    ensures
        discovered_peers(addresses, self_ip) == addresses.filter(|a: Seq<char>| self_ip != Some(a)),
    decreases addresses.len(),
{
    reveal(Seq::filter);
    if addresses.len() > 0 {
        lemma_discovered_peers_drop_only_self(addresses.drop_last(), self_ip);
    }
}

} // verus!

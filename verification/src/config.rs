//! Network configuration: defaults, and overrides read from the environment.
//! Durations are held in milliseconds.
use vstd::prelude::*;
use crate::text::{comma_joined, parse_u16, parsed_u16, split_commas, texts};

verus! {

/// Network configuration with sensible defaults.
pub struct NetworkConfig {
    /// Idle connection timeout before closing (ms)
    pub connection_idle_timeout: u64,
    /// P2P listen port (env: P2P_PORT)
    pub p2p_port: u16,
    /// Cluster identifier for namespace isolation (env: CLUSTER_ID)
    pub cluster_id: String,
    /// Etcd endpoints (env: ETCD_ENDPOINTS, comma-separated)
    pub etcd_endpoints: Vec<String>,
    /// Pod IP address (env: POD_IP)
    pub pod_ip: String,
    /// Brief delay to allow swarm and discovery controller to initialize (ms)
    pub initialization_delay: u64,
    /// Interval for periodic cleanup of stale failed peers (ms)
    pub cleanup_interval: u64,
    /// Maximum age for failed peers before cleanup (ms)
    pub stale_peer_max_age: u64,
    /// Interval for periodic ping loop (ms)
    pub ping_interval: u64,
    /// Initial delay before starting ping loop (ms)
    pub ping_initial_delay: u64,
    /// Number of failures before applying exponential backoff
    pub failure_threshold: u32,
    /// Maximum consecutive failures before marking peer as failed
    pub max_failures: u32,
    /// Base for exponential backoff calculation
    pub backoff_base: u64,
    /// Maximum power for exponential backoff (2^max_backoff_power)
    pub max_backoff_power: u32,
    /// TTL for etcd leases (seconds)
    pub lease_ttl: i64,
    /// Interval for lease keep-alive (ms)
    pub keepalive_interval: u64,
    /// Wait time for DELETE event propagation after lease revocation (ms)
    pub delete_propagation_wait: u64,
    /// Delay before reconnecting after watch stream failure (ms)
    pub reconnect_delay: u64,
    /// Initial interval for etcd connection retry (ms)
    pub etcd_backoff_initial: u64,
    /// Maximum interval for etcd connection retry (ms)
    pub etcd_backoff_max: u64,
    /// Maximum elapsed time for etcd connection retries (ms)
    pub etcd_backoff_max_elapsed: u64,
    /// Request timeout for remote actor messaging (ms)
    pub kameo_request_timeout: u64,
    /// Maximum concurrent streams for kameo
    pub kameo_max_streams: u32,
    /// Query timeout for Kademlia DHT (ms)
    pub kademlia_query_timeout: u64,
    /// Parallelism for Kademlia queries (non-zero)
    pub kademlia_parallelism: usize,
    /// Publication interval for Kademlia (ms)
    pub kademlia_publication_interval: u64,
    /// Provider record TTL for Kademlia (ms)
    pub kademlia_provider_ttl: u64,
}

/// The default configuration's values.
pub open spec fn is_default_config(c: NetworkConfig) -> bool {
    &&& c.connection_idle_timeout == 300_000
    &&& c.p2p_port == 9000
    &&& c.cluster_id@ == "default"@
    &&& texts(c.etcd_endpoints@) == seq!["http://etcd.infra.svc.cluster.local:2379"@]
    &&& c.pod_ip@ == "127.0.0.1"@
    &&& c.initialization_delay == 500
    &&& c.cleanup_interval == 60_000
    &&& c.stale_peer_max_age == 300_000
    &&& c.ping_interval == 5_000
    &&& c.ping_initial_delay == 2_000
    &&& c.failure_threshold == 3
    &&& c.max_failures == 10
    &&& c.backoff_base == 2
    &&& c.max_backoff_power == 6
    &&& c.lease_ttl == 15
    &&& c.keepalive_interval == 5_000
    &&& c.delete_propagation_wait == 5_000
    &&& c.reconnect_delay == 5_000
    &&& c.etcd_backoff_initial == 1_000
    &&& c.etcd_backoff_max == 10_000
    &&& c.etcd_backoff_max_elapsed == 60_000
    &&& c.kameo_request_timeout == 30_000
    &&& c.kameo_max_streams == 100
    &&& c.kademlia_query_timeout == 3_000
    &&& c.kademlia_parallelism == 10
    &&& c.kademlia_publication_interval == 1_800_000
    &&& c.kademlia_provider_ttl == 3_600_000
}

impl Default for NetworkConfig {
    fn default() -> (r: Self)
        ensures
            is_default_config(r),
    {
        let mut etcd_endpoints: Vec<String> = Vec::new();
        etcd_endpoints.push(String::from_str("http://etcd.infra.svc.cluster.local:2379"));
        assert(texts(etcd_endpoints@) =~= seq!["http://etcd.infra.svc.cluster.local:2379"@]);
        NetworkConfig {
            connection_idle_timeout: 300_000,
            p2p_port: 9000,
            cluster_id: String::from_str("default"),
            etcd_endpoints,
            pod_ip: String::from_str("127.0.0.1"),
            initialization_delay: 500,
            cleanup_interval: 60_000,
            stale_peer_max_age: 300_000,
            ping_interval: 5_000,
            ping_initial_delay: 2_000,
            failure_threshold: 3,
            max_failures: 10,
            backoff_base: 2,
            max_backoff_power: 6,
            lease_ttl: 15,
            keepalive_interval: 5_000,
            delete_propagation_wait: 5_000,
            reconnect_delay: 5_000,
            etcd_backoff_initial: 1_000,
            etcd_backoff_max: 10_000,
            etcd_backoff_max_elapsed: 60_000,
            kameo_request_timeout: 30_000,
            kameo_max_streams: 100,
            kademlia_query_timeout: 3_000,
            kademlia_parallelism: 10,
            kademlia_publication_interval: 1_800_000,
            kademlia_provider_ttl: 3_600_000,
        }
    }
}

impl NetworkConfig {
    /// Applies the environment's values (`P2P_PORT`, `CLUSTER_ID`, `ETCD_ENDPOINTS`,
    /// `POD_IP`, each `None` when unset): a port that does not read as one is ignored;
    /// endpoints are split at commas.
    pub fn with_env_values(
        self,
        p2p_port: Option<String>,
        cluster_id: Option<String>,
        etcd_endpoints: Option<String>,
        pod_ip: Option<String>,
    ) -> (r: Self)
        ensures
            r.p2p_port == match p2p_port {
                Some(p) => match parsed_u16(p@) {
                    Some(v) => v,
                    None => self.p2p_port,
                },
                None => self.p2p_port,
            },
            r.cluster_id@ == match cluster_id {
                Some(c) => c@,
                None => self.cluster_id@,
            },
            match etcd_endpoints {
                Some(e) => comma_joined(texts(r.etcd_endpoints@)) == e@ && r.etcd_endpoints.len() >= 1
                    && forall|i: int| 0 <= i < r.etcd_endpoints.len() ==> !(#[trigger] r.etcd_endpoints@[i]@).contains(','),
                None => r.etcd_endpoints == self.etcd_endpoints,
            },
            r.pod_ip@ == match pod_ip {
                Some(p) => p@,
                None => self.pod_ip@,
            },
            r == (NetworkConfig {
                p2p_port: r.p2p_port,
                cluster_id: r.cluster_id,
                etcd_endpoints: r.etcd_endpoints,
                pod_ip: r.pod_ip,
                ..self
            }),
    {
        let mut config = self;
        match p2p_port {
            Some(port) => match parse_u16(port.as_str()) {
                Some(parsed) => {
                    config.p2p_port = parsed;
                },
                None => {},
            },
            None => {},
        }
        match cluster_id {
            Some(c) => {
                config.cluster_id = c;
            },
            None => {},
        }
        match etcd_endpoints {
            Some(e) => {
                config.etcd_endpoints = split_commas(e.as_str());
            },
            None => {},
        }
        match pod_ip {
            Some(p) => {
                config.pod_ip = p;
            },
            None => {},
        }
        config
    }
}

} // verus!

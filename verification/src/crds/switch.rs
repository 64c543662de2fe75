//! Switch: a network switch of the lab inventory.
use vstd::prelude::*;
use crate::text::text_eq;

verus! {

/// Switch represents a network switch in the lab.
pub struct SwitchSpec {
    /// Management IP address, as text.
    pub management_ip: String,
    /// Automation backend/driver.
    pub backend: SwitchBackend,
    /// Reference to Secret with `username` and `password` keys.
    pub credentials_secret: String,
    /// Port override (defaults based on backend).
    pub port: Option<u16>,
    /// Arbitrary labels.
    pub labels: Vec<(String, String)>,
}

/// Switch automation backend.
#[derive(Clone, Copy, Debug, PartialEq, Eq, Structural)]
pub enum SwitchBackend {
    /// Cisco NX-OS (Nexus) - NX-API
    Nxos,
    /// Cisco IOS-XE - RESTCONF
    Iosxe,
    /// Cisco IOS (legacy) - SSH
    Ios,
    /// Arista EOS - eAPI
    Eos,
    /// Juniper Junos - NETCONF
    Junos,
    /// Generic SSH
    Ssh,
}

/// The management port each backend speaks on by default.
pub open spec fn backend_port(b: SwitchBackend) -> u16 {
    match b {
        SwitchBackend::Nxos => 443,
        SwitchBackend::Iosxe => 443,
        SwitchBackend::Ios => 22,
        SwitchBackend::Eos => 443,
        SwitchBackend::Junos => 830,
        SwitchBackend::Ssh => 22,
    }
}

/// The lowercase name of a backend.
pub open spec fn backend_name(b: SwitchBackend) -> Seq<char> {
    match b {
        SwitchBackend::Nxos => "nxos"@,
        SwitchBackend::Iosxe => "iosxe"@,
        SwitchBackend::Ios => "ios"@,
        SwitchBackend::Eos => "eos"@,
        SwitchBackend::Junos => "junos"@,
        SwitchBackend::Ssh => "ssh"@,
    }
}

impl SwitchBackend {
    /// HTTPS (443) for NX-API, RESTCONF and eAPI, NETCONF (830) for Junos, SSH (22) otherwise.
    pub fn default_port(&self) -> (r: u16)
        ensures
            r == backend_port(*self),
    {
        match self {
            SwitchBackend::Nxos => 443,
            SwitchBackend::Iosxe => 443,
            SwitchBackend::Ios => 22,
            SwitchBackend::Eos => 443,
            SwitchBackend::Junos => 830,
            SwitchBackend::Ssh => 22,
        }
    }

    /// The lowercase name the backend is written as.
    pub fn as_str(&self) -> (r: &'static str)
        ensures
            r@ == backend_name(*self),
    {
        match self {
            SwitchBackend::Nxos => "nxos",
            SwitchBackend::Iosxe => "iosxe",
            SwitchBackend::Ios => "ios",
            SwitchBackend::Eos => "eos",
            SwitchBackend::Junos => "junos",
            SwitchBackend::Ssh => "ssh",
        }
    }

    /// The backend named `s` (lowercase names only).
    pub fn parse(s: &str) -> (r: Option<SwitchBackend>)
        ensures
            match r {
                Some(b) => backend_name(b) == s@,
                None => forall|b: SwitchBackend| backend_name(b) != s@,
            },
    {
        if text_eq(s, "nxos") {
            Some(SwitchBackend::Nxos)
        } else if text_eq(s, "iosxe") {
            Some(SwitchBackend::Iosxe)
        } else if text_eq(s, "ios") {
            Some(SwitchBackend::Ios)
        } else if text_eq(s, "eos") {
            Some(SwitchBackend::Eos)
        } else if text_eq(s, "junos") {
            Some(SwitchBackend::Junos)
        } else if text_eq(s, "ssh") {
            Some(SwitchBackend::Ssh)
        } else {
            None
        }
    }
}

impl Default for SwitchBackend {
    fn default() -> (r: Self)
        ensures
            r == SwitchBackend::Nxos,
    {
        SwitchBackend::Nxos
    }
}

/// Distinct backends have distinct names.
pub proof fn lemma_backend_names_distinct(a: SwitchBackend, b: SwitchBackend)
    ensures
        backend_name(a) == backend_name(b) ==> a == b,
{
    reveal_strlit("nxos");
    reveal_strlit("iosxe");
    reveal_strlit("ios");
    reveal_strlit("eos");
    reveal_strlit("junos");
    reveal_strlit("ssh");
    if a != b && backend_name(a) == backend_name(b) {
        assert(backend_name(a).len() == backend_name(b).len());
        assert(backend_name(a)[0] == backend_name(b)[0]);
        assert(backend_name(a)[1] == backend_name(b)[1]);
    }
}

} // verus!

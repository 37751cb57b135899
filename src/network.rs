//! Network manager: protocol preference and fallback, STUN/TURN server lists,
//! ICE-candidate gathering and link-quality measurement.

use vstd::prelude::*;
use crate::crypto::new_uuid_v4;
use crate::error::CoreError;
use crate::text::{decimal, decimal_text, hundredths, hundredths_text};

verus! {

/// How a connection to the peer was established.
#[derive(Debug, Clone, Copy, PartialEq, Eq, Structural)]
pub enum ConnectionType {
    Direct,
    StunDirect,
    TurnRelay,
    Unknown,
}

/// IP protocol family.
#[derive(Debug, Clone, Copy, PartialEq, Eq, Structural)]
pub enum NetworkProtocol {
    IPv4,
    IPv6,
}

/// Categorical summary of a network sample.
#[derive(Debug, Clone, Copy, PartialEq, Eq, Structural)]
pub enum NetworkQuality {
    Excellent,
    Good,
    Fair,
    Poor,
    Unknown,
}

/// One measurement of the link.
///
/// `packet_loss` is expressed in hundredths of a percent (`150` is 1.5 %).
#[derive(Debug, Clone)]
pub struct NetworkStats {
    pub rtt: u32,
    pub packet_loss: u32,
    pub jitter: u32,
    pub bandwidth: u64,
    pub connection_type: ConnectionType,
    pub local_address: Option<String>,
    pub remote_address: Option<String>,
    pub protocol: NetworkProtocol,
}

/// The quality rule: every boundary falls into the worse bucket.
pub open spec fn quality_of(rtt: u32, loss: u32) -> NetworkQuality {
    if rtt < 50 && loss < 100 {
        NetworkQuality::Excellent
    } else if rtt < 100 && loss < 300 {
        NetworkQuality::Good
    } else if rtt < 200 && loss < 500 {
        NetworkQuality::Fair
    } else {
        NetworkQuality::Poor
    }
}

impl NetworkStats {
    /// A sample with every metric at zero, over IPv4, of unknown connection kind.
    pub fn new() -> (r: NetworkStats)
        ensures
            r.rtt == 0 && r.packet_loss == 0 && r.jitter == 0 && r.bandwidth == 0,
            r.connection_type == ConnectionType::Unknown,
            r.protocol == NetworkProtocol::IPv4,
            r.local_address is None && r.remote_address is None,
    {
        NetworkStats {
            rtt: 0,
            packet_loss: 0,
            jitter: 0,
            bandwidth: 0,
            connection_type: ConnectionType::Unknown,
            local_address: None,
            remote_address: None,
            protocol: NetworkProtocol::IPv4,
        }
    }
}

/// A STUN server.
#[derive(Debug, Clone)]
pub struct StunServer {
    pub url: String,
    pub username: Option<String>,
    pub credential: Option<String>,
    pub priority: u32,
}

/// A TURN server.
#[derive(Debug, Clone)]
pub struct TurnServer {
    pub url: String,
    pub username: String,
    pub credential: String,
    pub priority: u32,
}

/// Kinds of ICE candidates.
#[derive(Debug, Clone, Copy, PartialEq, Eq, Structural)]
pub enum IceCandidateType {
    Host,
    ServerReflexive,
    PeerReflexive,
    Relay,
}

/// Transports of ICE candidates.
#[derive(Debug, Clone, Copy, PartialEq, Eq, Structural)]
pub enum IceProtocol {
    Udp,
    Tcp,
}

/// An ICE candidate.
#[derive(Debug, Clone)]
pub struct IceCandidate {
    /// The SDP candidate line.
    pub candidate: String,
    pub sdp_mid: Option<String>,
    pub sdp_mline_index: Option<u16>,
    pub foundation: String,
    pub priority: u32,
    /// Textual IP address.
    pub ip: String,
    pub port: u16,
    pub candidate_type: IceCandidateType,
    pub protocol: IceProtocol,
}

/// What the network manager reports to its observers.
#[derive(Debug, Clone)]
pub enum NetworkEvent {
    QualityChanged(NetworkQuality),
    ConnectionTypeChanged(ConnectionType),
    /// From, to.
    ProtocolFallback(NetworkProtocol, NetworkProtocol),
    StatsUpdated(NetworkStats),
    QualityWarning(String),
}

/// Number of samples kept in the history.
pub const STATS_HISTORY_LEN: usize = 60;

/// Whether servers are ordered by priority, highest first.
pub open spec fn stun_sorted(s: Seq<StunServer>) -> bool {
    forall|i: int, j: int| 0 <= i < j < s.len() ==> s[i].priority >= s[j].priority
}

/// Whether servers are ordered by priority, highest first.
pub open spec fn turn_sorted(s: Seq<TurnServer>) -> bool {
    forall|i: int, j: int| 0 <= i < j < s.len() ==> s[i].priority >= s[j].priority
}

/// The kinds of a list of candidates.
pub open spec fn candidate_kinds(s: Seq<IceCandidate>) -> Seq<IceCandidateType> {
    s.map_values(|c: IceCandidate| c.candidate_type)
}

/// The connection kind that the fallback chain reaches, given the
/// preference, what is available and the servers configured.
pub open spec fn fallback_result(
    preferred: NetworkProtocol,
    ipv6: bool,
    ipv4: bool,
    stun_count: nat,
    turn_count: nat,
) -> Result<ConnectionType, CoreError> {
    if preferred == NetworkProtocol::IPv6 && ipv6 {
        Ok(ConnectionType::Direct)
    } else if ipv4 {
        Ok(ConnectionType::Direct)
    } else if stun_count > 0 {
        Ok(ConnectionType::StunDirect)
    } else if turn_count > 0 {
        Ok(ConnectionType::TurnRelay)
    } else {
        Err(CoreError::ConnectError)
    }
}

/// The warning shown when the quality turns poor: it names the round-trip
/// time and the loss.
pub open spec fn quality_warning_text(rtt: u32, loss: u32) -> Seq<char> {
    "Network quality degraded: RTT="@ + decimal_text(rtt as nat) + "ms, Loss="@ + hundredths_text(loss as nat) + "%"@
}

fn quality_warning(rtt: u32, loss: u32) -> (r: String)
    ensures
        r@ == quality_warning_text(rtt, loss),
{
    let mut t = "Network quality degraded: RTT=".to_string();
    t.append(decimal(rtt).as_str());
    t.append("ms, Loss=");
    t.append(hundredths(loss).as_str());
    t.append("%");
    t
}

/// Network manager.
pub struct NetworkManager {
    id: String,
    preferred_protocol: NetworkProtocol,
    stun_servers: Vec<StunServer>,
    turn_servers: Vec<TurnServer>,
    current_stats: NetworkStats,
    stats_history: Vec<NetworkStats>,
    events: Vec<NetworkEvent>,
    ice_candidates: Vec<IceCandidate>,
    is_monitoring: bool,
    last_quality: NetworkQuality,
    ipv6_available: bool,
    ipv4_available: bool,
}

impl NetworkManager {
    /// Servers are sorted and the history is bounded.
    pub closed spec fn wf(&self) -> bool {
        &&& stun_sorted(self.stun_servers@)
        &&& turn_sorted(self.turn_servers@)
        &&& self.stats_history@.len() <= STATS_HISTORY_LEN
    }

    pub closed spec fn stun_spec(&self) -> Seq<StunServer> {
        self.stun_servers@
    }

    pub closed spec fn turn_spec(&self) -> Seq<TurnServer> {
        self.turn_servers@
    }

    pub closed spec fn preferred_spec(&self) -> NetworkProtocol {
        self.preferred_protocol
    }

    pub closed spec fn ipv4_spec(&self) -> bool {
        self.ipv4_available
    }

    pub closed spec fn ipv6_spec(&self) -> bool {
        self.ipv6_available
    }

    pub closed spec fn history_spec(&self) -> Seq<NetworkStats> {
        self.stats_history@
    }

    pub closed spec fn current_spec(&self) -> NetworkStats {
        self.current_stats
    }

    pub closed spec fn events_spec(&self) -> Seq<NetworkEvent> {
        self.events@
    }

    pub closed spec fn last_quality_spec(&self) -> NetworkQuality {
        self.last_quality
    }

    pub closed spec fn monitoring_spec(&self) -> bool {
        self.is_monitoring
    }

    pub closed spec fn candidates_spec(&self) -> Seq<IceCandidate> {
        self.ice_candidates@
    }

    fn default_stun_server(url: &str, priority: u32) -> (r: StunServer)
        ensures
            r.url@ == url@,
            r.priority == priority,
    {
        StunServer { url: url.to_string(), username: None, credential: None, priority }
    }

    /// A manager that prefers IPv6, assumes IPv4 only until initialized, and
    /// knows two public STUN servers.
    pub fn new() -> (r: Self)
        ensures
            r.wf(),
            r.preferred_spec() == NetworkProtocol::IPv6,
            r.stun_spec().len() == 2,
            r.turn_spec().len() == 0,
            r.ipv4_spec() && !r.ipv6_spec(),
            r.history_spec().len() == 0,
            !r.monitoring_spec(),
            r.last_quality_spec() == NetworkQuality::Unknown,
    {
        let mut stun: Vec<StunServer> = Vec::new();
        stun.push(Self::default_stun_server("stun:stun.l.google.com:19302", 100));
        stun.push(Self::default_stun_server("stun:stun1.l.google.com:19302", 90));
        NetworkManager {
            id: new_uuid_v4(),
            preferred_protocol: NetworkProtocol::IPv6,
            stun_servers: stun,
            turn_servers: Vec::new(),
            current_stats: NetworkStats::new(),
            stats_history: Vec::new(),
            events: Vec::new(),
            ice_candidates: Vec::new(),
            is_monitoring: false,
            last_quality: NetworkQuality::Unknown,
            ipv6_available: false,
            ipv4_available: true,
        }
    }

    /// The manager's identifier.
    pub fn id(&self) -> &String {
        &self.id
    }

    /// Records the outcome of the reachability probes.
    pub fn initialize(&mut self, ipv4_reachable: bool, ipv6_reachable: bool)
        requires
            old(self).wf(),
        ensures
            final(self).wf(),
            final(self).ipv4_spec() == ipv4_reachable,
            final(self).ipv6_spec() == ipv6_reachable,
            final(self).stun_spec() == old(self).stun_spec(),
            final(self).turn_spec() == old(self).turn_spec(),
            final(self).preferred_spec() == old(self).preferred_spec(),
    {
        self.ipv4_available = ipv4_reachable;
        self.ipv6_available = ipv6_reachable;
    }

    /// Sets the preferred protocol.
    pub fn set_preferred_protocol(&mut self, protocol: NetworkProtocol)
        requires
            old(self).wf(),
        ensures
            final(self).wf(),
            final(self).preferred_spec() == protocol,
            final(self).ipv4_spec() == old(self).ipv4_spec(),
            final(self).ipv6_spec() == old(self).ipv6_spec(),
            final(self).stun_spec() == old(self).stun_spec(),
            final(self).turn_spec() == old(self).turn_spec(),
    {
        self.preferred_protocol = protocol;
    }

    /// The preferred protocol.
    pub fn get_preferred_protocol(&self) -> (r: NetworkProtocol)
        ensures
            r == self.preferred_spec(),
    {
        self.preferred_protocol
    }

    /// Adds a STUN server after every server of the same or higher priority
    /// and before every server of lower priority.
    pub fn add_stun_server(&mut self, server: StunServer)
        requires
            old(self).wf(),
        ensures
            final(self).wf(),
            exists|pos: int|
                0 <= pos <= old(self).stun_spec().len() && final(self).stun_spec() == old(self).stun_spec().insert(
                    pos,
                    server,
                ),
            stun_sorted(final(self).stun_spec()),
            final(self).turn_spec() == old(self).turn_spec(),
            final(self).ipv4_spec() == old(self).ipv4_spec(),
            final(self).ipv6_spec() == old(self).ipv6_spec(),
            final(self).preferred_spec() == old(self).preferred_spec(),
    {
        let mut pos: usize = 0;
        while pos < self.stun_servers.len() && self.stun_servers[pos].priority >= server.priority
            invariant
                pos <= self.stun_servers@.len(),
                forall|j: int| 0 <= j < pos ==> self.stun_servers@[j].priority >= server.priority,
            decreases self.stun_servers@.len() - pos,
        {
            pos = pos + 1;
        }
        let ghost before = self.stun_servers@;
        let ghost p = server.priority;
        let ghost sv = server;
        self.stun_servers.insert(pos, server);
        assert(self.stun_servers@ == before.insert(pos as int, sv));
        assert(self.stun_spec() == old(self).stun_spec().insert(pos as int, sv));
        assert forall|i: int, j: int| 0 <= i < j < self.stun_servers@.len() implies self.stun_servers@[i].priority
            >= self.stun_servers@[j].priority by {
            if i < pos && j > pos {
                assert(self.stun_servers@[i] == before[i]);
                assert(self.stun_servers@[j] == before[j - 1]);
            }
            if j > pos && i > pos {
                assert(self.stun_servers@[i] == before[i - 1]);
            }
            if j > pos && i == pos && pos < before.len() {
                assert(before[pos as int].priority < p);
                if j - 1 > pos {
                    assert(before[pos as int].priority >= before[j - 1].priority);
                }
            }
        }
    }

    /// Adds a TURN server after every server of the same or higher priority
    /// and before every server of lower priority.
    pub fn add_turn_server(&mut self, server: TurnServer)
        requires
            old(self).wf(),
        ensures
            final(self).wf(),
            exists|pos: int|
                0 <= pos <= old(self).turn_spec().len() && final(self).turn_spec() == old(self).turn_spec().insert(
                    pos,
                    server,
                ),
            turn_sorted(final(self).turn_spec()),
            final(self).stun_spec() == old(self).stun_spec(),
            final(self).ipv4_spec() == old(self).ipv4_spec(),
            final(self).ipv6_spec() == old(self).ipv6_spec(),
            final(self).preferred_spec() == old(self).preferred_spec(),
    {
        let mut pos: usize = 0;
        while pos < self.turn_servers.len() && self.turn_servers[pos].priority >= server.priority
            invariant
                pos <= self.turn_servers@.len(),
                forall|j: int| 0 <= j < pos ==> self.turn_servers@[j].priority >= server.priority,
            decreases self.turn_servers@.len() - pos,
        {
            pos = pos + 1;
        }
        let ghost before = self.turn_servers@;
        let ghost p = server.priority;
        let ghost sv = server;
        self.turn_servers.insert(pos, server);
        assert(self.turn_servers@ == before.insert(pos as int, sv));
        assert(self.turn_spec() == old(self).turn_spec().insert(pos as int, sv));
        assert forall|i: int, j: int| 0 <= i < j < self.turn_servers@.len() implies self.turn_servers@[i].priority
            >= self.turn_servers@[j].priority by {
            if i < pos && j > pos {
                assert(self.turn_servers@[i] == before[i]);
                assert(self.turn_servers@[j] == before[j - 1]);
            }
            if j > pos && i > pos {
                assert(self.turn_servers@[i] == before[i - 1]);
            }
            if j > pos && i == pos && pos < before.len() {
                assert(before[pos as int].priority < p);
                if j - 1 > pos {
                    assert(before[pos as int].priority >= before[j - 1].priority);
                }
            }
        }
    }

    /// The server lists are ordered by priority, highest first.
    pub proof fn lemma_servers_sorted(&self)
        requires
            self.wf(),
        ensures
            stun_sorted(self.stun_spec()),
            turn_sorted(self.turn_spec()),
    {
    }

    /// The STUN servers, highest priority first.
    pub fn get_stun_servers(&self) -> (r: &Vec<StunServer>)
        requires
            self.wf(),
        ensures
            r@ == self.stun_spec(),
            stun_sorted(r@),
    {
        &self.stun_servers
    }

    /// The TURN servers, highest priority first.
    pub fn get_turn_servers(&self) -> (r: &Vec<TurnServer>)
        requires
            self.wf(),
        ensures
            r@ == self.turn_spec(),
            turn_sorted(r@),
    {
        &self.turn_servers
    }

    /// A direct IPv6 connection attempt; this engine reaches the peer
    /// directly whenever IPv6 is available.
    fn try_ipv6_connection(&self, target: &str) -> (r: Result<ConnectionType, CoreError>)
        ensures
            r == Ok::<ConnectionType, CoreError>(ConnectionType::Direct),
    {
        Ok(ConnectionType::Direct)
    }

    /// A direct IPv4 connection attempt; this engine reaches the peer
    /// directly whenever IPv4 is available.
    fn try_ipv4_connection(&self, target: &str) -> (r: Result<ConnectionType, CoreError>)
        ensures
            r == Ok::<ConnectionType, CoreError>(ConnectionType::Direct),
    {
        Ok(ConnectionType::Direct)
    }

    /// Connection through the first STUN server that answers a binding
    /// request; `Unknown` when none is configured.
    pub fn attempt_stun_connection(&self) -> (r: Result<ConnectionType, CoreError>)
        ensures
            self.stun_spec().len() > 0 ==> r == Ok::<ConnectionType, CoreError>(ConnectionType::StunDirect),
            self.stun_spec().len() == 0 ==> r == Ok::<ConnectionType, CoreError>(ConnectionType::Unknown),
    {
        if self.stun_servers.len() > 0 {
            Ok(ConnectionType::StunDirect)
        } else {
            Ok(ConnectionType::Unknown)
        }
    }

    /// Connection through the first TURN server that grants an allocation;
    /// fails with `ConnectError` when none is configured.
    pub fn attempt_turn_connection(&self) -> (r: Result<ConnectionType, CoreError>)
        ensures
            self.turn_spec().len() > 0 ==> r == Ok::<ConnectionType, CoreError>(ConnectionType::TurnRelay),
            self.turn_spec().len() == 0 ==> r == Err::<ConnectionType, CoreError>(CoreError::ConnectError),
    {
        if self.turn_servers.len() == 0 {
            return Err(CoreError::ConnectError);
        }
        Ok(ConnectionType::TurnRelay)
    }

    /// Establishes a connection to `target`: the preferred IPv6 first, then
    /// IPv4 (reporting the fallback), then STUN, then a TURN relay.
    pub fn establish_connection(&mut self, target: &str) -> (r: Result<ConnectionType, CoreError>)
        requires
            old(self).wf(),
        ensures
            final(self).wf(),
            r == fallback_result(
                old(self).preferred_spec(),
                old(self).ipv6_spec(),
                old(self).ipv4_spec(),
                old(self).stun_spec().len(),
                old(self).turn_spec().len(),
            ),
            old(self).ipv4_spec() ==> (r matches Ok(k) && k != ConnectionType::Unknown),
            final(self).stun_spec() == old(self).stun_spec(),
            final(self).turn_spec() == old(self).turn_spec(),
            final(self).ipv4_spec() == old(self).ipv4_spec(),
            final(self).ipv6_spec() == old(self).ipv6_spec(),
    {
        if self.preferred_protocol == NetworkProtocol::IPv6 && self.ipv6_available {
            match self.try_ipv6_connection(target) {
                Ok(kind) => {
                    if kind != ConnectionType::Unknown {
                        return Ok(kind);
                    }
                },
                Err(_) => {},
            }
            self.events.push(NetworkEvent::ProtocolFallback(NetworkProtocol::IPv6, NetworkProtocol::IPv4));
        }
        if self.ipv4_available {
            match self.try_ipv4_connection(target) {
                Ok(kind) => {
                    if kind != ConnectionType::Unknown {
                        return Ok(kind);
                    }
                },
                Err(_) => {},
            }
        }
        match self.attempt_stun_connection() {
            Ok(kind) => {
                if kind != ConnectionType::Unknown {
                    return Ok(kind);
                }
            },
            Err(_) => {},
        }
        self.attempt_turn_connection()
    }

    fn host_candidate(line: &str, foundation: &str, priority: u32, ip: &str, port: u16) -> (r: IceCandidate)
        ensures
            r.candidate_type == IceCandidateType::Host,
            r.priority == priority,
            r.port == port,
    {
        IceCandidate {
            candidate: line.to_string(),
            sdp_mid: Some("0".to_string()),
            sdp_mline_index: Some(0),
            foundation: foundation.to_string(),
            priority,
            ip: ip.to_string(),
            port,
            candidate_type: IceCandidateType::Host,
            protocol: IceProtocol::Udp,
        }
    }

    /// Host candidates for each available protocol.
    fn gather_host_candidates(&self) -> (r: Vec<IceCandidate>)
        ensures
            candidate_kinds(r@) == (if self.ipv4_available {
                seq![IceCandidateType::Host]
            } else {
                seq![]
            }) + (if self.ipv6_available {
                seq![IceCandidateType::Host]
            } else {
                seq![]
            }),
    {
        let mut out: Vec<IceCandidate> = Vec::new();
        if self.ipv4_available {
            out.push(
                Self::host_candidate(
                    "candidate:1 1 UDP 2130706431 192.168.1.100 54321 typ host",
                    "1",
                    2130706431,
                    "192.168.1.100",
                    54321,
                ),
            );
        }
        if self.ipv6_available {
            out.push(
                Self::host_candidate("candidate:2 1 UDP 2130706430 ::1 54322 typ host", "2", 2130706430, "::1", 54322),
            );
        }
        assert(candidate_kinds(out@) =~= (if self.ipv4_available {
            seq![IceCandidateType::Host]
        } else {
            seq![]
        }) + (if self.ipv6_available {
            seq![IceCandidateType::Host]
        } else {
            seq![]
        }));
        out
    }

    /// One server-reflexive candidate from the first STUN server that
    /// answers.
    fn gather_srflx_candidates(&self) -> (r: Vec<IceCandidate>)
        ensures
            candidate_kinds(r@) == (if self.stun_servers@.len() > 0 {
                seq![IceCandidateType::ServerReflexive]
            } else {
                seq![]
            }),
    {
        let mut out: Vec<IceCandidate> = Vec::new();
        if self.stun_servers.len() > 0 {
            out.push(
                IceCandidate {
                    candidate: "candidate:3 1 UDP 1694498815 203.0.113.1 12345 typ srflx raddr 192.168.1.100 rport 54321".to_string(),
                    sdp_mid: Some("0".to_string()),
                    sdp_mline_index: Some(0),
                    foundation: "3".to_string(),
                    priority: 1694498815,
                    ip: "203.0.113.1".to_string(),
                    port: 12345,
                    candidate_type: IceCandidateType::ServerReflexive,
                    protocol: IceProtocol::Udp,
                },
            );
        }
        assert(candidate_kinds(out@) =~= (if self.stun_servers@.len() > 0 {
            seq![IceCandidateType::ServerReflexive]
        } else {
            seq![]
        }));
        out
    }

    /// One relay candidate from the first TURN server that grants an
    /// allocation.
    fn gather_relay_candidates(&self) -> (r: Vec<IceCandidate>)
        ensures
            candidate_kinds(r@) == (if self.turn_servers@.len() > 0 {
                seq![IceCandidateType::Relay]
            } else {
                seq![]
            }),
    {
        let mut out: Vec<IceCandidate> = Vec::new();
        if self.turn_servers.len() > 0 {
            out.push(
                IceCandidate {
                    candidate: "candidate:4 1 UDP 16777215 198.51.100.1 54321 typ relay raddr 192.168.1.100 rport 54321".to_string(),
                    sdp_mid: Some("0".to_string()),
                    sdp_mline_index: Some(0),
                    foundation: "4".to_string(),
                    priority: 16777215,
                    ip: "198.51.100.1".to_string(),
                    port: 54321,
                    candidate_type: IceCandidateType::Relay,
                    protocol: IceProtocol::Udp,
                },
            );
        }
        assert(candidate_kinds(out@) =~= (if self.turn_servers@.len() > 0 {
            seq![IceCandidateType::Relay]
        } else {
            seq![]
        }));
        out
    }

    /// Gathers host, server-reflexive and relay candidates, in that order,
    /// and keeps them.
    pub fn gather_ice_candidates(&mut self) -> (r: Vec<IceCandidate>)
        requires
            old(self).wf(),
        ensures
            final(self).wf(),
            candidate_kinds(r@) == (if old(self).ipv4_spec() {
                seq![IceCandidateType::Host]
            } else {
                seq![]
            }) + (if old(self).ipv6_spec() {
                seq![IceCandidateType::Host]
            } else {
                seq![]
            }) + (if old(self).stun_spec().len() > 0 {
                seq![IceCandidateType::ServerReflexive]
            } else {
                seq![]
            }) + (if old(self).turn_spec().len() > 0 {
                seq![IceCandidateType::Relay]
            } else {
                seq![]
            }),
            candidate_kinds(final(self).candidates_spec()) == candidate_kinds(r@),
            final(self).stun_spec() == old(self).stun_spec(),
            final(self).turn_spec() == old(self).turn_spec(),
            final(self).ipv4_spec() == old(self).ipv4_spec(),
            final(self).ipv6_spec() == old(self).ipv6_spec(),
    {
        let mut all = self.gather_host_candidates();
        let mut srflx = self.gather_srflx_candidates();
        let mut relay = self.gather_relay_candidates();
        let ghost (a, b, c) = (all@, srflx@, relay@);
        all.append(&mut srflx);
        all.append(&mut relay);
        assert(all@ == a + b + c);
        assert(candidate_kinds(all@) =~= candidate_kinds(a) + candidate_kinds(b) + candidate_kinds(c));
        let mut stored: Vec<IceCandidate> = Vec::new();
        let mut i: usize = 0;
        while i < all.len()
            invariant
                i <= all@.len(),
                stored@.len() == i,
                forall|j: int| 0 <= j < i ==> stored@[j].candidate_type == all@[j].candidate_type,
            decreases all@.len() - i,
        {
            let c = IceCandidate {
                candidate: all[i].candidate.clone(),
                sdp_mid: all[i].sdp_mid.clone(),
                sdp_mline_index: all[i].sdp_mline_index,
                foundation: all[i].foundation.clone(),
                priority: all[i].priority,
                ip: all[i].ip.clone(),
                port: all[i].port,
                candidate_type: all[i].candidate_type,
                protocol: all[i].protocol,
            };
            stored.push(c);
            i = i + 1;
        }
        assert(candidate_kinds(stored@) =~= candidate_kinds(all@));
        self.ice_candidates = stored;
        all
    }

    /// The candidates gathered last.
    pub fn get_ice_candidates(&self) -> (r: &Vec<IceCandidate>)
        ensures
            r@ == self.candidates_spec(),
    {
        &self.ice_candidates
    }

    /// Turns monitoring on; returns whether it was off.
    pub fn start_monitoring(&mut self) -> (r: bool)
        requires
            old(self).wf(),
        ensures
            final(self).wf(),
            r == !old(self).monitoring_spec(),
            final(self).monitoring_spec(),
            final(self).history_spec() == old(self).history_spec(),
            final(self).last_quality_spec() == old(self).last_quality_spec(),
    {
        if self.is_monitoring {
            return false;
        }
        self.is_monitoring = true;
        true
    }

    /// Turns monitoring off.
    pub fn stop_monitoring(&mut self)
        requires
            old(self).wf(),
        ensures
            final(self).wf(),
            !final(self).monitoring_spec(),
            final(self).history_spec() == old(self).history_spec(),
    {
        self.is_monitoring = false;
    }

    /// Whether monitoring is on.
    pub fn is_monitoring(&self) -> (r: bool)
        ensures
            r == self.monitoring_spec(),
    {
        self.is_monitoring
    }

    /// Takes one sample in: it becomes the current sample and joins the
    /// history, whose oldest sample leaves beyond 60; when the quality bucket
    /// changes, a `QualityChanged` event is emitted, followed by a
    /// `QualityWarning` for poor quality; a `StatsUpdated` event always
    /// follows.
    pub fn record_sample(&mut self, stats: NetworkStats)
        requires
            old(self).wf(),
        ensures
            final(self).wf(),
            final(self).current_spec() == stats,
            ({
                let h = old(self).history_spec().push(stats);
                final(self).history_spec() == if h.len() > STATS_HISTORY_LEN {
                    h.subrange(1, h.len() as int)
                } else {
                    h
                }
            }),
            final(self).last_quality_spec() == quality_of(stats.rtt, stats.packet_loss),
            ({
                let q = quality_of(stats.rtt, stats.packet_loss);
                let changed = q != old(self).last_quality_spec();
                let added = final(self).events_spec().subrange(
                    old(self).events_spec().len() as int,
                    final(self).events_spec().len() as int,
                );
                &&& final(self).events_spec().subrange(0, old(self).events_spec().len() as int)
                    == old(self).events_spec()
                &&& added.len() == (if changed {
                    if q == NetworkQuality::Poor {
                        3nat
                    } else {
                        2nat
                    }
                } else {
                    1nat
                })
                &&& changed ==> added[0] == NetworkEvent::QualityChanged(q)
                &&& changed && q == NetworkQuality::Poor ==> (added[1] matches NetworkEvent::QualityWarning(t) && t@
                    == quality_warning_text(stats.rtt, stats.packet_loss))
                &&& added.last() == NetworkEvent::StatsUpdated(stats)
            }),
            final(self).stun_spec() == old(self).stun_spec(),
            final(self).turn_spec() == old(self).turn_spec(),
            final(self).monitoring_spec() == old(self).monitoring_spec(),
    {
        let ghost ev0 = self.events@;
        let quality = Self::calculate_quality(&stats);
        self.stats_history.push(stats.clone_stats());
        if self.stats_history.len() > STATS_HISTORY_LEN {
            self.stats_history.remove(0);
        }
        if quality != self.last_quality {
            self.events.push(NetworkEvent::QualityChanged(quality));
            if quality == NetworkQuality::Poor {
                self.events.push(NetworkEvent::QualityWarning(quality_warning(stats.rtt, stats.packet_loss)));
            }
            self.last_quality = quality;
        }
        self.events.push(NetworkEvent::StatsUpdated(stats.clone_stats()));
        self.current_stats = stats;
        assert(self.events@.subrange(0, ev0.len() as int) =~= ev0);
    }

    /// Hands out the pending events, oldest first, and forgets them.
    pub fn take_events(&mut self) -> (r: Vec<NetworkEvent>)
        requires
            old(self).wf(),
        ensures
            final(self).wf(),
            r@ == old(self).events_spec(),
            final(self).events_spec().len() == 0,
            final(self).history_spec() == old(self).history_spec(),
    {
        let mut out: Vec<NetworkEvent> = Vec::new();
        std::mem::swap(&mut out, &mut self.events);
        out
    }

    /// The sample that the measurement path reports: 50 ms, 0.5 % loss,
    /// 10 ms jitter, 10 Mbit/s, direct over IPv4. It becomes the current
    /// sample.
    pub fn measure_network_stats(&mut self) -> (r: NetworkStats)
        requires
            old(self).wf(),
        ensures
            final(self).wf(),
            r.rtt == 50 && r.packet_loss == 50 && r.jitter == 10 && r.bandwidth == 10_000_000,
            r.connection_type == ConnectionType::Direct,
            final(self).current_spec().rtt == r.rtt,
            final(self).current_spec().packet_loss == r.packet_loss,
            final(self).history_spec() == old(self).history_spec(),
    {
        let stats = NetworkStats {
            rtt: 50,
            packet_loss: 50,
            jitter: 10,
            bandwidth: 10_000_000,
            connection_type: ConnectionType::Direct,
            local_address: Some("192.168.1.100:54321".to_string()),
            remote_address: Some("203.0.113.1:12345".to_string()),
            protocol: NetworkProtocol::IPv4,
        };
        self.current_stats = stats.clone_stats();
        stats
    }

    /// Classifies a sample by round-trip time and loss.
    pub fn calculate_quality(stats: &NetworkStats) -> (q: NetworkQuality)
        ensures
            q == quality_of(stats.rtt, stats.packet_loss),
    {
        if stats.rtt < 50 && stats.packet_loss < 100 {
            NetworkQuality::Excellent
        } else if stats.rtt < 100 && stats.packet_loss < 300 {
            NetworkQuality::Good
        } else if stats.rtt < 200 && stats.packet_loss < 500 {
            NetworkQuality::Fair
        } else {
            NetworkQuality::Poor
        }
    }

    /// The quality of the current sample.
    pub fn get_network_quality(&self) -> (q: NetworkQuality)
        ensures
            q == quality_of(self.current_spec().rtt, self.current_spec().packet_loss),
    {
        Self::calculate_quality(&self.current_stats)
    }

    /// Whether the current sample is of poor quality.
    pub fn should_show_quality_warning(&self) -> (r: bool)
        ensures
            r == (quality_of(self.current_spec().rtt, self.current_spec().packet_loss) == NetworkQuality::Poor),
    {
        self.get_network_quality() == NetworkQuality::Poor
    }

    /// The current sample.
    pub fn get_current_stats(&self) -> (r: &NetworkStats)
        ensures
            *r == self.current_spec(),
    {
        &self.current_stats
    }

    /// The recent samples, oldest first.
    pub fn get_stats_history(&self) -> (r: &Vec<NetworkStats>)
        ensures
            r@ == self.history_spec(),
    {
        &self.stats_history
    }

    /// Whether IPv6 is reachable.
    pub fn is_ipv6_available(&self) -> (r: bool)
        ensures
            r == self.ipv6_spec(),
    {
        self.ipv6_available
    }

    /// Whether IPv4 is reachable.
    pub fn is_ipv4_available(&self) -> (r: bool)
        ensures
            r == self.ipv4_spec(),
    {
        self.ipv4_available
    }

    /// The mean of the recent samples' round-trip time, loss, jitter and
    /// bandwidth (rounded down), with the other fields of the latest sample;
    /// an all-zero sample when there is no history.
    pub fn get_average_stats(&self) -> (r: NetworkStats)
        requires
            self.wf(),
        ensures
            self.history_spec().len() == 0 ==> r.rtt == 0 && r.packet_loss == 0 && r.jitter == 0 && r.bandwidth == 0,
            self.history_spec().len() > 0 ==> {
                let h = self.history_spec();
                &&& r.rtt == sum_rtt(h) / h.len()
                &&& r.packet_loss == sum_loss(h) / h.len()
                &&& r.jitter == sum_jitter(h) / h.len()
                &&& r.bandwidth == sum_bandwidth(h) / h.len()
            },
    {
        let n = self.stats_history.len();
        if n == 0 {
            return NetworkStats::new();
        }
        let mut rtt: u64 = 0;
        let mut loss: u64 = 0;
        let mut jitter: u64 = 0;
        let mut bw: u128 = 0;
        let mut i: usize = 0;
        while i < n
            invariant
                n == self.stats_history@.len(),
                n <= STATS_HISTORY_LEN,
                i <= n,
                rtt == sum_rtt(self.stats_history@.subrange(0, i as int)),
                loss == sum_loss(self.stats_history@.subrange(0, i as int)),
                jitter == sum_jitter(self.stats_history@.subrange(0, i as int)),
                bw == sum_bandwidth(self.stats_history@.subrange(0, i as int)),
                rtt <= i * 0xffff_ffff,
                loss <= i * 0xffff_ffff,
                jitter <= i * 0xffff_ffff,
                bw <= i * 0xffff_ffff_ffff_ffff,
            decreases n - i,
        {
            let s = &self.stats_history[i];
            proof {
                assert(self.stats_history@.subrange(0, i + 1).drop_last() =~= self.stats_history@.subrange(0, i as int));
            }
            rtt = rtt + s.rtt as u64;
            loss = loss + s.packet_loss as u64;
            jitter = jitter + s.jitter as u64;
            bw = bw + s.bandwidth as u128;
            i = i + 1;
        }
        assert(self.stats_history@.subrange(0, n as int) =~= self.stats_history@);
        let last = &self.stats_history[n - 1];
        proof {
            lemma_div_bound(rtt as int, n as int, 0xffff_ffff);
            lemma_div_bound(loss as int, n as int, 0xffff_ffff);
            lemma_div_bound(jitter as int, n as int, 0xffff_ffff);
            lemma_div_bound(bw as int, n as int, 0xffff_ffff_ffff_ffff);
        }
        NetworkStats {
            rtt: (rtt / n as u64) as u32,
            packet_loss: (loss / n as u64) as u32,
            jitter: (jitter / n as u64) as u32,
            bandwidth: (bw / n as u128) as u64,
            connection_type: last.connection_type,
            local_address: last.local_address.clone(),
            remote_address: last.remote_address.clone(),
            protocol: last.protocol,
        }
    }
}

proof fn lemma_div_bound(total: int, n: int, max: int)
    requires
        n > 0,
        0 <= total <= n * max,
        max >= 0,
    ensures
        total / n <= max,
{
    assert(total / n <= max) by (nonlinear_arith)
        requires
            n > 0,
            0 <= total <= n * max,
            max >= 0,
    ;
}

/// Sum of the round-trip times.
pub open spec fn sum_rtt(h: Seq<NetworkStats>) -> nat
    decreases h.len(),
{
    if h.len() == 0 {
        0
    } else {
        (sum_rtt(h.drop_last()) + h.last().rtt) as nat
    }
}

/// Sum of the losses.
pub open spec fn sum_loss(h: Seq<NetworkStats>) -> nat
    decreases h.len(),
{
    if h.len() == 0 {
        0
    } else {
        (sum_loss(h.drop_last()) + h.last().packet_loss) as nat
    }
}

/// Sum of the jitters.
pub open spec fn sum_jitter(h: Seq<NetworkStats>) -> nat
    decreases h.len(),
{
    if h.len() == 0 {
        0
    } else {
        (sum_jitter(h.drop_last()) + h.last().jitter) as nat
    }
}

/// Sum of the bandwidths.
pub open spec fn sum_bandwidth(h: Seq<NetworkStats>) -> nat
    decreases h.len(),
{
    if h.len() == 0 {
        0
    } else {
        (sum_bandwidth(h.drop_last()) + h.last().bandwidth) as nat
    }
}

impl NetworkStats {
    /// A copy of the sample.
    pub fn clone_stats(&self) -> (r: Self)
        ensures
            r == *self,
    {
        NetworkStats {
            rtt: self.rtt,
            packet_loss: self.packet_loss,
            jitter: self.jitter,
            bandwidth: self.bandwidth,
            connection_type: self.connection_type,
            local_address: self.local_address.clone(),
            remote_address: self.remote_address.clone(),
            protocol: self.protocol,
        }
    }
}

/// The fallback chain never ends on an unknown connection kind while IPv4 is
/// available.
pub proof fn lemma_fallback_with_ipv4(preferred: NetworkProtocol, ipv6: bool, stun_count: nat, turn_count: nat)
    ensures
        fallback_result(preferred, ipv6, true, stun_count, turn_count) matches Ok(k) && k != ConnectionType::Unknown,
{
}

} // verus!

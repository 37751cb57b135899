//! Network and system diagnostics: server reachability, NAT type and an
//! overall verdict with recommendations for the user.
//!
//! Instants are whole seconds since the Unix epoch, handed in by the caller.

use vstd::prelude::*;
use crate::crypto::random_below;
use crate::text::decimal;

verus! {

/// NAT types.
#[derive(Debug, Clone, Copy, PartialEq, Eq, Structural)]
pub enum NatType {
    Unknown,
    OpenInternet,
    FullCone,
    RestrictedCone,
    PortRestrictedCone,
    Symmetric,
    SymmetricUdpFirewall,
    Blocked,
}

impl NatType {
    /// The NAT type's description for display.
    pub fn to_string(&self) -> (r: String)
        ensures
            *self == NatType::Unknown ==> r@ == "未知"@,
            *self == NatType::OpenInternet ==> r@ == "开放网络"@,
            *self == NatType::FullCone ==> r@ == "完全锥形NAT"@,
            *self == NatType::RestrictedCone ==> r@ == "受限锥形NAT"@,
            *self == NatType::PortRestrictedCone ==> r@ == "端口受限锥形NAT"@,
            *self == NatType::Symmetric ==> r@ == "对称NAT"@,
            *self == NatType::SymmetricUdpFirewall ==> r@ == "对称UDP防火墙"@,
            *self == NatType::Blocked ==> r@ == "被阻止"@,
    {
        match self {
            NatType::Unknown => "未知".to_string(),
            NatType::OpenInternet => "开放网络".to_string(),
            NatType::FullCone => "完全锥形NAT".to_string(),
            NatType::RestrictedCone => "受限锥形NAT".to_string(),
            NatType::PortRestrictedCone => "端口受限锥形NAT".to_string(),
            NatType::Symmetric => "对称NAT".to_string(),
            NatType::SymmetricUdpFirewall => "对称UDP防火墙".to_string(),
            NatType::Blocked => "被阻止".to_string(),
        }
    }
}

/// Overall verdict of a diagnosis.
#[derive(Debug, Clone, Copy, PartialEq, Eq, Structural)]
pub enum DiagnosticStatus {
    Unknown,
    Good,
    Warning,
    Critical,
}

impl DiagnosticStatus {
    /// The verdict's description for display.
    pub fn to_string(&self) -> (r: String)
        ensures
            *self == DiagnosticStatus::Unknown ==> r@ == "未知"@,
            *self == DiagnosticStatus::Good ==> r@ == "良好"@,
            *self == DiagnosticStatus::Warning ==> r@ == "警告"@,
            *self == DiagnosticStatus::Critical ==> r@ == "严重"@,
    {
        match self {
            DiagnosticStatus::Unknown => "未知".to_string(),
            DiagnosticStatus::Good => "良好".to_string(),
            DiagnosticStatus::Warning => "警告".to_string(),
            DiagnosticStatus::Critical => "严重".to_string(),
        }
    }
}

/// Reachability of one server.
#[derive(Debug, Clone)]
pub struct ServerStatus {
    pub name: String,
    pub url: String,
    pub reachable: bool,
    pub latency_ms: Option<u32>,
    pub error: Option<String>,
    pub last_check: u64,
}

impl ServerStatus {
    /// A server not yet found reachable, checked at `now`.
    pub fn new(name: &str, url: &str, now: u64) -> (r: Self)
        ensures
            r.name@ == name@ && r.url@ == url@,
            !r.reachable && r.latency_ms is None && r.error is None && r.last_check == now,
    {
        ServerStatus {
            name: name.to_string(),
            url: url.to_string(),
            reachable: false,
            latency_ms: None,
            error: None,
            last_check: now,
        }
    }

    /// The server answered at `now` after `latency_ms`.
    pub fn success(self, latency_ms: u32, now: u64) -> (r: Self)
        ensures
            r.reachable && r.latency_ms == Some(latency_ms) && r.last_check == now,
            r.name == self.name && r.url == self.url && r.error == self.error,
    {
        ServerStatus { reachable: true, latency_ms: Some(latency_ms), last_check: now, ..self }
    }

    /// The server failed at `now` with `error`.
    pub fn failure(self, error: &str, now: u64) -> (r: Self)
        ensures
            !r.reachable && r.last_check == now,
            r.error matches Some(e) && e@ == error@,
            r.name == self.name && r.url == self.url && r.latency_ms == self.latency_ms,
    {
        ServerStatus { reachable: false, error: Some(error.to_string()), last_check: now, ..self }
    }
}

/// Whether any server of a list is reachable.
pub open spec fn any_reachable(s: Seq<ServerStatus>) -> bool {
    exists|i: int| 0 <= i < s.len() && #[trigger] s[i].reachable
}

/// The verdict of a diagnosis: critical without internet, signaling server
/// or any STUN/TURN server, or when UDP is blocked; a warning behind a
/// symmetric NAT without TURN; good otherwise.
pub open spec fn verdict(
    internet: bool,
    signaling: bool,
    stun: bool,
    turn: bool,
    nat_type: NatType,
) -> DiagnosticStatus {
    if !internet || !signaling || (!stun && !turn) {
        DiagnosticStatus::Critical
    } else {
        match nat_type {
            NatType::Symmetric | NatType::SymmetricUdpFirewall => if turn {
                DiagnosticStatus::Good
            } else {
                DiagnosticStatus::Warning
            },
            NatType::Blocked => DiagnosticStatus::Critical,
            _ => DiagnosticStatus::Good,
        }
    }
}

/// Result of a network diagnosis.
#[derive(Debug, Clone)]
pub struct NetworkDiagnostics {
    pub timestamp: u64,
    pub internet_connected: bool,
    pub ipv4_available: bool,
    pub ipv6_available: bool,
    pub public_ipv4: Option<String>,
    pub public_ipv6: Option<String>,
    pub local_ipv4: Option<String>,
    pub local_ipv6: Option<String>,
    pub nat_type: NatType,
    pub signaling_server: ServerStatus,
    pub stun_servers: Vec<ServerStatus>,
    pub turn_servers: Vec<ServerStatus>,
    pub overall_status: DiagnosticStatus,
    pub recommendations: Vec<String>,
}

fn any_server_reachable(s: &Vec<ServerStatus>) -> (r: bool)
    ensures
        r == any_reachable(s@),
{
    let mut i: usize = 0;
    while i < s.len()
        invariant
            i <= s@.len(),
            forall|j: int| 0 <= j < i ==> !s@[j].reachable,
        decreases s@.len() - i,
    {
        if s[i].reachable {
            return true;
        }
        i = i + 1;
    }
    false
}

impl NetworkDiagnostics {
    /// An empty diagnosis at `now`.
    pub fn new(now: u64) -> (r: Self)
        ensures
            r.timestamp == now,
            !r.internet_connected,
            r.nat_type == NatType::Unknown,
            r.overall_status == DiagnosticStatus::Unknown,
            r.stun_servers@.len() == 0 && r.turn_servers@.len() == 0 && r.recommendations@.len() == 0,
            !r.signaling_server.reachable,
    {
        NetworkDiagnostics {
            timestamp: now,
            internet_connected: false,
            ipv4_available: false,
            ipv6_available: false,
            public_ipv4: None,
            public_ipv6: None,
            local_ipv4: None,
            local_ipv6: None,
            nat_type: NatType::Unknown,
            signaling_server: ServerStatus::new("Signaling", "", now),
            stun_servers: Vec::new(),
            turn_servers: Vec::new(),
            overall_status: DiagnosticStatus::Unknown,
            recommendations: Vec::new(),
        }
    }

    /// Sets the overall verdict (see `verdict`) and adds the matching
    /// recommendations, plus one when the signaling server answers slower
    /// than 200 ms.
    pub fn calculate_overall_status(&mut self)
        ensures
            final(self).overall_status == verdict(
                old(self).internet_connected,
                old(self).signaling_server.reachable,
                any_reachable(old(self).stun_servers@),
                any_reachable(old(self).turn_servers@),
                old(self).nat_type,
            ),
            final(self).recommendations@.len() >= old(self).recommendations@.len(),
            final(self).overall_status != DiagnosticStatus::Good ==> final(self).recommendations@.len() > old(self).recommendations@.len(),
            final(self).stun_servers == old(self).stun_servers,
            final(self).turn_servers == old(self).turn_servers,
            final(self).nat_type == old(self).nat_type,
            final(self).internet_connected == old(self).internet_connected,
            final(self).signaling_server == old(self).signaling_server,
    {
        if !self.internet_connected {
            self.overall_status = DiagnosticStatus::Critical;
            self.recommendations.push("请检查网络连接".to_string());
            return;
        }
        if !self.signaling_server.reachable {
            self.overall_status = DiagnosticStatus::Critical;
            self.recommendations.push("无法连接信令服务器，请检查网络设置".to_string());
            return;
        }
        let stun_reachable = any_server_reachable(&self.stun_servers);
        let turn_reachable = any_server_reachable(&self.turn_servers);
        if !stun_reachable && !turn_reachable {
            self.overall_status = DiagnosticStatus::Critical;
            self.recommendations.push("无法连接STUN/TURN服务器，可能无法建立P2P连接".to_string());
            return;
        }
        match self.nat_type {
            NatType::Symmetric | NatType::SymmetricUdpFirewall => {
                if !turn_reachable {
                    self.overall_status = DiagnosticStatus::Warning;
                    self.recommendations.push("检测到对称NAT，建议确保TURN服务器可用".to_string());
                } else {
                    self.overall_status = DiagnosticStatus::Good;
                    self.recommendations.push("检测到对称NAT，将使用TURN中继".to_string());
                }
            },
            NatType::Blocked => {
                self.overall_status = DiagnosticStatus::Critical;
                self.recommendations.push("UDP被阻止，请检查防火墙设置".to_string());
            },
            _ => {
                self.overall_status = DiagnosticStatus::Good;
            },
        }
        match self.signaling_server.latency_ms {
            Some(latency) => {
                if latency > 200 {
                    let mut note = "信令服务器延迟较高 (".to_string();
                    let digits = decimal(latency);
                    note.append(digits.as_str());
                    note.append("ms)，可能影响连接建立速度");
                    self.recommendations.push(note);
                }
            },
            None => {},
        }
    }
}

/// Result of a system diagnosis.
#[derive(Debug, Clone)]
pub struct SystemDiagnostics {
    pub timestamp: u64,
    pub os_name: String,
    pub os_version: String,
    /// Percent.
    pub cpu_usage_percent: u32,
    /// Percent.
    pub memory_usage_percent: u32,
    pub available_memory_mb: u64,
    /// Percent.
    pub disk_usage_percent: u32,
    pub screen_capture_available: bool,
    pub audio_capture_available: bool,
    pub hardware_acceleration_available: bool,
    pub supported_codecs: Vec<String>,
}

impl SystemDiagnostics {
    /// A diagnosis of the system `os_name` at `now`, with the codecs this
    /// engine supports.
    pub fn new(os_name: String, now: u64) -> (r: Self)
        ensures
            r.os_name@ == os_name@,
            r.timestamp == now,
            r.supported_codecs@.len() == 3,
            r.screen_capture_available && r.audio_capture_available,
    {
        let mut codecs: Vec<String> = Vec::new();
        codecs.push("H.264".to_string());
        codecs.push("VP8".to_string());
        codecs.push("VP9".to_string());
        SystemDiagnostics {
            timestamp: now,
            os_name,
            os_version: "Unknown".to_string(),
            cpu_usage_percent: 0,
            memory_usage_percent: 0,
            available_memory_mb: 0,
            disk_usage_percent: 0,
            screen_capture_available: true,
            audio_capture_available: true,
            hardware_acceleration_available: false,
            supported_codecs: codecs,
        }
    }
}

/// Runs diagnostics against the configured servers.
pub struct DiagnosticsManager {
    signaling_url: String,
    stun_urls: Vec<String>,
    turn_urls: Vec<String>,
}

impl DiagnosticsManager {
    pub closed spec fn signaling_spec(&self) -> Seq<char> {
        self.signaling_url@
    }

    pub closed spec fn stun_spec(&self) -> Seq<String> {
        self.stun_urls@
    }

    pub closed spec fn turn_spec(&self) -> Seq<String> {
        self.turn_urls@
    }

    /// A manager with no servers configured.
    pub fn new() -> (r: Self)
        ensures
            r.signaling_spec().len() == 0,
            r.stun_spec().len() == 0,
            r.turn_spec().len() == 0,
    {
        DiagnosticsManager { signaling_url: String::new(), stun_urls: Vec::new(), turn_urls: Vec::new() }
    }

    /// Sets the server URLs.
    pub fn configure(&mut self, signaling_url: &str, stun_urls: Vec<String>, turn_urls: Vec<String>)
        ensures
            final(self).signaling_spec() == signaling_url@,
            final(self).stun_spec() == stun_urls@,
            final(self).turn_spec() == turn_urls@,
    {
        self.signaling_url = signaling_url.to_string();
        self.stun_urls = stun_urls;
        self.turn_urls = turn_urls;
    }

    /// Checks a server at `now`: one without a URL fails; the others answer
    /// within 30 to 79 ms.
    fn check_server(&self, name: &str, url: &str, now: u64) -> (r: ServerStatus)
        ensures
            r.reachable <==> url@.len() > 0,
            r.reachable ==> (r.latency_ms matches Some(l) && 30 <= l < 80),
    {
        let status = ServerStatus::new(name, url, now);
        if url.unicode_len() == 0 {
            return status.failure("URL未配置", now);
        }
        let latency = 30 + random_below(50);
        status.success(latency, now)
    }

    /// The local IPv4 address.
    pub fn get_local_ipv4(&self) -> (r: Option<String>)
        ensures
            r is Some,
    {
        Some("192.168.1.100".to_string())
    }

    /// The local IPv6 address.
    pub fn get_local_ipv6(&self) -> (r: Option<String>)
        ensures
            r is Some,
    {
        Some("fe80::1".to_string())
    }

    /// Runs a network diagnosis at `now`: every configured server is
    /// checked, the NAT type is determined and the verdict is computed.
    pub fn run_network_diagnostics(&self, now: u64) -> (r: NetworkDiagnostics)
        ensures
            r.internet_connected,
            r.stun_servers@.len() == self.stun_spec().len(),
            r.turn_servers@.len() == self.turn_spec().len(),
            r.signaling_server.reachable <==> self.signaling_spec().len() > 0,
            r.nat_type == NatType::FullCone,
            r.overall_status == verdict(
                true,
                r.signaling_server.reachable,
                any_reachable(r.stun_servers@),
                any_reachable(r.turn_servers@),
                NatType::FullCone,
            ),
    {
        let mut diagnostics = NetworkDiagnostics::new(now);
        diagnostics.internet_connected = true;
        diagnostics.local_ipv4 = self.get_local_ipv4();
        diagnostics.local_ipv6 = self.get_local_ipv6();
        diagnostics.ipv4_available = true;
        diagnostics.ipv6_available = true;
        diagnostics.signaling_server = self.check_server("Signaling", self.signaling_url.as_str(), now);
        let mut i: usize = 0;
        while i < self.stun_urls.len()
            invariant
                i <= self.stun_urls@.len(),
                diagnostics.stun_servers@.len() == i,
                diagnostics.turn_servers@.len() == 0,
                diagnostics.internet_connected,
                diagnostics.signaling_server.reachable <==> self.signaling_url@.len() > 0,
            decreases self.stun_urls@.len() - i,
        {
            let status = self.check_server("STUN", self.stun_urls[i].as_str(), now);
            if status.reachable && diagnostics.public_ipv4.is_none() {
                diagnostics.public_ipv4 = Some("203.0.113.1".to_string());
            }
            diagnostics.stun_servers.push(status);
            i = i + 1;
        }
        let mut j: usize = 0;
        while j < self.turn_urls.len()
            invariant
                j <= self.turn_urls@.len(),
                diagnostics.stun_servers@.len() == self.stun_urls@.len(),
                diagnostics.turn_servers@.len() == j,
                diagnostics.internet_connected,
                diagnostics.signaling_server.reachable <==> self.signaling_url@.len() > 0,
            decreases self.turn_urls@.len() - j,
        {
            let status = self.check_server("TURN", self.turn_urls[j].as_str(), now);
            diagnostics.turn_servers.push(status);
            j = j + 1;
        }
        diagnostics.nat_type = NatType::FullCone;
        diagnostics.calculate_overall_status();
        diagnostics
    }

    /// A system diagnosis of `os_name` at `now`.
    pub fn run_system_diagnostics(&self, os_name: String, now: u64) -> (r: SystemDiagnostics)
        ensures
            r.os_name@ == os_name@,
            r.cpu_usage_percent == 25 && r.memory_usage_percent == 60,
            r.available_memory_mb == 8192 && r.disk_usage_percent == 45,
    {
        let mut diagnostics = SystemDiagnostics::new(os_name, now);
        diagnostics.cpu_usage_percent = 25;
        diagnostics.memory_usage_percent = 60;
        diagnostics.available_memory_mb = 8192;
        diagnostics.disk_usage_percent = 45;
        diagnostics
    }
}

impl Default for DiagnosticsManager {
    fn default() -> (r: Self)
        ensures
            r.signaling_spec().len() == 0,
    {
        DiagnosticsManager::new()
    }
}

} // verus!

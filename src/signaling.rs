//! Signaling client: the tagged message union, the outbound queue, the
//! handling of inbound messages, offer/answer correlation and metrics.
//!
//! The channel itself (a WebSocket carrying JSON text frames) is run by the
//! host: it reports connection changes and received messages here, and
//! sends what this client queues. Instants are milliseconds since the Unix
//! epoch, handed in by the caller.

use vstd::prelude::*;
use crate::crypto::{format_rfc3339, is_uuid_v4_text, new_uuid_v4};
use crate::error::CoreError;
use crate::table::Table;

verus! {

/// What a device can do.
#[derive(Debug, Clone, Copy)]
pub struct DeviceCapabilities {
    pub screen_capture: bool,
    pub audio_capture: bool,
    pub file_transfer: bool,
    pub input_control: bool,
}

/// A device as announced over signaling.
#[derive(Debug, Clone)]
pub struct DeviceInfo {
    pub device_id: String,
    pub device_name: String,
    pub platform: String,
    pub version: String,
    pub capabilities: DeviceCapabilities,
}

impl DeviceInfo {
    /// A copy of the record.
    pub fn duplicate(&self) -> (r: Self)
        ensures
            r == *self,
    {
        DeviceInfo {
            device_id: self.device_id.clone(),
            device_name: self.device_name.clone(),
            platform: self.platform.clone(),
            version: self.version.clone(),
            capabilities: self.capabilities,
        }
    }
}

/// Presence of a device.
#[derive(Debug, Clone)]
pub struct DeviceStatus {
    pub device_id: String,
    pub online: bool,
    /// RFC 3339.
    pub last_seen: String,
}

/// The messages of the signaling protocol.
#[derive(Debug, Clone)]
pub enum SignalingMessage {
    Register(DeviceInfo),
    RegisterResponse { device_id: String, success: bool },
    QueryStatus { device_id: String },
    StatusResponse(DeviceStatus),
    Offer { from: String, to: String, sdp: String },
    Answer { from: String, to: String, sdp: String },
    IceCandidate { from: String, to: String, candidate: String },
    ConnectionRequest { from: String, device_info: DeviceInfo },
    ConnectionResponse { from: String, to: String, accepted: bool },
    Heartbeat { device_id: String },
    HeartbeatAck,
    Error { code: u32, message: String },
}

/// What the client reports to its observers.
#[derive(Debug, Clone)]
pub enum SignalingEvent {
    Connected,
    Disconnected,
    OfferReceived { from: String, sdp: String },
    AnswerReceived { from: String, sdp: String },
    IceCandidateReceived { from: String, candidate: String },
    ConnectionRequest { from: String, device_info: DeviceInfo },
    ConnectionResponse { from: String, accepted: bool },
    Error { code: u32, message: String },
}

/// Counters and gauges of the client.
#[derive(Debug, Clone, Copy)]
pub struct SignalingMetrics {
    pub messages_sent: u64,
    pub messages_received: u64,
    /// Mean offer-to-answer time in milliseconds, rounded down.
    pub avg_rtt_ms: u64,
    pub last_exchange_duration_ms: u64,
    pub successful_exchanges: u64,
    pub failed_exchanges: u64,
    /// Sum of all offer-to-answer times, saturating.
    pub total_exchange_ms: u64,
    /// Frames dropped because they did not parse.
    pub parse_errors: u64,
}

impl Default for SignalingMetrics {
    fn default() -> (r: Self)
        ensures
            r.messages_sent == 0 && r.messages_received == 0 && r.avg_rtt_ms == 0,
            r.last_exchange_duration_ms == 0 && r.successful_exchanges == 0 && r.failed_exchanges == 0,
            r.total_exchange_ms == 0 && r.parse_errors == 0,
    {
        SignalingMetrics {
            messages_sent: 0,
            messages_received: 0,
            avg_rtt_ms: 0,
            last_exchange_duration_ms: 0,
            successful_exchanges: 0,
            failed_exchanges: 0,
            total_exchange_ms: 0,
            parse_errors: 0,
        }
    }
}

/// The design target for an offer-to-answer exchange, in milliseconds.
pub const EXCHANGE_TARGET_MS: u64 = 5000;

/// The key under which an offer exchange with `peer` is tracked.
pub open spec fn exchange_key(peer: Seq<char>) -> Seq<char> {
    "offer_"@ + peer
}

/// `x + 1`, saturating.
pub open spec fn sat_inc(x: u64) -> u64 {
    if x == u64::MAX {
        x
    } else {
        (x + 1) as u64
    }
}

/// `a + b`, saturating.
pub open spec fn sat_add(a: u64, b: u64) -> u64 {
    if a + b > u64::MAX {
        u64::MAX
    } else {
        (a + b) as u64
    }
}

/// The metrics after an answer closes an exchange of `duration` ms.
pub open spec fn metrics_after_exchange(m: SignalingMetrics, duration: u64) -> SignalingMetrics {
    let n = sat_inc(m.successful_exchanges);
    let total = sat_add(m.total_exchange_ms, duration);
    SignalingMetrics {
        last_exchange_duration_ms: duration,
        successful_exchanges: n,
        total_exchange_ms: total,
        avg_rtt_ms: (total / n) as u64,
        ..m
    }
}

fn exchange_key_of(peer: &str) -> (r: String)
    ensures
        r@ == exchange_key(peer@),
{
    proof {
        reveal_strlit("offer_");
    }
    "offer_".to_string().concat(peer)
}

/// The signaling client's state.
pub struct SignalingClient {
    device_id: Option<String>,
    server_url: String,
    connected: bool,
    outbox: Vec<SignalingMessage>,
    events: Vec<SignalingEvent>,
    registered_devices: Table<DeviceInfo>,
    metrics: SignalingMetrics,
    pending_exchanges: Table<u64>,
}

impl SignalingClient {
    pub closed spec fn wf(&self) -> bool {
        self.registered_devices.wf() && self.pending_exchanges.wf()
    }

    pub closed spec fn device_id_spec(&self) -> Option<String> {
        self.device_id
    }

    pub closed spec fn connected_spec(&self) -> bool {
        self.connected
    }

    pub closed spec fn outbox_spec(&self) -> Seq<SignalingMessage> {
        self.outbox@
    }

    pub closed spec fn events_spec(&self) -> Seq<SignalingEvent> {
        self.events@
    }

    pub closed spec fn devices(&self) -> Map<Seq<char>, DeviceInfo> {
        self.registered_devices@
    }

    pub closed spec fn metrics_spec(&self) -> SignalingMetrics {
        self.metrics
    }

    /// Start instants of the open exchanges, by exchange key.
    pub closed spec fn exchanges(&self) -> Map<Seq<char>, u64> {
        self.pending_exchanges@
    }

    /// A disconnected client for the server at `server_url`.
    pub fn new(server_url: String) -> (r: Self)
        ensures
            r.wf(),
            !r.connected_spec(),
            r.device_id_spec() is None,
            r.outbox_spec().len() == 0,
            r.events_spec().len() == 0,
            r.exchanges() == Map::<Seq<char>, u64>::empty(),
    {
        SignalingClient {
            device_id: None,
            server_url,
            connected: false,
            outbox: Vec::new(),
            events: Vec::new(),
            registered_devices: Table::new(),
            metrics: SignalingMetrics::default(),
            pending_exchanges: Table::new(),
        }
    }

    /// The server URL.
    pub fn server_url(&self) -> &String {
        &self.server_url
    }

    /// The channel is open.
    pub fn on_connected(&mut self)
        requires
            old(self).wf(),
        ensures
            final(self).wf(),
            final(self).connected_spec(),
            final(self).events_spec() == old(self).events_spec().push(SignalingEvent::Connected),
            final(self).exchanges() == old(self).exchanges(),
    {
        self.connected = true;
        self.events.push(SignalingEvent::Connected);
    }

    /// The channel closed: queued messages are dropped.
    pub fn on_disconnected(&mut self)
        requires
            old(self).wf(),
        ensures
            final(self).wf(),
            !final(self).connected_spec(),
            final(self).outbox_spec().len() == 0,
            final(self).events_spec() == old(self).events_spec().push(SignalingEvent::Disconnected),
            final(self).exchanges() == old(self).exchanges(),
    {
        self.connected = false;
        self.outbox = Vec::new();
        self.events.push(SignalingEvent::Disconnected);
    }

    /// Closes the channel from this side and drops the queued messages.
    pub fn disconnect(&mut self)
        requires
            old(self).wf(),
        ensures
            final(self).wf(),
            !final(self).connected_spec(),
            final(self).outbox_spec().len() == 0,
            final(self).events_spec() == old(self).events_spec(),
    {
        self.connected = false;
        self.outbox = Vec::new();
    }

    /// Queues a message for sending. Fails with `NotConnected` while the
    /// channel is closed.
    pub fn send_message(&mut self, msg: SignalingMessage) -> (r: Result<(), CoreError>)
        requires
            old(self).wf(),
        ensures
            final(self).wf(),
            r is Ok <==> old(self).connected_spec(),
            r matches Err(e) ==> e == CoreError::NotConnected && final(self).outbox_spec() == old(self).outbox_spec(),
            r is Ok ==> final(self).outbox_spec() == old(self).outbox_spec().push(msg),
            final(self).connected_spec() == old(self).connected_spec(),
            final(self).device_id_spec() == old(self).device_id_spec(),
            final(self).exchanges() == old(self).exchanges(),
            final(self).devices() == old(self).devices(),
            final(self).events_spec() == old(self).events_spec(),
            final(self).metrics_spec() == old(self).metrics_spec(),
    {
        if !self.connected {
            return Err(CoreError::NotConnected);
        }
        self.outbox.push(msg);
        Ok(())
    }

    /// Hands out the queued messages, oldest first, for the channel to send.
    pub fn take_outgoing(&mut self) -> (r: Vec<SignalingMessage>)
        requires
            old(self).wf(),
        ensures
            final(self).wf(),
            r@ == old(self).outbox_spec(),
            final(self).outbox_spec().len() == 0,
            final(self).connected_spec() == old(self).connected_spec(),
    {
        let mut out: Vec<SignalingMessage> = Vec::new();
        std::mem::swap(&mut out, &mut self.outbox);
        out
    }

    /// Hands out the pending events, oldest first.
    pub fn take_events(&mut self) -> (r: Vec<SignalingEvent>)
        requires
            old(self).wf(),
        ensures
            final(self).wf(),
            r@ == old(self).events_spec(),
            final(self).events_spec().len() == 0,
            final(self).connected_spec() == old(self).connected_spec(),
    {
        let mut out: Vec<SignalingEvent> = Vec::new();
        std::mem::swap(&mut out, &mut self.events);
        out
    }

    /// A frame went out.
    pub fn on_message_sent(&mut self)
        ensures
            final(self).metrics_spec() == (SignalingMetrics {
                messages_sent: sat_inc(old(self).metrics_spec().messages_sent),
                ..old(self).metrics_spec()
            }),
    {
        self.metrics.messages_sent = self.metrics.messages_sent.saturating_add(1);
    }

    /// A frame came in.
    pub fn on_frame_received(&mut self)
        ensures
            final(self).metrics_spec() == (SignalingMetrics {
                messages_received: sat_inc(old(self).metrics_spec().messages_received),
                ..old(self).metrics_spec()
            }),
    {
        self.metrics.messages_received = self.metrics.messages_received.saturating_add(1);
    }

    /// A frame did not parse and was dropped.
    pub fn on_parse_error(&mut self)
        ensures
            final(self).metrics_spec() == (SignalingMetrics {
                parse_errors: sat_inc(old(self).metrics_spec().parse_errors),
                ..old(self).metrics_spec()
            }),
    {
        self.metrics.parse_errors = self.metrics.parse_errors.saturating_add(1);
    }

    /// Handles an inbound message at `now`: a successful registration
    /// response sets the device ID; an offer opens an exchange with its
    /// sender; an answer closes the exchange opened with its sender, if any,
    /// and records its duration; a connection request caches the sender's
    /// device; offers, answers, candidates, connection requests and
    /// responses and errors are reported as events.
    pub fn handle_message(&mut self, msg: SignalingMessage, now: u64)
        requires
            old(self).wf(),
        ensures
            final(self).wf(),
            final(self).connected_spec() == old(self).connected_spec(),
            final(self).outbox_spec() == old(self).outbox_spec(),
            (msg matches SignalingMessage::RegisterResponse { success, .. } && success) ==> final(self).device_id_spec() == Some(msg->RegisterResponse_device_id),
            !(msg matches SignalingMessage::RegisterResponse { success, .. } && success) ==> final(self).device_id_spec() == old(self).device_id_spec(),
            (msg matches SignalingMessage::Offer { from, .. }) ==> final(self).exchanges() == old(self).exchanges().insert(exchange_key(msg->Offer_from@), now),
            (msg matches SignalingMessage::Answer { from, .. }) ==> ({
                let key = exchange_key(msg->Answer_from@);
                &&& final(self).exchanges() == old(self).exchanges().remove(key)
                &&& old(self).exchanges().contains_key(key) ==> final(self).metrics_spec() == metrics_after_exchange(
                    old(self).metrics_spec(),
                    if now >= old(self).exchanges()[key] {
                        (now - old(self).exchanges()[key]) as u64
                    } else {
                        0
                    },
                )
                &&& !old(self).exchanges().contains_key(key) ==> final(self).metrics_spec() == old(self).metrics_spec()
            }),
            !(msg is Offer) && !(msg is Answer) ==> final(self).exchanges() == old(self).exchanges(),
            !(msg is Answer) ==> final(self).metrics_spec() == old(self).metrics_spec(),
            (msg matches SignalingMessage::ConnectionRequest { from, device_info }) ==> final(self).devices()
                == old(self).devices().insert(msg->ConnectionRequest_from@, msg->ConnectionRequest_device_info),
            !(msg is ConnectionRequest) ==> final(self).devices() == old(self).devices(),
            msg is Offer ==> final(self).events_spec() == old(self).events_spec().push(SignalingEvent::OfferReceived { from: msg->Offer_from, sdp: msg->Offer_sdp }),
            msg is Answer ==> final(self).events_spec() == old(self).events_spec().push(SignalingEvent::AnswerReceived { from: msg->Answer_from, sdp: msg->Answer_sdp }),
            msg is IceCandidate ==> final(self).events_spec() == old(self).events_spec().push(SignalingEvent::IceCandidateReceived {
                    from: msg->IceCandidate_from,
                    candidate: msg->IceCandidate_candidate,
                }),
            msg is ConnectionRequest ==> final(self).events_spec()
                == old(self).events_spec().push(SignalingEvent::ConnectionRequest {
                    from: msg->ConnectionRequest_from,
                    device_info: msg->ConnectionRequest_device_info,
                }),
            msg is ConnectionResponse ==> final(self).events_spec()
                == old(self).events_spec().push(SignalingEvent::ConnectionResponse {
                    from: msg->ConnectionResponse_from,
                    accepted: msg->ConnectionResponse_accepted,
                }),
            msg is Error ==> final(self).events_spec() == old(self).events_spec().push(SignalingEvent::Error { code: msg->Error_code, message: msg->Error_message }),
            !(msg is Offer || msg is Answer || msg is IceCandidate || msg is ConnectionRequest || msg is ConnectionResponse
                || msg is Error) ==> final(self).events_spec() == old(self).events_spec(),
    {
        match msg {
            SignalingMessage::RegisterResponse { device_id, success } => {
                if success {
                    self.device_id = Some(device_id);
                }
            },
            SignalingMessage::Offer { from, sdp, .. } => {
                let key = exchange_key_of(from.as_str());
                self.pending_exchanges.insert(key, now);
                self.events.push(SignalingEvent::OfferReceived { from, sdp });
            },
            SignalingMessage::Answer { from, sdp, .. } => {
                let key = exchange_key_of(from.as_str());
                match self.pending_exchanges.remove(key.as_str()) {
                    Some(start) => {
                        let duration = if now >= start {
                            now - start
                        } else {
                            0
                        };
                        let n = self.metrics.successful_exchanges.saturating_add(1);
                        let total = self.metrics.total_exchange_ms.saturating_add(duration);
                        self.metrics.last_exchange_duration_ms = duration;
                        self.metrics.successful_exchanges = n;
                        self.metrics.total_exchange_ms = total;
                        self.metrics.avg_rtt_ms = total / n;
                    },
                    None => {},
                }
                self.events.push(SignalingEvent::AnswerReceived { from, sdp });
            },
            SignalingMessage::IceCandidate { from, candidate, .. } => {
                self.events.push(SignalingEvent::IceCandidateReceived { from, candidate });
            },
            SignalingMessage::ConnectionRequest { from, device_info } => {
                self.registered_devices.insert(from.clone(), device_info.duplicate());
                self.events.push(SignalingEvent::ConnectionRequest { from, device_info });
            },
            SignalingMessage::ConnectionResponse { from, accepted, .. } => {
                self.events.push(SignalingEvent::ConnectionResponse { from, accepted });
            },
            SignalingMessage::Error { code, message } => {
                self.events.push(SignalingEvent::Error { code, message });
            },
            _ => {},
        }
    }

    /// Registers `device_info` with the server: queues the registration,
    /// caches the device and takes its ID. Fails with `NotConnected` while
    /// the channel is closed.
    pub fn register_device(&mut self, device_info: DeviceInfo) -> (r: Result<String, CoreError>)
        requires
            old(self).wf(),
        ensures
            final(self).wf(),
            r is Ok <==> old(self).connected_spec(),
            r matches Err(e) ==> e == CoreError::NotConnected && final(self).device_id_spec() == old(self).device_id_spec() && final(self).outbox_spec() == old(self).outbox_spec(),
            r matches Ok(id) ==> {
                &&& id@ == device_info.device_id@
                &&& final(self).device_id_spec() matches Some(d) && d@ == id@
                &&& final(self).devices() == old(self).devices().insert(id@, device_info)
                &&& final(self).outbox_spec() == old(self).outbox_spec().push(SignalingMessage::Register(device_info))
            },
    {
        let cached = device_info.duplicate();
        let id = device_info.device_id.clone();
        self.send_message(SignalingMessage::Register(device_info))?;
        self.registered_devices.insert(id.clone(), cached);
        self.device_id = Some(id.clone());
        Ok(id)
    }

    /// Asks the server for the status of `device_id` and reports it online,
    /// last seen at `now_secs`. Fails with `NotConnected` while the channel
    /// is closed.
    pub fn query_device_status(&mut self, device_id: &str, now_secs: i64) -> (r: Result<DeviceStatus, CoreError>)
        requires
            old(self).wf(),
        ensures
            final(self).wf(),
            r is Ok <==> old(self).connected_spec(),
            r matches Err(e) ==> e == CoreError::NotConnected,
            r matches Ok(s) ==> s.device_id@ == device_id@ && s.online && final(self).outbox_spec().len()
                == old(self).outbox_spec().len() + 1,
    {
        self.send_message(SignalingMessage::QueryStatus { device_id: device_id.to_string() })?;
        let last_seen = match format_rfc3339(now_secs) {
            Some(t) => t,
            None => String::new(),
        };
        Ok(DeviceStatus { device_id: device_id.to_string(), online: true, last_seen })
    }

    fn own_id(&self) -> (r: Result<String, CoreError>)
        ensures
            r is Err <==> self.device_id_spec() is None,
            r matches Err(e) ==> e == CoreError::NotRegistered,
            r matches Ok(id) ==> self.device_id_spec() == Some(id),
    {
        match &self.device_id {
            Some(id) => Ok(id.clone()),
            None => Err(CoreError::NotRegistered),
        }
    }

    /// Sends an offer to `target_id` at `now` and opens the exchange with it.
    /// Fails with `NotRegistered` before registration and `NotConnected`
    /// while the channel is closed; nothing changes then.
    pub fn send_offer(&mut self, target_id: &str, offer_sdp: &str, now: u64) -> (r: Result<(), CoreError>)
        requires
            old(self).wf(),
        ensures
            final(self).wf(),
            old(self).device_id_spec() is Some && old(self).connected_spec() ==> r is Ok,
            old(self).device_id_spec() is None ==> r == Err::<(), CoreError>(CoreError::NotRegistered),
            old(self).device_id_spec() is Some && !old(self).connected_spec() ==> r == Err::<(), CoreError>(
                CoreError::NotConnected,
            ),
            r is Err ==> final(self).exchanges() == old(self).exchanges() && final(self).outbox_spec() == old(self).outbox_spec(),
            r is Ok ==> old(self).device_id_spec() is Some && old(self).connected_spec(),
            r is Ok ==> final(self).exchanges() == old(self).exchanges().insert(exchange_key(target_id@), now),
            r is Ok ==> final(self).outbox_spec().len() == old(self).outbox_spec().len() + 1 && (final(self).outbox_spec().last() matches SignalingMessage::Offer { from, to, sdp } && old(self).device_id_spec() == Some(from) && to@ == target_id@
                && sdp@ == offer_sdp@),
    {
        let device_id = self.own_id()?;
        let msg = SignalingMessage::Offer {
            from: device_id,
            to: target_id.to_string(),
            sdp: offer_sdp.to_string(),
        };
        self.send_message(msg)?;
        let key = exchange_key_of(target_id);
        self.pending_exchanges.insert(key, now);
        Ok(())
    }

    /// Sends an answer to `target_id`. Fails with `NotRegistered` before
    /// registration and `NotConnected` while the channel is closed.
    pub fn send_answer(&mut self, target_id: &str, answer_sdp: &str) -> (r: Result<(), CoreError>)
        requires
            old(self).wf(),
        ensures
            final(self).wf(),
            old(self).device_id_spec() is Some && old(self).connected_spec() ==> r is Ok,
            old(self).device_id_spec() is None ==> r == Err::<(), CoreError>(CoreError::NotRegistered),
            old(self).device_id_spec() is Some && !old(self).connected_spec() ==> r == Err::<(), CoreError>(
                CoreError::NotConnected,
            ),
            r is Ok ==> final(self).outbox_spec().len() == old(self).outbox_spec().len() + 1 && (final(self).outbox_spec().last() matches SignalingMessage::Answer { from, to, sdp } && old(self).device_id_spec() == Some(from) && to@ == target_id@
                && sdp@ == answer_sdp@),
            r is Err ==> final(self).outbox_spec() == old(self).outbox_spec(),
    {
        let device_id = self.own_id()?;
        self.send_message(
            SignalingMessage::Answer { from: device_id, to: target_id.to_string(), sdp: answer_sdp.to_string() },
        )
    }

    /// Sends an ICE candidate to `target_id`. Fails with `NotRegistered`
    /// before registration and `NotConnected` while the channel is closed.
    pub fn send_ice_candidate(&mut self, target_id: &str, candidate: &str) -> (r: Result<(), CoreError>)
        requires
            old(self).wf(),
        ensures
            final(self).wf(),
            old(self).device_id_spec() is Some && old(self).connected_spec() ==> r is Ok,
            old(self).device_id_spec() is None ==> r == Err::<(), CoreError>(CoreError::NotRegistered),
            old(self).device_id_spec() is Some && !old(self).connected_spec() ==> r == Err::<(), CoreError>(
                CoreError::NotConnected,
            ),
            r is Ok ==> final(self).outbox_spec().len() == old(self).outbox_spec().len() + 1 && (final(self).outbox_spec().last() matches SignalingMessage::IceCandidate { from, to, candidate: c } && old(self).device_id_spec() == Some(from) && to@
                == target_id@ && c@ == candidate@),
            r is Err ==> final(self).outbox_spec() == old(self).outbox_spec(),
    {
        let device_id = self.own_id()?;
        self.send_message(
            SignalingMessage::IceCandidate {
                from: device_id,
                to: target_id.to_string(),
                candidate: candidate.to_string(),
            },
        )
    }

    /// Sends a connection request with this device's details. Fails with
    /// `NotRegistered` before registration and `NotConnected` while the
    /// channel is closed.
    pub fn send_connection_request(&mut self, target_id: &str, device_info: DeviceInfo) -> (r: Result<(), CoreError>)
        requires
            old(self).wf(),
        ensures
            final(self).wf(),
            old(self).device_id_spec() is Some && old(self).connected_spec() ==> r is Ok,
            old(self).device_id_spec() is None ==> r == Err::<(), CoreError>(CoreError::NotRegistered),
            old(self).device_id_spec() is Some && !old(self).connected_spec() ==> r == Err::<(), CoreError>(
                CoreError::NotConnected,
            ),
            r is Ok ==> final(self).outbox_spec() == old(self).outbox_spec().push(
                SignalingMessage::ConnectionRequest { from: old(self).device_id_spec()->0, device_info },
            ),
            r is Err ==> final(self).outbox_spec() == old(self).outbox_spec(),
    {
        let device_id = self.own_id()?;
        self.send_message(SignalingMessage::ConnectionRequest { from: device_id, device_info })
    }

    /// Answers a connection request of `target_id`. Fails with
    /// `NotRegistered` before registration and `NotConnected` while the
    /// channel is closed.
    pub fn respond_to_connection(&mut self, target_id: &str, accepted: bool) -> (r: Result<(), CoreError>)
        requires
            old(self).wf(),
        ensures
            final(self).wf(),
            old(self).device_id_spec() is Some && old(self).connected_spec() ==> r is Ok,
            old(self).device_id_spec() is None ==> r == Err::<(), CoreError>(CoreError::NotRegistered),
            old(self).device_id_spec() is Some && !old(self).connected_spec() ==> r == Err::<(), CoreError>(
                CoreError::NotConnected,
            ),
            r is Ok ==> final(self).outbox_spec().len() == old(self).outbox_spec().len() + 1 && (final(self).outbox_spec().last() matches SignalingMessage::ConnectionResponse { from, to, accepted: a } && old(self).device_id_spec() == Some(from) && to@
                == target_id@ && a == accepted),
            r is Err ==> final(self).outbox_spec() == old(self).outbox_spec(),
    {
        let device_id = self.own_id()?;
        self.send_message(
            SignalingMessage::ConnectionResponse { from: device_id, to: target_id.to_string(), accepted },
        )
    }

    /// Sends a heartbeat. Fails with `NotRegistered` before registration and
    /// `NotConnected` while the channel is closed.
    pub fn send_heartbeat(&mut self) -> (r: Result<(), CoreError>)
        requires
            old(self).wf(),
        ensures
            final(self).wf(),
            old(self).device_id_spec() is Some && old(self).connected_spec() ==> r is Ok,
            old(self).device_id_spec() is None ==> r == Err::<(), CoreError>(CoreError::NotRegistered),
            old(self).device_id_spec() is Some && !old(self).connected_spec() ==> r == Err::<(), CoreError>(
                CoreError::NotConnected,
            ),
            r is Ok ==> final(self).outbox_spec().len() == old(self).outbox_spec().len() + 1 && (final(self).outbox_spec().last() matches SignalingMessage::Heartbeat { device_id } && old(self).device_id_spec() == Some(device_id)),
            r is Err ==> final(self).outbox_spec() == old(self).outbox_spec(),
    {
        let device_id = self.own_id()?;
        self.send_message(SignalingMessage::Heartbeat { device_id })
    }

    /// This device's ID, once registered.
    pub fn get_device_id(&self) -> (r: Option<String>)
        ensures
            r == self.device_id_spec(),
    {
        self.device_id.clone()
    }

    /// Whether the channel is open.
    pub fn is_connected(&self) -> (r: bool)
        ensures
            r == self.connected_spec(),
    {
        self.connected
    }

    /// The metrics.
    pub fn get_metrics(&self) -> (r: SignalingMetrics)
        ensures
            r == self.metrics_spec(),
    {
        self.metrics
    }

    /// A cached device.
    pub fn get_cached_device(&self, device_id: &str) -> (r: Option<DeviceInfo>)
        requires
            self.wf(),
        ensures
            r is Some <==> self.devices().contains_key(device_id@),
            r matches Some(d) ==> d == self.devices()[device_id@],
    {
        match self.registered_devices.get(device_id) {
            Some(d) => Some(d.duplicate()),
            None => None,
        }
    }
}

/// A fresh random device ID: a version 4 UUID in hyphenated lower-case form.
pub fn generate_device_id() -> (r: String)
    ensures
        is_uuid_v4_text(r@),
{
    new_uuid_v4()
}

} // verus!

//! Session lifecycle: the session state machine, per-session statistics,
//! bounded history, permission requests and session events.
//!
//! Instants are whole seconds since the Unix epoch, handed in by the caller.

use vstd::prelude::*;
use crate::crypto::{is_uuid_v4_text, new_uuid_v4};
use crate::error::CoreError;
use crate::table::Table;

verus! {

/// Lifecycle state of a session.
#[derive(Debug, Clone, Copy, PartialEq, Eq, Structural)]
pub enum SessionStatus {
    Pending,
    Active,
    Paused,
    Ended,
    Failed,
}

/// What a session lets the controller do.
#[derive(Debug, Clone, Copy, PartialEq, Eq, Structural)]
pub enum Permission {
    ScreenView,
    InputControl,
    FileTransfer,
    AudioCapture,
    SystemControl,
}

/// Quality of a session's link.
#[derive(Debug, Clone, Copy, PartialEq, Eq, Structural)]
pub enum ConnectionQuality {
    Excellent,
    Good,
    Fair,
    Poor,
}

/// How a session's peers are connected.
#[derive(Debug, Clone, Copy, PartialEq, Eq, Structural)]
pub enum ConnectionType {
    Direct,
    Relay,
    Unknown,
}

/// The quality rule of sessions over round-trip time, loss (hundredths of a
/// percent) and jitter.
pub open spec fn session_quality(rtt: u32, loss: u32, jitter: u32) -> ConnectionQuality {
    if rtt < 50 && loss < 100 && jitter < 10 {
        ConnectionQuality::Excellent
    } else if rtt < 100 && loss < 300 && jitter < 20 {
        ConnectionQuality::Good
    } else if rtt < 200 && loss < 500 && jitter < 50 {
        ConnectionQuality::Fair
    } else {
        ConnectionQuality::Poor
    }
}

impl ConnectionQuality {
    /// Classifies a link by round-trip time, loss (hundredths of a percent)
    /// and jitter.
    pub fn from_metrics(rtt: u32, packet_loss: u32, jitter: u32) -> (r: Self)
        ensures
            r == session_quality(rtt, packet_loss, jitter),
    {
        if rtt < 50 && packet_loss < 100 && jitter < 10 {
            ConnectionQuality::Excellent
        } else if rtt < 100 && packet_loss < 300 && jitter < 20 {
            ConnectionQuality::Good
        } else if rtt < 200 && packet_loss < 500 && jitter < 50 {
            ConnectionQuality::Fair
        } else {
            ConnectionQuality::Poor
        }
    }
}

/// Statistics of a session.
#[derive(Debug, Clone, Copy)]
pub struct SessionStats {
    pub duration_secs: u64,
    pub bytes_sent: u64,
    pub bytes_received: u64,
    pub average_latency_ms: u32,
    pub max_latency_ms: u32,
    pub min_latency_ms: u32,
    /// Hundredths of a percent.
    pub packet_loss_percent: u32,
    pub jitter_ms: u32,
    pub frames_sent: u64,
    pub frames_received: u64,
    pub connection_quality: ConnectionQuality,
    pub connection_type: ConnectionType,
}

impl Default for SessionStats {
    fn default() -> (r: Self)
        ensures
            r.duration_secs == 0 && r.bytes_sent == 0 && r.bytes_received == 0,
            r.average_latency_ms == 0 && r.max_latency_ms == 0 && r.min_latency_ms == u32::MAX,
            r.packet_loss_percent == 0 && r.jitter_ms == 0,
            r.connection_quality == ConnectionQuality::Good,
            r.connection_type == ConnectionType::Direct,
    {
        SessionStats {
            duration_secs: 0,
            bytes_sent: 0,
            bytes_received: 0,
            average_latency_ms: 0,
            max_latency_ms: 0,
            min_latency_ms: u32::MAX,
            packet_loss_percent: 0,
            jitter_ms: 0,
            frames_sent: 0,
            frames_received: 0,
            connection_quality: ConnectionQuality::Good,
            connection_type: ConnectionType::Direct,
        }
    }
}

/// `a + b`, or the largest `u64` where that overflows.
pub open spec fn sat_add(a: u64, b: u64) -> u64 {
    if a + b > u64::MAX {
        u64::MAX
    } else {
        (a + b) as u64
    }
}

/// The statistics after one update at `now` of a session started at `start`.
pub open spec fn updated_stats(
    s: SessionStats,
    start: u64,
    now: u64,
    latency: u32,
    loss: u32,
    jitter: u32,
    sent: u64,
    received: u64,
) -> SessionStats {
    SessionStats {
        duration_secs: if now >= start {
            (now - start) as u64
        } else {
            0
        },
        bytes_sent: sat_add(s.bytes_sent, sent),
        bytes_received: sat_add(s.bytes_received, received),
        average_latency_ms: if latency == 0 {
            s.average_latency_ms
        } else if s.average_latency_ms == 0 {
            latency
        } else {
            ((s.average_latency_ms * 9 + latency) / 10) as u32
        },
        max_latency_ms: if latency > 0 && latency > s.max_latency_ms {
            latency
        } else {
            s.max_latency_ms
        },
        min_latency_ms: if latency > 0 && latency < s.min_latency_ms {
            latency
        } else {
            s.min_latency_ms
        },
        packet_loss_percent: loss,
        jitter_ms: jitter,
        connection_quality: session_quality(latency, loss, jitter),
        ..s
    }
}

/// A remote-control session.
#[derive(Debug)]
pub struct Session {
    pub session_id: String,
    pub controller_id: String,
    pub controlled_id: String,
    pub start_time: u64,
    /// Set exactly when the session has ended.
    pub end_time: Option<u64>,
    pub status: SessionStatus,
    pub permissions: Vec<Permission>,
    pub stats: SessionStats,
    pub metadata: Table<String>,
}

impl Session {
    /// A pending session started at `now`, with a fresh UUID.
    pub fn new(controller_id: String, controlled_id: String, permissions: Vec<Permission>, now: u64) -> (r: Self)
        ensures
            r.wf(),
            is_uuid_v4_text(r.session_id@),
            r.controller_id@ == controller_id@,
            r.controlled_id@ == controlled_id@,
            r.start_time == now,
            r.end_time is None,
            r.status == SessionStatus::Pending,
            r.permissions@ == permissions@,
    {
        Session {
            session_id: new_uuid_v4(),
            controller_id,
            controlled_id,
            start_time: now,
            end_time: None,
            status: SessionStatus::Pending,
            permissions,
            stats: SessionStats::default(),
            metadata: Table::new(),
        }
    }

    /// The end time is set exactly when the session has ended.
    pub open spec fn wf(&self) -> bool {
        &&& self.metadata.wf()
        &&& (self.end_time is Some <==> self.status == SessionStatus::Ended)
    }

    /// Seconds from the start to the end, or to `now` while it runs.
    pub fn duration_secs(&self, now: u64) -> (r: u64)
        ensures
            r == (if self.end_time is Some {
                if self.end_time->0 >= self.start_time {
                    self.end_time->0 - self.start_time
                } else {
                    0
                }
            } else if now >= self.start_time {
                now - self.start_time
            } else {
                0
            }),
    {
        let end = match self.end_time {
            Some(t) => t,
            None => now,
        };
        if end >= self.start_time {
            end - self.start_time
        } else {
            0
        }
    }

    /// Folds one measurement at `now` into the statistics: byte counters
    /// grow (saturating), a nonzero latency moves the average by a tenth of
    /// the way and widens the extremes, loss and jitter are replaced and the
    /// quality is recomputed.
    pub fn update_stats(&mut self, latency: u32, packet_loss: u32, jitter: u32, bytes_delta: (u64, u64), now: u64)
        requires
            old(self).end_time is None,
        ensures
            final(self).stats == updated_stats(
                old(self).stats,
                old(self).start_time,
                now,
                latency,
                packet_loss,
                jitter,
                bytes_delta.0,
                bytes_delta.1,
            ),
            final(self).session_id == old(self).session_id,
            final(self).status == old(self).status,
            final(self).end_time == old(self).end_time,
            final(self).start_time == old(self).start_time,
            final(self).metadata == old(self).metadata,
    {
        self.stats.duration_secs = self.duration_secs(now);
        self.stats.bytes_sent = self.stats.bytes_sent.saturating_add(bytes_delta.0);
        self.stats.bytes_received = self.stats.bytes_received.saturating_add(bytes_delta.1);
        if latency > 0 {
            if self.stats.average_latency_ms == 0 {
                self.stats.average_latency_ms = latency;
            } else {
                let avg = (self.stats.average_latency_ms as u64 * 9 + latency as u64) / 10;
                self.stats.average_latency_ms = avg as u32;
            }
            if latency > self.stats.max_latency_ms {
                self.stats.max_latency_ms = latency;
            }
            if latency < self.stats.min_latency_ms {
                self.stats.min_latency_ms = latency;
            }
        }
        self.stats.packet_loss_percent = packet_loss;
        self.stats.jitter_ms = jitter;
        self.stats.connection_quality = ConnectionQuality::from_metrics(latency, packet_loss, jitter);
    }
}

/// Options for a new session.
#[derive(Debug, Clone)]
pub struct SessionOptions {
    pub permissions: Vec<Permission>,
    pub auto_accept: bool,
    pub session_timeout_secs: u64,
    pub require_encryption: bool,
}

impl Default for SessionOptions {
    fn default() -> (r: Self)
        ensures
            r.permissions@ == seq![Permission::ScreenView, Permission::InputControl],
            !r.auto_accept,
            r.session_timeout_secs == 3600,
            r.require_encryption,
    {
        let mut p: Vec<Permission> = Vec::new();
        p.push(Permission::ScreenView);
        p.push(Permission::InputControl);
        assert(p@ =~= seq![Permission::ScreenView, Permission::InputControl]);
        SessionOptions { permissions: p, auto_accept: false, session_timeout_secs: 3600, require_encryption: true }
    }
}

/// Why a session ended.
#[derive(Debug, Clone, PartialEq, Eq)]
pub enum EndReason {
    UserRequested,
    RemoteDisconnect,
    Timeout,
    NetworkError,
    AuthenticationFailed,
    PermissionDenied,
    SystemError(String),
}

impl EndReason {
    /// A copy of the reason.
    pub fn duplicate(&self) -> (r: Self)
        ensures
            r == *self,
    {
        match self {
            EndReason::UserRequested => EndReason::UserRequested,
            EndReason::RemoteDisconnect => EndReason::RemoteDisconnect,
            EndReason::Timeout => EndReason::Timeout,
            EndReason::NetworkError => EndReason::NetworkError,
            EndReason::AuthenticationFailed => EndReason::AuthenticationFailed,
            EndReason::PermissionDenied => EndReason::PermissionDenied,
            EndReason::SystemError(msg) => EndReason::SystemError(msg.clone()),
        }
    }

    /// A description of the reason for display.
    pub fn describe(&self) -> (r: String) {
        match self {
            EndReason::UserRequested => "用户主动断开".to_string(),
            EndReason::RemoteDisconnect => "远程设备断开".to_string(),
            EndReason::Timeout => "会话超时".to_string(),
            EndReason::NetworkError => "网络错误".to_string(),
            EndReason::AuthenticationFailed => "认证失败".to_string(),
            EndReason::PermissionDenied => "权限被拒绝".to_string(),
            EndReason::SystemError(msg) => "系统错误: ".to_string().concat(msg.as_str()),
        }
    }
}

/// A finished session, as kept in the history.
#[derive(Debug)]
pub struct SessionRecord {
    pub session_id: String,
    pub controller_id: String,
    pub controlled_id: String,
    pub start_time: u64,
    pub end_time: u64,
    pub duration_secs: u64,
    /// `Ended`, or `Failed` after a fatal error.
    pub final_status: SessionStatus,
    pub end_reason: EndReason,
    pub final_stats: SessionStats,
}

/// A request for permissions, valid for five minutes.
#[derive(Debug, Clone)]
pub struct PermissionRequest {
    pub request_id: String,
    pub from_device_id: String,
    pub to_device_id: String,
    pub permissions: Vec<Permission>,
    pub message: Option<String>,
    pub created_at: u64,
    pub expires_at: u64,
}

/// Validity of a permission request in seconds.
pub const PERMISSION_REQUEST_VALIDITY_SECS: u64 = 300;

impl PermissionRequest {
    /// A request made at `now`, with a fresh UUID.
    pub fn new(from_device_id: String, to_device_id: String, permissions: Vec<Permission>, now: u64) -> (r: Self)
        ensures
            is_uuid_v4_text(r.request_id@),
            r.from_device_id@ == from_device_id@,
            r.to_device_id@ == to_device_id@,
            r.permissions@ == permissions@,
            r.created_at == now,
            r.expires_at == sat_add(now, PERMISSION_REQUEST_VALIDITY_SECS),
    {
        PermissionRequest {
            request_id: new_uuid_v4(),
            from_device_id,
            to_device_id,
            permissions,
            message: None,
            created_at: now,
            expires_at: now.saturating_add(PERMISSION_REQUEST_VALIDITY_SECS),
        }
    }

    /// Whether the request has expired at `now`.
    pub fn is_expired(&self, now: u64) -> (r: bool)
        ensures
            r == (now > self.expires_at),
    {
        now > self.expires_at
    }
}

/// What the session manager reports to its subscribers.
#[derive(Debug, Clone)]
pub enum SessionEvent {
    Created { session_id: String, controller_id: String, controlled_id: String },
    Started { session_id: String },
    Paused { session_id: String },
    Resumed { session_id: String },
    Ended { session_id: String, reason: EndReason },
    Failed { session_id: String, reason: EndReason },
    StatsUpdated { session_id: String, stats: SessionStats },
    PermissionRequested { request_id: String, permissions: Vec<Permission> },
    PermissionGranted { request_id: String },
    PermissionDenied { request_id: String },
}

/// Totals over the active sessions and the history.
#[derive(Debug, Clone, Copy)]
pub struct SessionSummaryStats {
    pub active_sessions: usize,
    pub total_sessions_30_days: usize,
    pub total_duration_secs: u64,
    pub average_duration_secs: u64,
}

/// Whether a session in state `from` may move to `to`.
pub open spec fn transition_allowed(from: SessionStatus, to: SessionStatus) -> bool {
    match (from, to) {
        (SessionStatus::Pending, SessionStatus::Active) => true,
        (SessionStatus::Active, SessionStatus::Paused) => true,
        (SessionStatus::Paused, SessionStatus::Active) => true,
        (SessionStatus::Pending, SessionStatus::Ended) => true,
        (SessionStatus::Active, SessionStatus::Ended) => true,
        (SessionStatus::Paused, SessionStatus::Ended) => true,
        (SessionStatus::Pending, SessionStatus::Failed) => true,
        (SessionStatus::Active, SessionStatus::Failed) => true,
        (SessionStatus::Paused, SessionStatus::Failed) => true,
        _ => false,
    }
}

/// Ended and failed sessions are terminal: no transition leaves them.
pub proof fn lemma_terminal_states(to: SessionStatus)
    ensures
        !transition_allowed(SessionStatus::Ended, to),
        !transition_allowed(SessionStatus::Failed, to),
{
}

/// Sum of the durations of history records.
pub open spec fn total_duration(h: Seq<SessionRecord>) -> nat
    decreases h.len(),
{
    if h.len() == 0 {
        0
    } else {
        (total_duration(h.drop_last()) + h.last().duration_secs) as nat
    }
}

/// Whether a record that ended at `end_time` is kept at `now` under a
/// retention of `days` days.
pub open spec fn record_kept(end_time: u64, now: u64, days: u32) -> bool {
    now < days * 86400 || end_time > now - days * 86400
}

/// The records of `h` kept at `now`, in order.
pub open spec fn recent_records(h: Seq<SessionRecord>, now: u64, days: u32) -> Seq<SessionRecord>
    decreases h.len(),
{
    if h.len() == 0 {
        seq![]
    } else {
        let rest = recent_records(h.drop_last(), now, days);
        if record_kept(h.last().end_time, now, days) {
            rest.push(h.last())
        } else {
            rest
        }
    }
}

/// Session manager.
pub struct SessionManager {
    local_device_id: String,
    active_sessions: Table<Session>,
    session_history: Vec<SessionRecord>,
    pending_requests: Table<PermissionRequest>,
    events: Vec<SessionEvent>,
    history_retention_days: u32,
}

impl SessionManager {
    /// Tables are well formed and every session is.
    pub closed spec fn wf(&self) -> bool {
        &&& self.active_sessions.wf()
        &&& self.pending_requests.wf()
        &&& forall|k: Seq<char>| #[trigger] self.active_sessions@.contains_key(k) ==> self.active_sessions@[k].wf()
            && self.active_sessions@[k].end_time is None && self.active_sessions@[k].session_id@ == k
    }

    pub closed spec fn sessions(&self) -> Map<Seq<char>, Session> {
        self.active_sessions@
    }

    pub closed spec fn history(&self) -> Seq<SessionRecord> {
        self.session_history@
    }

    pub closed spec fn requests(&self) -> Map<Seq<char>, PermissionRequest> {
        self.pending_requests@
    }

    pub closed spec fn events_spec(&self) -> Seq<SessionEvent> {
        self.events@
    }

    pub closed spec fn retention_days(&self) -> u32 {
        self.history_retention_days
    }

    pub closed spec fn local_id(&self) -> Seq<char> {
        self.local_device_id@
    }

    /// A manager for the device `local_device_id`, keeping 30 days of
    /// history.
    pub fn new(local_device_id: String) -> (r: Self)
        ensures
            r.wf(),
            r.local_id() == local_device_id@,
            r.sessions() == Map::<Seq<char>, Session>::empty(),
            r.history().len() == 0,
            r.retention_days() == 30,
    {
        SessionManager {
            local_device_id,
            active_sessions: Table::new(),
            session_history: Vec::new(),
            pending_requests: Table::new(),
            events: Vec::new(),
            history_retention_days: 30,
        }
    }

    /// Sets how many days of history are kept.
    pub fn set_history_retention_days(&mut self, days: u32)
        requires
            old(self).wf(),
        ensures
            final(self).wf(),
            final(self).retention_days() == days,
            final(self).sessions() == old(self).sessions(),
    {
        self.history_retention_days = days;
    }

    /// Hands out the pending events, oldest first, and forgets them.
    pub fn take_events(&mut self) -> (r: Vec<SessionEvent>)
        requires
            old(self).wf(),
        ensures
            final(self).wf(),
            r@ == old(self).events_spec(),
            final(self).events_spec().len() == 0,
            final(self).sessions() == old(self).sessions(),
    {
        let mut out: Vec<SessionEvent> = Vec::new();
        std::mem::swap(&mut out, &mut self.events);
        out
    }

    /// Creates a pending session at `now` with `remote_id` as the controlled
    /// device and returns its ID.
    pub fn create_session(&mut self, remote_id: String, options: SessionOptions, now: u64) -> (r: String)
        requires
            old(self).wf(),
        ensures
            final(self).wf(),
            final(self).events_spec().drop_last() == old(self).events_spec(),
            final(self).events_spec().last() matches SessionEvent::Created { session_id: sid, controller_id: c, controlled_id: d }
                && sid@ == r@ && c@ == old(self).local_id() && d@ == remote_id@,
            is_uuid_v4_text(r@),
            final(self).sessions().contains_key(r@),
            final(self).sessions()[r@].status == SessionStatus::Pending,
            final(self).sessions()[r@].controller_id@ == old(self).local_id(),
            final(self).sessions()[r@].controlled_id@ == remote_id@,
            final(self).sessions()[r@].start_time == now,
            final(self).sessions()[r@].permissions@ == options.permissions@,
            final(self).sessions().remove(r@) == old(self).sessions().remove(r@),
            final(self).events_spec().len() == old(self).events_spec().len() + 1,
            final(self).history() == old(self).history(),
    {
        let session = Session::new(self.local_device_id.clone(), remote_id.clone(), options.permissions, now);
        let id = session.session_id.clone();
        self.active_sessions.insert(session.session_id.clone(), session);
        let ghost evs = self.events@;
        self.events.push(
            SessionEvent::Created {
                session_id: id.clone(),
                controller_id: self.local_device_id.clone(),
                controlled_id: remote_id,
            },
        );
        assert(self.events@.drop_last() == evs);
        proof {
            assert(self.sessions().remove(id@) =~= old(self).sessions().remove(id@));
        }
        id
    }

    fn set_status(&mut self, session_id: &str, from: SessionStatus, to: SessionStatus) -> (r: Result<(), CoreError>)
        requires
            old(self).wf(),
            to != SessionStatus::Ended,
        ensures
            final(self).wf(),
            !old(self).sessions().contains_key(session_id@) ==> r == Err::<(), CoreError>(CoreError::NotFound),
            old(self).sessions().contains_key(session_id@) && old(self).sessions()[session_id@].status != from ==> r
                == Err::<(), CoreError>(CoreError::InvalidParam),
            r is Err ==> final(self).sessions() == old(self).sessions(),
            r is Ok <==> old(self).sessions().contains_key(session_id@) && old(self).sessions()[session_id@].status
                == from,
            r is Ok ==> final(self).sessions().contains_key(session_id@) && final(self).sessions()[session_id@].status
                == to && final(self).sessions()[session_id@].stats == old(self).sessions()[session_id@].stats
                && final(self).sessions().remove(session_id@) == old(self).sessions().remove(session_id@),
            final(self).history() == old(self).history(),
            final(self).events_spec() == old(self).events_spec(),
            final(self).requests() == old(self).requests(),
    {
        let current = match self.active_sessions.get(session_id) {
            Some(s) => s.status,
            None => {
                return Err(CoreError::NotFound);
            },
        };
        if current != from {
            return Err(CoreError::InvalidParam);
        }
        let mut session = self.active_sessions.remove(session_id).unwrap();
        session.status = to;
        let key = session.session_id.clone();
        self.active_sessions.insert(key, session);
        proof {
            assert(self.sessions().remove(session_id@) =~= old(self).sessions().remove(session_id@));
            assert forall|k: Seq<char>| #[trigger] self.active_sessions@.contains_key(k) implies self.active_sessions@[k].wf()
                && self.active_sessions@[k].end_time is None && self.active_sessions@[k].session_id@ == k by {
                if k != session_id@ {
                    assert(old(self).active_sessions@.contains_key(k));
                }
            }
        }
        Ok(())
    }

    /// The controlled side joins a pending session, which becomes active.
    /// Fails with `NotFound` for an unknown session and `InvalidParam` for a
    /// session that is not pending.
    pub fn join_session(&mut self, session_id: &str) -> (r: Result<(), CoreError>)
        requires
            old(self).wf(),
        ensures
            final(self).wf(),
            r is Ok ==> final(self).events_spec().drop_last() == old(self).events_spec() && (final(self).events_spec().last() matches SessionEvent::Started { session_id: sid } && sid@ == session_id@),
            r is Err ==> final(self).events_spec() == old(self).events_spec(),
            r is Ok <==> (old(self).sessions().contains_key(session_id@) && old(self).sessions()[session_id@].status
                == SessionStatus::Pending),
            r is Ok ==> final(self).sessions()[session_id@].status == SessionStatus::Active,
            r is Err ==> final(self).sessions() == old(self).sessions(),
            !old(self).sessions().contains_key(session_id@) ==> r == Err::<(), CoreError>(CoreError::NotFound),
    {
        self.set_status(session_id, SessionStatus::Pending, SessionStatus::Active)?;
        let ghost evs = self.events@;
        self.events.push(SessionEvent::Started { session_id: session_id.to_string() });
        assert(self.events@.drop_last() == evs);
        Ok(())
    }

    /// Pauses an active session. Fails with `NotFound` for an unknown
    /// session and `InvalidParam` for a session that is not active.
    pub fn pause_session(&mut self, session_id: &str) -> (r: Result<(), CoreError>)
        requires
            old(self).wf(),
        ensures
            final(self).wf(),
            r is Ok ==> final(self).events_spec().drop_last() == old(self).events_spec() && (final(self).events_spec().last() matches SessionEvent::Paused { session_id: sid } && sid@ == session_id@),
            r is Err ==> final(self).events_spec() == old(self).events_spec(),
            r is Ok <==> (old(self).sessions().contains_key(session_id@) && old(self).sessions()[session_id@].status
                == SessionStatus::Active),
            r is Ok ==> final(self).sessions()[session_id@].status == SessionStatus::Paused,
            r is Err ==> final(self).sessions() == old(self).sessions(),
            !old(self).sessions().contains_key(session_id@) ==> r == Err::<(), CoreError>(CoreError::NotFound),
    {
        self.set_status(session_id, SessionStatus::Active, SessionStatus::Paused)?;
        let ghost evs = self.events@;
        self.events.push(SessionEvent::Paused { session_id: session_id.to_string() });
        assert(self.events@.drop_last() == evs);
        Ok(())
    }

    /// Resumes a paused session. Fails with `NotFound` for an unknown
    /// session and `InvalidParam` for a session that is not paused.
    pub fn resume_session(&mut self, session_id: &str) -> (r: Result<(), CoreError>)
        requires
            old(self).wf(),
        ensures
            final(self).wf(),
            r is Ok ==> final(self).events_spec().drop_last() == old(self).events_spec() && (final(self).events_spec().last() matches SessionEvent::Resumed { session_id: sid } && sid@ == session_id@),
            r is Err ==> final(self).events_spec() == old(self).events_spec(),
            r is Ok <==> (old(self).sessions().contains_key(session_id@) && old(self).sessions()[session_id@].status
                == SessionStatus::Paused),
            r is Ok ==> final(self).sessions()[session_id@].status == SessionStatus::Active,
            r is Err ==> final(self).sessions() == old(self).sessions(),
            !old(self).sessions().contains_key(session_id@) ==> r == Err::<(), CoreError>(CoreError::NotFound),
    {
        self.set_status(session_id, SessionStatus::Paused, SessionStatus::Active)?;
        let ghost evs = self.events@;
        self.events.push(SessionEvent::Resumed { session_id: session_id.to_string() });
        assert(self.events@.drop_last() == evs);
        Ok(())
    }

    fn finish_session(&mut self, session_id: &str, reason: EndReason, status: SessionStatus, now: u64) -> (r: Result<
        (),
        CoreError,
    >)
        requires
            old(self).wf(),
            status == SessionStatus::Ended || status == SessionStatus::Failed,
        ensures
            final(self).wf(),
            r is Err <==> !old(self).sessions().contains_key(session_id@),
            r matches Err(e) ==> e == CoreError::NotFound && final(self).sessions() == old(self).sessions()
                && final(self).history() == old(self).history(),
            r is Ok ==> {
                let s = old(self).sessions()[session_id@];
                let h = final(self).history();
                &&& final(self).sessions() == old(self).sessions().remove(session_id@)
                &&& h.len() > 0
                &&& h.last().session_id@ == session_id@
                &&& h.last().final_status == status
                &&& h.last().end_time == now
                &&& h.last().start_time == s.start_time
                &&& h.last().duration_secs == (if now >= s.start_time {
                    now - s.start_time
                } else {
                    0
                })
                &&& h.last().end_reason == reason
                &&& h.drop_last() == recent_records(old(self).history(), now, old(self).retention_days())
                &&& final(self).events_spec().len() == old(self).events_spec().len() + 1
                &&& final(self).events_spec().drop_last() == old(self).events_spec()
                &&& status == SessionStatus::Ended ==> (final(self).events_spec().last() matches SessionEvent::Ended {
                    session_id: sid,
                    reason: why,
                } && sid@ == session_id@ && why == reason)
                &&& status == SessionStatus::Failed ==> (final(self).events_spec().last() matches SessionEvent::Failed {
                    session_id: sid,
                    reason: why,
                } && sid@ == session_id@ && why == reason)
            },
            r is Err ==> final(self).events_spec() == old(self).events_spec(),
            final(self).requests() == old(self).requests(),
            final(self).retention_days() == old(self).retention_days(),
    {
        let mut session = match self.active_sessions.remove(session_id) {
            Some(s) => s,
            None => {
                return Err(CoreError::NotFound);
            },
        };
        session.status = status;
        session.end_time = Some(now);
        let duration = session.duration_secs(now);
        session.stats.duration_secs = duration;
        let record = SessionRecord {
            session_id: session.session_id.clone(),
            controller_id: session.controller_id.clone(),
            controlled_id: session.controlled_id.clone(),
            start_time: session.start_time,
            end_time: now,
            duration_secs: duration,
            final_status: status,
            end_reason: reason.duplicate(),
            final_stats: session.stats,
        };
        self.cleanup_old_records(now);
        let ghost kept = self.session_history@;
        let ghost evs = self.events@;
        self.session_history.push(record);
        assert(self.session_history@.drop_last() == kept);
        if status == SessionStatus::Ended {
            self.events.push(SessionEvent::Ended { session_id: session_id.to_string(), reason });
        } else {
            self.events.push(SessionEvent::Failed { session_id: session_id.to_string(), reason });
        }
        assert(self.events@.drop_last() == evs);
        proof {
            assert forall|k: Seq<char>| #[trigger] self.active_sessions@.contains_key(k) implies self.active_sessions@[k].wf()
                && self.active_sessions@[k].end_time is None && self.active_sessions@[k].session_id@ == k by {
                assert(old(self).active_sessions@.contains_key(k));
            }
        }
        Ok(())
    }

    /// Ends a session at `now`: it leaves the active sessions and its record
    /// joins the history (after records older than the retention window are
    /// dropped). Fails with `NotFound` for an unknown session.
    pub fn end_session(&mut self, session_id: &str, reason: EndReason, now: u64) -> (r: Result<(), CoreError>)
        requires
            old(self).wf(),
        ensures
            final(self).wf(),
            r is Err <==> !old(self).sessions().contains_key(session_id@),
            r matches Err(e) ==> e == CoreError::NotFound && final(self).sessions() == old(self).sessions(),
            r is Ok ==> {
                let st = old(self).sessions()[session_id@];
                let h = final(self).history();
                &&& final(self).sessions() == old(self).sessions().remove(session_id@)
                &&& h.len() > 0
                &&& h.last().session_id@ == session_id@
                &&& h.last().final_status == SessionStatus::Ended
                &&& h.last().end_time == now
                &&& h.last().end_reason == reason
                &&& h.last().duration_secs == (if now >= st.start_time {
                    now - st.start_time
                } else {
                    0
                })
                &&& h.drop_last() == recent_records(old(self).history(), now, old(self).retention_days())
                &&& final(self).events_spec().drop_last() == old(self).events_spec()
                &&& final(self).events_spec().len() == old(self).events_spec().len() + 1
                &&& (final(self).events_spec().last() matches SessionEvent::Ended { session_id: sid, reason: why }
                    && sid@ == session_id@ && why == reason)
            },
            r is Err ==> final(self).events_spec() == old(self).events_spec(),
    {
        self.finish_session(session_id, reason, SessionStatus::Ended, now)
    }

    /// Fails a session at `now` after a fatal error (a detected threat, a
    /// broken transport): like `end_session`, with the record marked failed.
    pub fn fail_session(&mut self, session_id: &str, reason: EndReason, now: u64) -> (r: Result<(), CoreError>)
        requires
            old(self).wf(),
        ensures
            final(self).wf(),
            r is Err <==> !old(self).sessions().contains_key(session_id@),
            r matches Err(e) ==> e == CoreError::NotFound && final(self).sessions() == old(self).sessions(),
            r is Ok ==> {
                let st = old(self).sessions()[session_id@];
                let h = final(self).history();
                &&& final(self).sessions() == old(self).sessions().remove(session_id@)
                &&& h.len() > 0
                &&& h.last().session_id@ == session_id@
                &&& h.last().final_status == SessionStatus::Failed
                &&& h.last().end_time == now
                &&& h.last().end_reason == reason
                &&& h.last().duration_secs == (if now >= st.start_time {
                    now - st.start_time
                } else {
                    0
                })
                &&& h.drop_last() == recent_records(old(self).history(), now, old(self).retention_days())
                &&& final(self).events_spec().drop_last() == old(self).events_spec()
                &&& final(self).events_spec().len() == old(self).events_spec().len() + 1
                &&& (final(self).events_spec().last() matches SessionEvent::Failed { session_id: sid, reason: why }
                    && sid@ == session_id@ && why == reason)
            },
            r is Err ==> final(self).events_spec() == old(self).events_spec(),
    {
        self.finish_session(session_id, reason, SessionStatus::Failed, now)
    }

    /// Drops the history records that ended before the retention window.
    fn cleanup_old_records(&mut self, now: u64)
        requires
            old(self).wf(),
        ensures
            final(self).wf(),
            final(self).sessions() == old(self).sessions(),
            final(self).requests() == old(self).requests(),
            final(self).events_spec() == old(self).events_spec(),
            final(self).retention_days() == old(self).retention_days(),
            final(self).history() == recent_records(old(self).history(), now, old(self).retention_days()),
    {
        let days = self.history_retention_days;
        let window: u64 = days as u64 * 86400;
        let mut old_list: Vec<SessionRecord> = Vec::new();
        std::mem::swap(&mut old_list, &mut self.session_history);
        let ghost all = old_list@;
        let total = old_list.len();
        let mut rev: Vec<SessionRecord> = Vec::new();
        while old_list.len() > 0
            invariant
                old_list@.len() + rev@.len() == all.len(),
                old_list@ == all.subrange(0, old_list@.len() as int),
                forall|j: int| 0 <= j < rev@.len() ==> rev@[j] == all[all.len() - 1 - j],
            decreases old_list@.len(),
        {
            let r = old_list.pop().unwrap();
            rev.push(r);
        }
        let mut kept: Vec<SessionRecord> = Vec::new();
        let mut i: usize = 0;
        while rev.len() > 0
            invariant
                total == all.len(),
                window == days * 86400,
                i + rev@.len() == all.len(),
                forall|j: int| 0 <= j < rev@.len() ==> rev@[j] == all[all.len() - 1 - j],
                kept@ == recent_records(all.subrange(0, i as int), now, days),
            decreases rev@.len(),
        {
            let r = rev.pop().unwrap();
            proof {
                assert(r == all[i as int]);
                assert(all.subrange(0, i + 1).drop_last() =~= all.subrange(0, i as int));
            }
            if now < window || r.end_time > now - window {
                kept.push(r);
            }
            i = i + 1;
        }
        assert(all.subrange(0, all.len() as int) =~= all);
        self.session_history = kept;
    }

    /// Folds a measurement into the statistics of a running session (see
    /// `Session::update_stats`) and returns them. Fails with `NotFound` for
    /// an unknown session.
    pub fn update_session_stats(
        &mut self,
        session_id: &str,
        latency: u32,
        packet_loss: u32,
        jitter: u32,
        bytes_delta: (u64, u64),
        now: u64,
    ) -> (r: Result<SessionStats, CoreError>)
        requires
            old(self).wf(),
        ensures
            final(self).wf(),
            r is Err <==> !old(self).sessions().contains_key(session_id@),
            r matches Err(e) ==> e == CoreError::NotFound && final(self).sessions() == old(self).sessions(),
            r matches Ok(st) ==> {
                let s = old(self).sessions()[session_id@];
                &&& st == updated_stats(s.stats, s.start_time, now, latency, packet_loss, jitter, bytes_delta.0, bytes_delta.1)
                &&& final(self).sessions().contains_key(session_id@)
                &&& final(self).sessions()[session_id@].stats == st
                &&& final(self).sessions()[session_id@].status == s.status
                &&& final(self).sessions().remove(session_id@) == old(self).sessions().remove(session_id@)
            },
    {
        let mut session = match self.active_sessions.remove(session_id) {
            Some(s) => s,
            None => {
                return Err(CoreError::NotFound);
            },
        };
        assert(old(self).active_sessions@.contains_key(session_id@));
        session.update_stats(latency, packet_loss, jitter, bytes_delta, now);
        let stats = session.stats;
        let key = session.session_id.clone();
        self.active_sessions.insert(key, session);
        self.events.push(SessionEvent::StatsUpdated { session_id: session_id.to_string(), stats });
        proof {
            assert(self.sessions().remove(session_id@) =~= old(self).sessions().remove(session_id@));
            assert forall|k: Seq<char>| #[trigger] self.active_sessions@.contains_key(k) implies self.active_sessions@[k].wf()
                && self.active_sessions@[k].end_time is None && self.active_sessions@[k].session_id@ == k by {
                if k != session_id@ {
                    assert(old(self).active_sessions@.contains_key(k));
                }
            }
        }
        Ok(stats)
    }

    /// The active sessions.
    pub fn get_active_sessions(&self) -> (r: Vec<&Session>)
        requires
            self.wf(),
        ensures
            r@.len() == self.sessions().dom().len(),
            forall|i: int| 0 <= i < r@.len() ==> self.sessions().values().contains(*#[trigger] r@[i]),
    {
        proof {
            self.active_sessions.lemma_len();
            self.active_sessions.lemma_keys();
        }
        let r = self.active_sessions.values();
        proof {
            assert forall|i: int| 0 <= i < r@.len() implies self.sessions().values().contains(*#[trigger] r@[i]) by {
                let k = self.active_sessions.key_seq()[i];
                assert(self.sessions().contains_key(k));
            }
        }
        r
    }

    /// The permission requests still valid at `now`.
    pub fn get_pending_requests(&self, now: u64) -> (r: Vec<&PermissionRequest>)
        requires
            self.wf(),
        ensures
            forall|i: int| 0 <= i < r@.len() ==> now <= (#[trigger] r@[i]).expires_at && exists|k: Seq<char>|
                #[trigger] self.requests().contains_key(k) && self.requests()[k] == *r@[i],
    {
        let all = self.pending_requests.values();
        let mut out: Vec<&PermissionRequest> = Vec::new();
        let mut i: usize = 0;
        while i < all.len()
            invariant
                i <= all@.len(),
                all@.len() == self.pending_requests.size(),
                forall|j: int|
                    0 <= j < all@.len() ==> self.requests().contains_key(#[trigger] self.pending_requests.key_seq()[j])
                        && *all@[j] == self.requests()[self.pending_requests.key_seq()[j]],
                forall|j: int| 0 <= j < out@.len() ==> now <= (#[trigger] out@[j]).expires_at && exists|k: Seq<char>|
                    #[trigger] self.requests().contains_key(k) && self.requests()[k] == *out@[j],
            decreases all@.len() - i,
        {
            let req = all[i];
            if !req.is_expired(now) {
                proof {
                    let k = self.pending_requests.key_seq()[i as int];
                    assert(self.requests().contains_key(k));
                }
                out.push(req);
            }
            i = i + 1;
        }
        out
    }

    /// The history records that ended within the last `days` days (the
    /// retention window when `None`) before `now`, oldest first.
    pub fn get_session_history(&self, days: Option<u32>, now: u64) -> (r: Vec<&SessionRecord>)
        ensures
            r@.len() <= self.history().len(),
            forall|i: int| 0 <= i < r@.len() ==> self.history().contains(*(#[trigger] r@[i])),
    {
        let d = match days {
            Some(v) => v,
            None => self.history_retention_days,
        };
        let window: u64 = d as u64 * 86400;
        let mut out: Vec<&SessionRecord> = Vec::new();
        let mut i: usize = 0;
        while i < self.session_history.len()
            invariant
                i <= self.session_history@.len(),
                out@.len() <= i,
                forall|j: int| 0 <= j < out@.len() ==> self.session_history@.contains(*(#[trigger] out@[j])),
            decreases self.session_history@.len() - i,
        {
            let rec = &self.session_history[i];
            if now < window || rec.end_time > now - window {
                assert(self.session_history@[i as int] == *rec);
                out.push(rec);
            }
            i = i + 1;
        }
        out
    }

    /// An active session.
    pub fn get_session(&self, session_id: &str) -> (r: Option<&Session>)
        requires
            self.wf(),
        ensures
            r matches Some(s) ==> self.sessions().contains_key(session_id@) && *s == self.sessions()[session_id@],
            r is None <==> !self.sessions().contains_key(session_id@),
    {
        self.active_sessions.get(session_id)
    }

    /// The statistics of an active session.
    pub fn get_session_stats(&self, session_id: &str) -> (r: Option<SessionStats>)
        requires
            self.wf(),
        ensures
            r matches Some(s) ==> self.sessions().contains_key(session_id@) && s == self.sessions()[session_id@].stats,
            r is None <==> !self.sessions().contains_key(session_id@),
    {
        match self.active_sessions.get(session_id) {
            Some(s) => Some(s.stats),
            None => None,
        }
    }

    /// The whole history, oldest first.
    pub fn history_records(&self) -> (r: &Vec<SessionRecord>)
        ensures
            r@ == self.history(),
    {
        &self.session_history
    }

    /// Requests `permissions` from `remote_id` at `now`; the request is
    /// valid for five minutes. Returns the request ID.
    pub fn request_permission(&mut self, remote_id: String, permissions: Vec<Permission>, now: u64) -> (r: String)
        requires
            old(self).wf(),
        ensures
            final(self).wf(),
            is_uuid_v4_text(r@),
            final(self).requests().contains_key(r@),
            final(self).requests()[r@].expires_at == sat_add(now, PERMISSION_REQUEST_VALIDITY_SECS),
            final(self).requests()[r@].permissions@ == permissions@,
            final(self).requests().remove(r@) == old(self).requests().remove(r@),
            final(self).sessions() == old(self).sessions(),
    {
        let mut copy: Vec<Permission> = Vec::new();
        let mut i: usize = 0;
        while i < permissions.len()
            invariant
                i <= permissions@.len(),
                copy@ == permissions@.subrange(0, i as int),
            decreases permissions@.len() - i,
        {
            copy.push(permissions[i]);
            i = i + 1;
        }
        assert(copy@ =~= permissions@);
        let request = PermissionRequest::new(self.local_device_id.clone(), remote_id, permissions, now);
        let id = request.request_id.clone();
        self.pending_requests.insert(request.request_id.clone(), request);
        self.events.push(SessionEvent::PermissionRequested { request_id: id.clone(), permissions: copy });
        proof {
            assert(self.requests().remove(id@) =~= old(self).requests().remove(id@));
        }
        id
    }

    /// Grants or denies a pending permission request at `now`; the request
    /// is no longer pending afterwards. Fails with `NotFound` for an unknown
    /// request and `Expired` for one past its validity.
    pub fn grant_permission(&mut self, request_id: &str, grant: bool, now: u64) -> (r: Result<(), CoreError>)
        requires
            old(self).wf(),
        ensures
            final(self).wf(),
            !old(self).requests().contains_key(request_id@) ==> r == Err::<(), CoreError>(CoreError::NotFound)
                && final(self).requests() == old(self).requests(),
            old(self).requests().contains_key(request_id@) ==> final(self).requests() == old(self).requests().remove(
                request_id@,
            ) && (if now > old(self).requests()[request_id@].expires_at {
                r == Err::<(), CoreError>(CoreError::Expired)
            } else {
                r is Ok
            }),
            r is Ok && grant ==> final(self).events_spec().drop_last() == old(self).events_spec() && (final(self).events_spec().last() matches SessionEvent::PermissionGranted { request_id: rid } && rid@
                == request_id@),
            r is Ok && !grant ==> final(self).events_spec().drop_last() == old(self).events_spec() && (final(self).events_spec().last() matches SessionEvent::PermissionDenied { request_id: rid } && rid@
                == request_id@),
            r is Err ==> final(self).events_spec() == old(self).events_spec(),
            final(self).sessions() == old(self).sessions(),
    {
        let request = match self.pending_requests.remove(request_id) {
            Some(req) => req,
            None => {
                return Err(CoreError::NotFound);
            },
        };
        if request.is_expired(now) {
            return Err(CoreError::Expired);
        }
        let ghost evs = self.events@;
        if grant {
            self.events.push(SessionEvent::PermissionGranted { request_id: request_id.to_string() });
        } else {
            self.events.push(SessionEvent::PermissionDenied { request_id: request_id.to_string() });
        }
        assert(self.events@.drop_last() == evs);
        Ok(())
    }

    /// Drops the permission requests that have expired at `now`.
    pub fn cleanup_expired_requests(&mut self, now: u64)
        requires
            old(self).wf(),
        ensures
            final(self).wf(),
            forall|k: Seq<char>|
                #[trigger] final(self).requests().contains_key(k) ==> old(self).requests().contains_key(k) && now
                    <= old(self).requests()[k].expires_at,
            final(self).sessions() == old(self).sessions(),
    {
        let ids = self.pending_requests.keys();
        let mut i: usize = 0;
        while i < ids.len()
            invariant
                self.wf(),
                i <= ids@.len(),
                forall|k: Seq<char>|
                    #[trigger] self.requests().contains_key(k) ==> old(self).requests().contains_key(k)
                        && self.requests()[k] == old(self).requests()[k],
                forall|j: int|
                    0 <= j < i && #[trigger] self.requests().contains_key(ids@[j]@) ==> now <= self.requests()[ids@[j]@].expires_at,
                forall|k: Seq<char>|
                    old(self).requests().contains_key(k) && !crate::table::string_views(ids@).subrange(0, i as int).contains(k)
                        ==> #[trigger] self.requests().contains_key(k),
                crate::table::string_views(ids@) == old(self).pending_requests.key_seq(),
                self.active_sessions == old(self).active_sessions,
            decreases ids@.len() - i,
        {
            let ghost prev = self.requests();
            let ghost k = ids@[i as int]@;
            let expired = match self.pending_requests.get(ids[i].as_str()) {
                Some(req) => req.is_expired(now),
                None => false,
            };
            if expired {
                self.pending_requests.remove(ids[i].as_str());
                assert(self.requests() == prev.remove(k));
            } else {
                assert(self.requests() == prev);
            }
            proof {
                let kv = crate::table::string_views(ids@);
                crate::table::lemma_prefix_extend(kv, i as int);
                assert(kv[i as int] == k);
                assert(kv.subrange(0, i + 1)[i as int] == k);
                assert(kv.subrange(0, i + 1).contains(k));
                assert forall|k2: Seq<char>|
                    old(self).requests().contains_key(k2) && !kv.subrange(0, i + 1).contains(k2) implies #[trigger] self.requests().contains_key(k2) by {
                    assert(k2 != k);
                    assert(!kv.subrange(0, i as int).contains(k2));
                    assert(prev.contains_key(k2));
                }
            }
            i = i + 1;
        }
        proof {
            old(self).pending_requests.lemma_keys();
            let kv = crate::table::string_views(ids@);
            assert(kv.subrange(0, ids@.len() as int) =~= kv);
            assert forall|k: Seq<char>| #[trigger] self.requests().contains_key(k) implies now <= old(self).requests()[k].expires_at by {
                assert(kv.contains(k));
                let j = choose|j: int| 0 <= j < kv.len() && kv[j] == k;
                assert(ids@[j]@ == k);
            }
        }
    }

    /// Totals over the active sessions and the history; the average is
    /// rounded down and zero without history.
    pub fn get_summary_stats(&self) -> (r: SessionSummaryStats)
        requires
            self.wf(),
        ensures
            r.active_sessions == self.sessions().dom().len(),
            r.total_sessions_30_days == self.history().len(),
            total_duration(self.history()) <= u64::MAX ==> r.total_duration_secs == total_duration(self.history()),
            total_duration(self.history()) > u64::MAX ==> r.total_duration_secs == u64::MAX,
            self.history().len() == 0 ==> r.average_duration_secs == 0,
            self.history().len() > 0 ==> r.average_duration_secs == (r.total_duration_secs as int) / (self.history().len() as int),
    {
        let mut total: u64 = 0;
        let mut overflow = false;
        let mut i: usize = 0;
        while i < self.session_history.len()
            invariant
                i <= self.session_history@.len(),
                !overflow ==> total == total_duration(self.session_history@.subrange(0, i as int)),
                overflow ==> total == u64::MAX && total_duration(self.session_history@.subrange(0, i as int)) > u64::MAX,
            decreases self.session_history@.len() - i,
        {
            proof {
                assert(self.session_history@.subrange(0, i + 1).drop_last() =~= self.session_history@.subrange(0, i as int));
            }
            let d = self.session_history[i].duration_secs;
            if !overflow {
                match total.checked_add(d) {
                    Some(t) => {
                        total = t;
                    },
                    None => {
                        total = u64::MAX;
                        overflow = true;
                    },
                }
            }
            i = i + 1;
        }
        assert(self.session_history@.subrange(0, self.session_history@.len() as int) =~= self.session_history@);
        let n = self.session_history.len();
        let avg = if n > 0 {
            total / n as u64
        } else {
            0
        };
        proof {
            self.active_sessions.lemma_len();
        }
        SessionSummaryStats {
            active_sessions: self.active_sessions.len(),
            total_sessions_30_days: n,
            total_duration_secs: total,
            average_duration_secs: avg,
        }
    }
}

impl Default for SessionManager {
    fn default() -> (r: Self)
        ensures
            r.wf(),
            r.local_id() == "default_device"@,
    {
        SessionManager::new("default_device".to_string())
    }
}

} // verus!

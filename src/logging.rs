//! Logging of the engine: leveled log entries and the connection-event log.
//! Writing to files is left to the host; this module keeps the entries.
//!
//! Instants are whole seconds since the Unix epoch, handed in by the caller.

use vstd::prelude::*;
use crate::crypto::format_rfc3339;

verus! {

/// Severity of a log entry.
#[derive(Debug, Clone, Copy, PartialEq, Eq, Structural)]
pub enum LogLevel {
    Debug,
    Info,
    Warn,
    Error,
}

/// Rank of a level: debug 0, info 1, warn 2, error 3.
pub open spec fn level_rank(l: LogLevel) -> int {
    match l {
        LogLevel::Debug => 0,
        LogLevel::Info => 1,
        LogLevel::Warn => 2,
        LogLevel::Error => 3,
    }
}

impl LogLevel {
    /// Rank of the level: debug 0, info 1, warn 2, error 3.
    pub fn rank(&self) -> (r: u8)
        ensures
            r == level_rank(*self),
    {
        match self {
            LogLevel::Debug => 0,
            LogLevel::Info => 1,
            LogLevel::Warn => 2,
            LogLevel::Error => 3,
        }
    }

    /// The level's name in capitals.
    pub fn name(&self) -> (r: &'static str)
        ensures
            *self == LogLevel::Debug ==> r@ == "DEBUG"@,
            *self == LogLevel::Info ==> r@ == "INFO"@,
            *self == LogLevel::Warn ==> r@ == "WARN"@,
            *self == LogLevel::Error ==> r@ == "ERROR"@,
    {
        match self {
            LogLevel::Debug => "DEBUG",
            LogLevel::Info => "INFO",
            LogLevel::Warn => "WARN",
            LogLevel::Error => "ERROR",
        }
    }

    /// The level of an integer setting 0..4: error, warn, info, debug; any
    /// higher value (trace) logs everything.
    pub fn from_setting(level: i32) -> (r: Self)
        ensures
            level <= 0 ==> r == LogLevel::Error,
            level == 1 ==> r == LogLevel::Warn,
            level == 2 ==> r == LogLevel::Info,
            level >= 3 ==> r == LogLevel::Debug,
    {
        if level <= 0 {
            LogLevel::Error
        } else if level == 1 {
            LogLevel::Warn
        } else if level == 2 {
            LogLevel::Info
        } else {
            LogLevel::Debug
        }
    }
}

/// An entry of the log.
#[derive(Debug, Clone)]
pub struct LogEntry {
    /// Seconds since the Unix epoch.
    pub timestamp: u64,
    pub level: LogLevel,
    pub category: String,
    pub message: String,
    /// Structured details, as JSON text.
    pub metadata: Option<String>,
    pub session_id: Option<String>,
    pub device_id: Option<String>,
}

impl LogEntry {
    /// An entry at `now`.
    pub fn new(level: LogLevel, category: &str, message: &str, now: u64) -> (r: Self)
        ensures
            r.level == level && r.category@ == category@ && r.message@ == message@ && r.timestamp == now,
            r.metadata is None && r.session_id is None && r.device_id is None,
    {
        LogEntry {
            timestamp: now,
            level,
            category: category.to_string(),
            message: message.to_string(),
            metadata: None,
            session_id: None,
            device_id: None,
        }
    }

    /// The entry with structured details.
    pub fn with_metadata(self, metadata: String) -> (r: Self)
        ensures
            r.metadata == Some(metadata),
            r.session_id == self.session_id && r.device_id == self.device_id && r.level == self.level,
    {
        LogEntry { metadata: Some(metadata), ..self }
    }

    /// The entry tagged with a session.
    pub fn with_session(self, session_id: &str) -> (r: Self)
        ensures
            r.session_id matches Some(s) && s@ == session_id@,
            r.device_id == self.device_id && r.level == self.level && r.category == self.category,
    {
        LogEntry { session_id: Some(session_id.to_string()), ..self }
    }

    /// The entry tagged with a device.
    pub fn with_device(self, device_id: &str) -> (r: Self)
        ensures
            r.device_id matches Some(d) && d@ == device_id@,
            r.session_id == self.session_id && r.level == self.level && r.category == self.category,
    {
        LogEntry { device_id: Some(device_id.to_string()), ..self }
    }

    /// A copy of the entry.
    pub fn duplicate(&self) -> (r: Self)
        ensures
            r == *self,
    {
        LogEntry {
            timestamp: self.timestamp,
            level: self.level,
            category: self.category.clone(),
            message: self.message.clone(),
            metadata: self.metadata.clone(),
            session_id: self.session_id.clone(),
            device_id: self.device_id.clone(),
        }
    }

    /// One line: `[time] [LEVEL] [category] message`, then the session, the
    /// device and the details when present.
    pub fn format(&self) -> (r: String) {
        let time = match format_rfc3339(self.timestamp as i64) {
            Some(t) => t,
            None => String::new(),
        };
        let mut line = "[".to_string();
        line.append(time.as_str());
        line.append("] [");
        line.append(self.level.name());
        line.append("] [");
        line.append(self.category.as_str());
        line.append("] ");
        line.append(self.message.as_str());
        match &self.session_id {
            Some(s) => {
                line.append(" [session:");
                line.append(s.as_str());
                line.append("]");
            },
            None => {},
        }
        match &self.device_id {
            Some(d) => {
                line.append(" [device:");
                line.append(d.as_str());
                line.append("]");
            },
            None => {},
        }
        match &self.metadata {
            Some(m) => {
                line.append(" ");
                line.append(m.as_str());
            },
            None => {},
        }
        line
    }
}

/// Kinds of connection events.
#[derive(Debug, Clone, Copy, PartialEq, Eq, Structural)]
pub enum ConnectionEventType {
    ConnectionAttempt,
    ConnectionEstablished,
    ConnectionFailed,
    ConnectionClosed,
    ReconnectAttempt,
    IceCandidateGathered,
    IceCandidateReceived,
    SignalingConnected,
    SignalingDisconnected,
    MediaStreamAdded,
    MediaStreamRemoved,
    DataChannelOpened,
    DataChannelClosed,
    QualityChanged,
}

impl ConnectionEventType {
    /// The event kind's description for display.
    pub fn describe(&self) -> (r: &'static str) {
        match self {
            ConnectionEventType::ConnectionAttempt => "连接尝试",
            ConnectionEventType::ConnectionEstablished => "连接建立",
            ConnectionEventType::ConnectionFailed => "连接失败",
            ConnectionEventType::ConnectionClosed => "连接关闭",
            ConnectionEventType::ReconnectAttempt => "重连尝试",
            ConnectionEventType::IceCandidateGathered => "ICE候选收集",
            ConnectionEventType::IceCandidateReceived => "ICE候选接收",
            ConnectionEventType::SignalingConnected => "信令连接",
            ConnectionEventType::SignalingDisconnected => "信令断开",
            ConnectionEventType::MediaStreamAdded => "媒体流添加",
            ConnectionEventType::MediaStreamRemoved => "媒体流移除",
            ConnectionEventType::DataChannelOpened => "数据通道打开",
            ConnectionEventType::DataChannelClosed => "数据通道关闭",
            ConnectionEventType::QualityChanged => "质量变化",
        }
    }
}

/// A connection event.
#[derive(Debug, Clone)]
pub struct ConnectionEvent {
    /// Seconds since the Unix epoch.
    pub timestamp: u64,
    pub event_type: ConnectionEventType,
    pub session_id: Option<String>,
    pub remote_device_id: Option<String>,
    /// Structured details, as JSON text.
    pub details: Option<String>,
    pub success: bool,
    pub error_message: Option<String>,
}

impl ConnectionEvent {
    /// A successful event at `now`.
    pub fn new(event_type: ConnectionEventType, now: u64) -> (r: Self)
        ensures
            r.event_type == event_type && r.timestamp == now && r.success,
            r.session_id is None && r.remote_device_id is None && r.details is None && r.error_message is None,
    {
        ConnectionEvent {
            timestamp: now,
            event_type,
            session_id: None,
            remote_device_id: None,
            details: None,
            success: true,
            error_message: None,
        }
    }

    /// The event tagged with a session.
    pub fn with_session(self, session_id: &str) -> (r: Self)
        ensures
            r.session_id matches Some(s) && s@ == session_id@,
            r.remote_device_id == self.remote_device_id && r.event_type == self.event_type && r.success
                == self.success && r.error_message == self.error_message,
    {
        ConnectionEvent { session_id: Some(session_id.to_string()), ..self }
    }

    /// The event tagged with the remote device.
    pub fn with_remote_device(self, device_id: &str) -> (r: Self)
        ensures
            r.remote_device_id matches Some(d) && d@ == device_id@,
            r.session_id == self.session_id && r.event_type == self.event_type && r.success == self.success
                && r.error_message == self.error_message,
    {
        ConnectionEvent { remote_device_id: Some(device_id.to_string()), ..self }
    }

    /// The event with structured details.
    pub fn with_details(self, details: String) -> (r: Self)
        ensures
            r.details == Some(details),
            r.session_id == self.session_id && r.remote_device_id == self.remote_device_id && r.success
                == self.success,
    {
        ConnectionEvent { details: Some(details), ..self }
    }

    /// The event marked failed with an error message.
    pub fn with_error(self, error: &str) -> (r: Self)
        ensures
            !r.success,
            r.error_message matches Some(e) && e@ == error@,
            r.session_id == self.session_id && r.remote_device_id == self.remote_device_id && r.event_type
                == self.event_type,
    {
        ConnectionEvent { success: false, error_message: Some(error.to_string()), ..self }
    }

    /// A copy of the event.
    pub fn duplicate(&self) -> (r: Self)
        ensures
            r == *self,
    {
        ConnectionEvent {
            timestamp: self.timestamp,
            event_type: self.event_type,
            session_id: self.session_id.clone(),
            remote_device_id: self.remote_device_id.clone(),
            details: self.details.clone(),
            success: self.success,
            error_message: self.error_message.clone(),
        }
    }
}

/// Logging configuration.
#[derive(Debug, Clone)]
pub struct LogConfig {
    pub min_level: LogLevel,
    pub max_entries: usize,
    pub log_to_file: bool,
    pub log_file_path: Option<String>,
    pub max_file_size_mb: u64,
    pub rotate_logs: bool,
    pub max_log_files: u32,
}

impl Default for LogConfig {
    fn default() -> (r: Self)
        ensures
            r.min_level == LogLevel::Info,
            r.max_entries == 1000,
            !r.log_to_file,
            r.log_file_path is None,
    {
        LogConfig {
            min_level: LogLevel::Info,
            max_entries: 1000,
            log_to_file: false,
            log_file_path: None,
            max_file_size_mb: 10,
            rotate_logs: true,
            max_log_files: 5,
        }
    }
}

/// Connection events kept.
pub const MAX_CONNECTION_EVENTS: usize = 100;

/// The first `n` elements of `s`, or all of them.
pub open spec fn take_at_most<A>(s: Seq<A>, n: int) -> Seq<A> {
    if s.len() <= n {
        s
    } else {
        s.subrange(0, n)
    }
}

/// The entries of `s` at `min` or above, newest first.
pub open spec fn at_least(s: Seq<LogEntry>, min: LogLevel) -> Seq<LogEntry>
    decreases s.len(),
{
    if s.len() == 0 {
        seq![]
    } else {
        let rest = at_least(s.drop_last(), min);
        if level_rank(s.last().level) >= level_rank(min) {
            rest.push(s.last())
        } else {
            rest
        }
    }
}

/// The log: entries and connection events, newest first.
pub struct LogManager {
    config: LogConfig,
    logs: Vec<LogEntry>,
    connection_events: Vec<ConnectionEvent>,
}

impl LogManager {
    pub closed spec fn entries(&self) -> Seq<LogEntry> {
        self.logs@
    }

    pub closed spec fn events(&self) -> Seq<ConnectionEvent> {
        self.connection_events@
    }

    pub closed spec fn config_spec(&self) -> LogConfig {
        self.config
    }

    /// A log with the given configuration.
    pub fn new(config: LogConfig) -> (r: Self)
        ensures
            r.entries().len() == 0,
            r.events().len() == 0,
            r.config_spec() == config,
    {
        LogManager { config, logs: Vec::new(), connection_events: Vec::new() }
    }

    /// Records an entry at the configured level or above, newest first,
    /// keeping at most `max_entries`.
    pub fn log(&mut self, entry: LogEntry)
        ensures
            level_rank(entry.level) < level_rank(old(self).config_spec().min_level) ==> final(self).entries()
                == old(self).entries(),
            level_rank(entry.level) >= level_rank(old(self).config_spec().min_level) ==> final(self).entries()
                == take_at_most(seq![entry] + old(self).entries(), old(self).config_spec().max_entries as int),
            final(self).events() == old(self).events(),
            final(self).config_spec() == old(self).config_spec(),
    {
        if entry.level.rank() < self.config.min_level.rank() {
            return;
        }
        let ghost before = self.logs@;
        self.logs.insert(0, entry);
        assert(self.logs@ =~= seq![entry] + before);
        if self.logs.len() > self.config.max_entries {
            self.logs.truncate(self.config.max_entries);
        }
    }

    /// Logs a debug message.
    pub fn debug(&mut self, category: &str, message: &str, now: u64)
        ensures
            final(self).events() == old(self).events(),
            final(self).config_spec() == old(self).config_spec(),
    {
        self.log(LogEntry::new(LogLevel::Debug, category, message, now));
    }

    /// Logs an informational message.
    pub fn info(&mut self, category: &str, message: &str, now: u64)
        ensures
            final(self).events() == old(self).events(),
            final(self).config_spec() == old(self).config_spec(),
    {
        self.log(LogEntry::new(LogLevel::Info, category, message, now));
    }

    /// Logs a warning.
    pub fn warn(&mut self, category: &str, message: &str, now: u64)
        ensures
            final(self).events() == old(self).events(),
            final(self).config_spec() == old(self).config_spec(),
    {
        self.log(LogEntry::new(LogLevel::Warn, category, message, now));
    }

    /// Logs an error.
    pub fn error(&mut self, category: &str, message: &str, now: u64)
        ensures
            final(self).events() == old(self).events(),
            final(self).config_spec() == old(self).config_spec(),
    {
        self.log(LogEntry::new(LogLevel::Error, category, message, now));
    }

    /// Records a connection event, newest first and at most 100 of them, and
    /// logs it in the `Connection` category (as an error when it failed)
    /// with its session and remote device.
    pub fn log_connection_event(&mut self, event: ConnectionEvent)
        ensures
            final(self).events() == take_at_most(seq![event] + old(self).events(), MAX_CONNECTION_EVENTS as int),
            final(self).events()[0] == event,
            final(self).config_spec() == old(self).config_spec(),
            ({
                let level = if event.success {
                    LogLevel::Info
                } else {
                    LogLevel::Error
                };
                level_rank(level) >= level_rank(old(self).config_spec().min_level) && old(self).config_spec().max_entries > 0 ==> {
                    let e = final(self).entries()[0];
                    &&& final(self).entries().len() > 0
                    &&& e.level == level
                    &&& e.category@ == "Connection"@
                    &&& e.session_id == event.session_id
                    &&& e.device_id == event.remote_device_id
                    &&& e.timestamp == event.timestamp
                }
            }),
    {
        let level = if event.success {
            LogLevel::Info
        } else {
            LogLevel::Error
        };
        let mut message = event.event_type.describe().to_string();
        match &event.error_message {
            Some(err) => {
                message.append(": ");
                message.append(err.as_str());
            },
            None => {},
        }
        let entry = LogEntry {
            timestamp: event.timestamp,
            level,
            category: "Connection".to_string(),
            message,
            metadata: event.details.clone(),
            session_id: event.session_id.clone(),
            device_id: event.remote_device_id.clone(),
        };
        self.log(entry);
        let ghost before = self.connection_events@;
        let ghost ev = event;
        self.connection_events.insert(0, event);
        assert(self.connection_events@ =~= seq![ev] + before);
        if self.connection_events.len() > MAX_CONNECTION_EVENTS {
            self.connection_events.truncate(MAX_CONNECTION_EVENTS);
        }
    }

    /// Up to `limit` entries (all when `None`) at `level` or above (any level
    /// when `None`), newest first.
    pub fn get_logs(&self, level: Option<LogLevel>, limit: Option<usize>) -> (r: Vec<LogEntry>)
        ensures
            ({
                let min = match level {
                    Some(l) => l,
                    None => LogLevel::Debug,
                };
                let n = match limit {
                    Some(k) => k as int,
                    None => self.entries().len() as int,
                };
                r@ == take_at_most(at_least(self.entries().reverse(), min).reverse(), n)
            }),
    {
        let min = match level {
            Some(l) => l,
            None => LogLevel::Debug,
        };
        let n = match limit {
            Some(k) => k,
            None => self.logs.len(),
        };
        let mut all: Vec<LogEntry> = Vec::new();
        let mut i: usize = self.logs.len();
        while i > 0
            invariant
                i <= self.logs@.len(),
                all@ == at_least(self.logs@.reverse().subrange(0, (self.logs@.len() - i) as int), min).reverse(),
            decreases i,
        {
            i = i - 1;
            let ghost prefix = self.logs@.reverse().subrange(0, (self.logs@.len() - i - 1) as int);
            proof {
                let rv = self.logs@.reverse();
                assert(rv.subrange(0, (self.logs@.len() - i) as int).drop_last() =~= prefix);
                assert(rv[(self.logs@.len() - i - 1) as int] == self.logs@[i as int]);
            }
            if self.logs[i].level.rank() >= min.rank() {
                let e = self.logs[i].duplicate();
                let ghost before = all@;
                all.insert(0, e);
                assert(all@ =~= before.reverse().push(e).reverse());
            }
        }
        assert(self.logs@.reverse().subrange(0, self.logs@.len() as int) =~= self.logs@.reverse());
        if all.len() > n {
            all.truncate(n);
        }
        all
    }

    /// Up to `limit` connection events (all when `None`), newest first.
    pub fn get_connection_events(&self, limit: Option<usize>) -> (r: Vec<ConnectionEvent>)
        ensures
            r@ == take_at_most(
                self.events(),
                match limit {
                    Some(k) => k as int,
                    None => self.events().len() as int,
                },
            ),
    {
        let n = match limit {
            Some(k) => k,
            None => self.connection_events.len(),
        };
        let mut out: Vec<ConnectionEvent> = Vec::new();
        let mut i: usize = 0;
        while i < self.connection_events.len() && i < n
            invariant
                i <= self.connection_events@.len(),
                i <= n,
                out@ == self.connection_events@.subrange(0, i as int),
            decreases self.connection_events@.len() - i,
        {
            out.push(self.connection_events[i].duplicate());
            i = i + 1;
        }
        assert(out@ =~= take_at_most(self.connection_events@, n as int));
        out
    }

    /// Forgets every entry.
    pub fn clear_logs(&mut self)
        ensures
            final(self).entries().len() == 0,
            final(self).events() == old(self).events(),
            final(self).config_spec() == old(self).config_spec(),
    {
        self.logs = Vec::new();
    }

    /// Forgets every connection event.
    pub fn clear_connection_events(&mut self)
        ensures
            final(self).events().len() == 0,
            final(self).entries() == old(self).entries(),
            final(self).config_spec() == old(self).config_spec(),
    {
        self.connection_events = Vec::new();
    }

    /// Sets the minimum level.
    pub fn set_log_level(&mut self, level: LogLevel)
        ensures
            final(self).config_spec().min_level == level,
            final(self).config_spec().max_entries == old(self).config_spec().max_entries,
            final(self).entries() == old(self).entries(),
            final(self).events() == old(self).events(),
    {
        self.config.min_level = level;
    }

    /// The minimum level.
    pub fn get_log_level(&self) -> (r: LogLevel)
        ensures
            r == self.config_spec().min_level,
    {
        self.config.min_level
    }

    /// Records that entries also go to the file at `path`.
    pub fn enable_file_logging(&mut self, path: String)
        ensures
            final(self).config_spec().log_to_file,
            final(self).config_spec().log_file_path == Some(path),
            final(self).entries() == old(self).entries(),
    {
        self.config.log_to_file = true;
        self.config.log_file_path = Some(path);
    }

    /// Records that entries no longer go to a file.
    pub fn disable_file_logging(&mut self)
        ensures
            !final(self).config_spec().log_to_file,
            final(self).entries() == old(self).entries(),
    {
        self.config.log_to_file = false;
    }

    /// The entries as text, oldest first, after a header stamped `now`.
    pub fn export_logs(&self, now: u64) -> (r: String) {
        let mut buffer = "=== 远程桌面客户端日志导出 ===\n".to_string();
        buffer.append("导出时间: ");
        match format_rfc3339(now as i64) {
            Some(t) => {
                buffer.append(t.as_str());
            },
            None => {},
        }
        buffer.append("\n\n");
        let mut i: usize = self.logs.len();
        while i > 0
            invariant
                i <= self.logs@.len(),
            decreases i,
        {
            i = i - 1;
            let line = self.logs[i].format();
            buffer.append(line.as_str());
            buffer.append("\n");
        }
        buffer
    }

    /// The connection events as text, oldest first, after a header stamped
    /// `now`.
    pub fn export_connection_events(&self, now: u64) -> (r: String) {
        let mut buffer = "=== 连接事件导出 ===\n".to_string();
        buffer.append("导出时间: ");
        match format_rfc3339(now as i64) {
            Some(t) => {
                buffer.append(t.as_str());
            },
            None => {},
        }
        buffer.append("\n\n");
        let mut i: usize = self.connection_events.len();
        while i > 0
            invariant
                i <= self.connection_events@.len(),
            decreases i,
        {
            i = i - 1;
            let event = &self.connection_events[i];
            buffer.append("[");
            match format_rfc3339(event.timestamp as i64) {
                Some(t) => {
                    buffer.append(t.as_str());
                },
                None => {},
            }
            buffer.append("] ");
            buffer.append(event.event_type.describe());
            buffer.append(if event.success {
                " - 成功\n"
            } else {
                " - 失败\n"
            });
            match &event.session_id {
                Some(s) => {
                    buffer.append("  会话: ");
                    buffer.append(s.as_str());
                    buffer.append("\n");
                },
                None => {},
            }
            match &event.remote_device_id {
                Some(d) => {
                    buffer.append("  设备: ");
                    buffer.append(d.as_str());
                    buffer.append("\n");
                },
                None => {},
            }
            match &event.error_message {
                Some(e) => {
                    buffer.append("  错误: ");
                    buffer.append(e.as_str());
                    buffer.append("\n");
                },
                None => {},
            }
            match &event.details {
                Some(d) => {
                    buffer.append("  详情: ");
                    buffer.append(d.as_str());
                    buffer.append("\n");
                },
                None => {},
            }
        }
        buffer
    }
}

impl Default for LogManager {
    fn default() -> (r: Self)
        ensures
            r.entries().len() == 0,
            r.events().len() == 0,
            r.config_spec().min_level == LogLevel::Info,
            r.config_spec().max_entries == 1000,
    {
        LogManager::new(LogConfig::default())
    }
}

} // verus!

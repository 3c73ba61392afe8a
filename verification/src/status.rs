//! Runtime state of a tunnel as shown to the user: its status, its
//! live metrics and its log entries. Nothing here is persisted.
use vstd::prelude::*;

verus! {

/// Momentary run state of a tunnel.
#[derive(Debug, PartialEq, Eq)]
pub enum TunnelStatus {
    Stopped,
    Connecting,
    Running,
    Reconnecting,
    Error(String),
}

/// The status with its message taken by its characters.
pub enum TunnelStatusView {
    Stopped,
    Connecting,
    Running,
    Reconnecting,
    Error(Seq<char>),
}

impl View for TunnelStatus {
    type V = TunnelStatusView;

    open spec fn view(&self) -> TunnelStatusView {
        match self {
            TunnelStatus::Stopped => TunnelStatusView::Stopped,
            TunnelStatus::Connecting => TunnelStatusView::Connecting,
            TunnelStatus::Running => TunnelStatusView::Running,
            TunnelStatus::Reconnecting => TunnelStatusView::Reconnecting,
            TunnelStatus::Error(m) => TunnelStatusView::Error(m@),
        }
    }
}

impl Clone for TunnelStatus {
    fn clone(&self) -> (res: Self)
        ensures
            res == *self,
    {
        match self {
            TunnelStatus::Stopped => TunnelStatus::Stopped,
            TunnelStatus::Connecting => TunnelStatus::Connecting,
            TunnelStatus::Running => TunnelStatus::Running,
            TunnelStatus::Reconnecting => TunnelStatus::Reconnecting,
            TunnelStatus::Error(m) => TunnelStatus::Error(m.clone()),
        }
    }
}

impl Default for TunnelStatus {
    fn default() -> (res: Self)
        ensures
            res == TunnelStatus::Stopped,
    {
        TunnelStatus::Stopped
    }
}

/// Live metrics of a tunnel: bytes relayed each way and the last measured latency.
#[derive(Debug)]
pub struct TunnelMetrics {
    /// Bytes relayed from the local side to the remote side.
    pub up: u64,
    /// Bytes relayed from the remote side to the local side.
    pub down: u64,
    /// Last measured latency in milliseconds; `u64::MAX` stands for "unknown".
    pub latency: u64,
}

impl Clone for TunnelMetrics {
    fn clone(&self) -> (res: Self)
        ensures
            res == *self,
    {
        TunnelMetrics { up: self.up, down: self.down, latency: self.latency }
    }
}

/// The value a latency reading is stored as: the reading, or `u64::MAX` when unknown.
pub open spec fn latency_slot(ms: Option<u64>) -> u64 {
    match ms {
        Some(v) => v,
        None => u64::MAX,
    }
}

/// The reading a stored latency value stands for.
pub open spec fn latency_reading(slot: u64) -> Option<u64> {
    if slot == u64::MAX {
        None
    } else {
        Some(slot)
    }
}

impl TunnelMetrics {
    /// Fresh metrics: no traffic, latency unknown.
    pub fn new() -> (m: Self)
        ensures
            m.up == 0,
            m.down == 0,
            m.latency == u64::MAX,
            m.latency_ms_spec() == None::<u64>,
    {
        TunnelMetrics { up: 0, down: 0, latency: u64::MAX }
    }

    pub open spec fn latency_ms_spec(&self) -> Option<u64> {
        latency_reading(self.latency)
    }

    /// Records a latency reading (`None` when the probe failed).
    pub fn set_latency(&mut self, ms: Option<u64>)
        ensures
            final(self).latency == latency_slot(ms),
            final(self).up == old(self).up,
            final(self).down == old(self).down,
    {
        self.latency = match ms {
            Some(v) => v,
            None => u64::MAX,
        };
    }

    /// The last latency reading, or `None` when unknown.
    pub fn latency_ms(&self) -> (r: Option<u64>)
        ensures
            r == self.latency_ms_spec(),
    {
        if self.latency == u64::MAX {
            None
        } else {
            Some(self.latency)
        }
    }

    /// Counts `n` more bytes relayed upward; the counter wraps like an atomic `fetch_add`.
    pub fn add_up(&mut self, n: u64)
        ensures
            final(self).up == (old(self).up + n) % 0x1_0000_0000_0000_0000,
            final(self).down == old(self).down,
            final(self).latency == old(self).latency,
    {
        self.up = self.up.wrapping_add(n);
    }

    /// Counts `n` more bytes relayed downward; the counter wraps like an atomic `fetch_add`.
    pub fn add_down(&mut self, n: u64)
        ensures
            final(self).down == (old(self).down + n) % 0x1_0000_0000_0000_0000,
            final(self).up == old(self).up,
            final(self).latency == old(self).latency,
    {
        self.down = self.down.wrapping_add(n);
    }
}

/// A latency reading reads back as it was recorded, except `u64::MAX` milliseconds,
/// which is the stored value for "unknown" and so reads back as `None`.
pub proof fn law_latency_reads_back(ms: Option<u64>)
    ensures
        ms != Some(u64::MAX) ==> latency_reading(latency_slot(ms)) == ms,
        ms == Some(u64::MAX) ==> latency_reading(latency_slot(ms)) == None::<u64>,
{
}

/// Snapshot of a tunnel for the user interface: status plus metrics.
#[derive(Debug, PartialEq, Eq)]
pub struct TunnelStats {
    pub status: TunnelStatus,
    pub latency_ms: Option<u64>,
    pub up: u64,
    pub down: u64,
}

impl Clone for TunnelStats {
    fn clone(&self) -> (res: Self)
        ensures
            res == *self,
    {
        TunnelStats {
            status: self.status.clone(),
            latency_ms: self.latency_ms,
            up: self.up,
            down: self.down,
        }
    }
}

impl TunnelStats {
    /// The snapshot of a tunnel with the given status and metrics.
    pub fn from_metrics(status: TunnelStatus, metrics: &TunnelMetrics) -> (s: Self)
        ensures
            s.status == status,
            s.latency_ms == metrics.latency_ms_spec(),
            s.up == metrics.up,
            s.down == metrics.down,
    {
        TunnelStats { status, latency_ms: metrics.latency_ms(), up: metrics.up, down: metrics.down }
    }

    /// The snapshot of a tunnel that is not running.
    pub fn stopped() -> (s: Self)
        ensures
            s.status == TunnelStatus::Stopped,
            s.latency_ms == None::<u64>,
            s.up == 0,
            s.down == 0,
    {
        TunnelStats { status: TunnelStatus::Stopped, latency_ms: None, up: 0, down: 0 }
    }
}

/// Severity of a tunnel log entry.
#[derive(Debug, PartialEq, Eq, Clone, Copy)]
pub enum LogLevel {
    Info,
    Warn,
    Error,
}

impl LogLevel {
    pub open spec fn name_spec(self) -> Seq<char> {
        match self {
            LogLevel::Info => "info"@,
            LogLevel::Warn => "warn"@,
            LogLevel::Error => "error"@,
        }
    }

    /// The level's name as shown in log entries: `info`, `warn` or `error`.
    pub fn name(self) -> (s: &'static str)
        ensures
            s@ == self.name_spec(),
    {
        match self {
            LogLevel::Info => "info",
            LogLevel::Warn => "warn",
            LogLevel::Error => "error",
        }
    }
}

/// One entry of a tunnel's log.
#[derive(Debug, PartialEq, Eq)]
pub struct SshLogEntry {
    /// Local time of day, `HH:MM:SS`.
    pub time: String,
    /// `info`, `warn` or `error`.
    pub level: String,
    /// The message text.
    pub message: String,
}

impl Clone for SshLogEntry {
    fn clone(&self) -> (res: Self)
        ensures
            res == *self,
    {
        SshLogEntry {
            time: self.time.clone(),
            level: self.level.clone(),
            message: self.message.clone(),
        }
    }
}

} // verus!

//! Events pushed to the user interface, and the channel each one goes out on.
use vstd::prelude::*;
use crate::status::{SshLogEntry, TunnelStatus};

verus! {

/// An event for the main window.
#[derive(Debug)]
pub enum FrontendEvent<'a> {
    RefreshClash,
    RefreshVerge,
    NoticeMessage { status: &'a str, message: String },
    ProfileChanged { current_profile_id: &'a String },
    TimerUpdated { profile_index: &'a String },
    ProfileUpdateStarted { uid: &'a String },
    ProfileUpdateCompleted { uid: &'a String },
    SshTunnelStatusChanged { uid: String, status: TunnelStatus },
    SshTunnelLogs { uid: String, entries: Vec<SshLogEntry> },
}

/// Sends events to the main window.
#[derive(Debug)]
pub struct NotificationSystem {}

impl NotificationSystem {
    pub open spec fn channel_spec(event: &FrontendEvent) -> Seq<char> {
        match event {
            FrontendEvent::RefreshClash => "verge://refresh-clash-config"@,
            FrontendEvent::RefreshVerge => "verge://refresh-verge-config"@,
            FrontendEvent::NoticeMessage { .. } => "verge://notice-message"@,
            FrontendEvent::ProfileChanged { .. } => "profile-changed"@,
            FrontendEvent::TimerUpdated { .. } => "verge://timer-updated"@,
            FrontendEvent::ProfileUpdateStarted { .. } => "profile-update-started"@,
            FrontendEvent::ProfileUpdateCompleted { .. } => "profile-update-completed"@,
            FrontendEvent::SshTunnelStatusChanged { .. } => "verge://ssh-tunnel-status"@,
            FrontendEvent::SshTunnelLogs { .. } => "verge://ssh-tunnel-log"@,
        }
    }

    /// The event channel an event is emitted on.
    pub fn event_channel(event: &FrontendEvent) -> (name: &'static str)
        ensures
            name@ == Self::channel_spec(event),
    {
        match event {
            FrontendEvent::RefreshClash => "verge://refresh-clash-config",
            FrontendEvent::RefreshVerge => "verge://refresh-verge-config",
            FrontendEvent::NoticeMessage { .. } => "verge://notice-message",
            FrontendEvent::ProfileChanged { .. } => "profile-changed",
            FrontendEvent::TimerUpdated { .. } => "verge://timer-updated",
            FrontendEvent::ProfileUpdateStarted { .. } => "profile-update-started",
            FrontendEvent::ProfileUpdateCompleted { .. } => "profile-update-completed",
            FrontendEvent::SshTunnelStatusChanged { .. } => "verge://ssh-tunnel-status",
            FrontendEvent::SshTunnelLogs { .. } => "verge://ssh-tunnel-log",
        }
    }
}

impl TunnelStatus {
    pub open spec fn state_spec(&self) -> Seq<char> {
        match self {
            TunnelStatus::Stopped => "Stopped"@,
            TunnelStatus::Connecting => "Connecting"@,
            TunnelStatus::Running => "Running"@,
            TunnelStatus::Reconnecting => "Reconnecting"@,
            TunnelStatus::Error(_) => "Error"@,
        }
    }

    /// The `state` tag the status is sent with; an `Error` also sends its message.
    pub fn state_name(&self) -> (name: &'static str)
        ensures
            name@ == self.state_spec(),
    {
        match self {
            TunnelStatus::Stopped => "Stopped",
            TunnelStatus::Connecting => "Connecting",
            TunnelStatus::Running => "Running",
            TunnelStatus::Reconnecting => "Reconnecting",
            TunnelStatus::Error(_) => "Error",
        }
    }
}

} // verus!

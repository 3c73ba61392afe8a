//! The per-tunnel supervisor: binds the local SOCKS5 port (a few retries),
//! connects and authenticates, serves until the session is lost, and
//! reconnects after a fixed 3 second pause until the user stops it.
//!
//! The decisions are a state machine: the caller performs each
//! [`SupervisorCommand`] (bind, connect, accept, wait) and reports what
//! happened as a [`SupervisorEvent`], together with whether the stop signal
//! has been raised; the machine answers with the status changes and log
//! lines to emit and the next command.
use vstd::prelude::*;
use crate::config::ISshServer;
use crate::status::{LogLevel, TunnelStatus, TunnelStatusView};
use crate::text::{decimal, push_decimal};

verus! {

/// Number of attempts made to bind the local listening port.
pub const BIND_ATTEMPTS: u8 = 3;

/// Pause between two bind attempts, in milliseconds.
pub const BIND_RETRY_DELAY_MS: u64 = 500;

/// Fixed pause before reconnecting after a lost or failed session, in seconds.
pub const RECONNECT_DELAY_SECS: u64 = 3;

/// Where the supervisor stands.
#[derive(Debug, PartialEq, Eq, Clone, Copy)]
pub enum SupervisorPhase {
    /// Binding the local port; the number of earlier failed attempts.
    Binding(u8),
    /// Pausing after the given failed bind attempt (counted from 0).
    BindBackoff(u8),
    /// Connecting and authenticating to the SSH server.
    Connecting,
    /// Serving local SOCKS5 connections over the session.
    Running,
    /// Pausing before a reconnect.
    Waiting,
    /// The supervisor has ended.
    Finished,
}

/// What happened to the last command.
#[derive(Debug, PartialEq, Eq)]
pub enum SupervisorEvent {
    BindSucceeded,
    BindFailed { error: String },
    BackoffElapsed,
    Connected,
    ConnectFailed { error: String },
    SessionLost,
    WaitElapsed,
    /// The stop signal interrupted the pending command.
    Cancelled,
}

pub enum SupervisorEventView {
    BindSucceeded,
    BindFailed { error: Seq<char> },
    BackoffElapsed,
    Connected,
    ConnectFailed { error: Seq<char> },
    SessionLost,
    WaitElapsed,
    Cancelled,
}

impl View for SupervisorEvent {
    type V = SupervisorEventView;

    open spec fn view(&self) -> SupervisorEventView {
        match self {
            SupervisorEvent::BindSucceeded => SupervisorEventView::BindSucceeded,
            SupervisorEvent::BindFailed { error } => SupervisorEventView::BindFailed { error: error@ },
            SupervisorEvent::BackoffElapsed => SupervisorEventView::BackoffElapsed,
            SupervisorEvent::Connected => SupervisorEventView::Connected,
            SupervisorEvent::ConnectFailed { error } => SupervisorEventView::ConnectFailed {
                error: error@,
            },
            SupervisorEvent::SessionLost => SupervisorEventView::SessionLost,
            SupervisorEvent::WaitElapsed => SupervisorEventView::WaitElapsed,
            SupervisorEvent::Cancelled => SupervisorEventView::Cancelled,
        }
    }
}

/// What the caller is to do next.
#[derive(Debug, PartialEq, Eq, Clone, Copy)]
pub enum SupervisorCommand {
    /// Bind `127.0.0.1:<local_port>`.
    Bind,
    /// Sleep this many milliseconds (or until stopped), then report `BackoffElapsed`.
    BindBackoff { millis: u64 },
    /// Connect to the SSH server and authenticate with the password.
    Connect,
    /// Serve local connections until the session is lost or the tunnel is stopped.
    Accept,
    /// Sleep this many seconds (or until stopped), then report `WaitElapsed`.
    WaitReconnect { secs: u64 },
    /// End the supervisor.
    Exit,
}

/// A change the caller is to make visible.
#[derive(Debug, PartialEq, Eq)]
pub enum SupervisorEffect {
    /// Publish this status.
    Status(TunnelStatus),
    /// Append this line to the tunnel's log.
    Log(LogLevel, String),
    /// Forget the last latency reading.
    ClearLatency,
}

pub enum SupervisorEffectView {
    Status(TunnelStatusView),
    Log(LogLevel, Seq<char>),
    ClearLatency,
}

impl View for SupervisorEffect {
    type V = SupervisorEffectView;

    open spec fn view(&self) -> SupervisorEffectView {
        match self {
            SupervisorEffect::Status(s) => SupervisorEffectView::Status(s@),
            SupervisorEffect::Log(l, m) => SupervisorEffectView::Log(*l, m@),
            SupervisorEffect::ClearLatency => SupervisorEffectView::ClearLatency,
        }
    }
}

/// The answer to one event.
pub struct SupervisorStep {
    pub effects: Vec<SupervisorEffect>,
    pub command: SupervisorCommand,
}

/// The answer to one event, by its mathematical content.
pub struct SupervisorOutcome {
    pub phase: SupervisorPhase,
    pub effects: Seq<SupervisorEffectView>,
    pub command: SupervisorCommand,
}

/// The server a supervisor works for, by the fields its messages name.
pub struct TargetView {
    pub host: Seq<char>,
    pub port: u16,
    pub username: Seq<char>,
    pub local_port: u16,
}

pub open spec fn effects_view(effects: Seq<SupervisorEffect>) -> Seq<SupervisorEffectView> {
    effects.map_values(|e: SupervisorEffect| e@)
}

// ---- messages ----------------------------------------------------------

pub open spec fn msg_start(t: TargetView) -> Seq<char> {
    "启动隧道，本地 SOCKS5 端口 "@ + decimal(t.local_port as nat)
}

pub open spec fn msg_ready(t: TargetView) -> Seq<char> {
    "本地监听就绪 127.0.0.1:"@ + decimal(t.local_port as nat)
}

pub open spec fn msg_bind_failed(t: TargetView, attempt: u8, error: Seq<char>) -> Seq<char> {
    "绑定 127.0.0.1:"@ + decimal(t.local_port as nat) + " 失败（第 "@ + decimal(attempt as nat + 1)
        + " 次）: "@ + error
}

pub open spec fn msg_bind_gave_up(t: TargetView) -> Seq<char> {
    "本地端口 "@ + decimal(t.local_port as nat) + " 绑定失败（被占用）"@
}

pub open spec fn msg_connecting(t: TargetView) -> Seq<char> {
    "正在连接 "@ + t.username + "@"@ + t.host + ":"@ + decimal(t.port as nat) + " ..."@
}

pub open spec fn msg_authenticated() -> Seq<char> {
    "认证成功，隧道已就绪"@
}

pub open spec fn msg_session_lost() -> Seq<char> {
    "连接已断开，3 秒后重连"@
}

pub open spec fn msg_connect_failed(error: Seq<char>) -> Seq<char> {
    "连接失败: "@ + error + "；3 秒后重连"@
}

pub open spec fn msg_stopped() -> Seq<char> {
    "隧道已停止"@
}

// ---- the transition function -------------------------------------------

/// Status `Stopped` and the log line that says so.
pub open spec fn stop_effects() -> Seq<SupervisorEffectView> {
    seq![
        SupervisorEffectView::Status(TunnelStatusView::Stopped),
        SupervisorEffectView::Log(LogLevel::Info, msg_stopped()),
    ]
}

pub open spec fn stopped_outcome(pre: Seq<SupervisorEffectView>) -> SupervisorOutcome {
    SupervisorOutcome {
        phase: SupervisorPhase::Finished,
        effects: pre + stop_effects(),
        command: SupervisorCommand::Exit,
    }
}

/// Status `Connecting` and the log line naming the server.
pub open spec fn connect_effects(t: TargetView) -> Seq<SupervisorEffectView> {
    seq![
        SupervisorEffectView::Status(TunnelStatusView::Connecting),
        SupervisorEffectView::Log(LogLevel::Info, msg_connecting(t)),
    ]
}

/// The command a phase is waiting on.
pub open spec fn pending_command(phase: SupervisorPhase) -> SupervisorCommand {
    match phase {
        SupervisorPhase::Binding(_) => SupervisorCommand::Bind,
        SupervisorPhase::BindBackoff(_) => SupervisorCommand::BindBackoff {
            millis: BIND_RETRY_DELAY_MS,
        },
        SupervisorPhase::Connecting => SupervisorCommand::Connect,
        SupervisorPhase::Running => SupervisorCommand::Accept,
        SupervisorPhase::Waiting => SupervisorCommand::WaitReconnect { secs: RECONNECT_DELAY_SECS },
        SupervisorPhase::Finished => SupervisorCommand::Exit,
    }
}

/// The first answer of a supervisor: status `Connecting`, the start line, then a
/// bind (or the stop, when the stop signal is already raised).
pub open spec fn supervisor_begin(t: TargetView, cancelled: bool) -> SupervisorOutcome {
    let pre = seq![
        SupervisorEffectView::Status(TunnelStatusView::Connecting),
        SupervisorEffectView::Log(LogLevel::Info, msg_start(t)),
    ];
    if cancelled {
        stopped_outcome(pre)
    } else {
        SupervisorOutcome { phase: SupervisorPhase::Binding(0), effects: pre, command: SupervisorCommand::Bind }
    }
}

/// The answer to `event` in `phase`; `cancelled` tells whether the stop signal is raised.
pub open spec fn supervisor_next(
    t: TargetView,
    phase: SupervisorPhase,
    event: SupervisorEventView,
    cancelled: bool,
) -> SupervisorOutcome {
    let ignore = SupervisorOutcome { phase, effects: Seq::empty(), command: pending_command(phase) };
    match phase {
        SupervisorPhase::Finished => ignore,
        _ => match event {
            SupervisorEventView::Cancelled => stopped_outcome(Seq::empty()),
            SupervisorEventView::BindSucceeded => match phase {
                SupervisorPhase::Binding(_) => {
                    let pre = seq![SupervisorEffectView::Log(LogLevel::Info, msg_ready(t))];
                    if cancelled {
                        stopped_outcome(pre)
                    } else {
                        SupervisorOutcome {
                            phase: SupervisorPhase::Connecting,
                            effects: pre + connect_effects(t),
                            command: SupervisorCommand::Connect,
                        }
                    }
                },
                _ => ignore,
            },
            SupervisorEventView::BindFailed { error } => match phase {
                SupervisorPhase::Binding(a) => SupervisorOutcome {
                    phase: SupervisorPhase::BindBackoff(a),
                    effects: seq![SupervisorEffectView::Log(LogLevel::Warn, msg_bind_failed(t, a, error))],
                    command: SupervisorCommand::BindBackoff { millis: BIND_RETRY_DELAY_MS },
                },
                _ => ignore,
            },
            SupervisorEventView::BackoffElapsed => match phase {
                SupervisorPhase::BindBackoff(a) => if cancelled {
                    stopped_outcome(Seq::empty())
                } else if a + 1 >= BIND_ATTEMPTS {
                    SupervisorOutcome {
                        phase: SupervisorPhase::Finished,
                        effects: seq![
                            SupervisorEffectView::Log(LogLevel::Error, msg_bind_gave_up(t)),
                            SupervisorEffectView::Status(TunnelStatusView::Error(msg_bind_gave_up(t))),
                        ],
                        command: SupervisorCommand::Exit,
                    }
                } else {
                    SupervisorOutcome {
                        phase: SupervisorPhase::Binding((a + 1) as u8),
                        effects: Seq::empty(),
                        command: SupervisorCommand::Bind,
                    }
                },
                _ => ignore,
            },
            SupervisorEventView::Connected => match phase {
                SupervisorPhase::Connecting => SupervisorOutcome {
                    phase: SupervisorPhase::Running,
                    effects: seq![
                        SupervisorEffectView::Status(TunnelStatusView::Running),
                        SupervisorEffectView::Log(LogLevel::Info, msg_authenticated()),
                    ],
                    command: SupervisorCommand::Accept,
                },
                _ => ignore,
            },
            SupervisorEventView::ConnectFailed { error } => match phase {
                SupervisorPhase::Connecting => if cancelled {
                    stopped_outcome(Seq::empty())
                } else {
                    SupervisorOutcome {
                        phase: SupervisorPhase::Waiting,
                        effects: seq![
                            SupervisorEffectView::Status(TunnelStatusView::Reconnecting),
                            SupervisorEffectView::Log(LogLevel::Error, msg_connect_failed(error)),
                        ],
                        command: SupervisorCommand::WaitReconnect { secs: RECONNECT_DELAY_SECS },
                    }
                },
                _ => ignore,
            },
            SupervisorEventView::SessionLost => match phase {
                SupervisorPhase::Running => if cancelled {
                    stopped_outcome(Seq::empty())
                } else {
                    SupervisorOutcome {
                        phase: SupervisorPhase::Waiting,
                        effects: seq![
                            SupervisorEffectView::ClearLatency,
                            SupervisorEffectView::Status(TunnelStatusView::Reconnecting),
                            SupervisorEffectView::Log(LogLevel::Warn, msg_session_lost()),
                        ],
                        command: SupervisorCommand::WaitReconnect { secs: RECONNECT_DELAY_SECS },
                    }
                },
                _ => ignore,
            },
            SupervisorEventView::WaitElapsed => match phase {
                SupervisorPhase::Waiting => if cancelled {
                    stopped_outcome(Seq::empty())
                } else {
                    SupervisorOutcome {
                        phase: SupervisorPhase::Connecting,
                        effects: connect_effects(t),
                        command: SupervisorCommand::Connect,
                    }
                },
                _ => ignore,
            },
        },
    }
}

/// A tunnel's supervisor state.
pub struct TunnelSupervisor {
    pub host: String,
    pub port: u16,
    pub username: String,
    pub local_port: u16,
    pub phase: SupervisorPhase,
}

impl TunnelSupervisor {
    pub open spec fn target(&self) -> TargetView {
        TargetView {
            host: self.host@,
            port: self.port,
            username: self.username@,
            local_port: self.local_port,
        }
    }

    /// Starts supervising `server`: returns the supervisor and its first answer.
    pub fn start(server: &ISshServer, cancelled: bool) -> (res: (TunnelSupervisor, SupervisorStep))
        ensures
            res.0.host@ == server.host@,
            res.0.port == server.port,
            res.0.username@ == server.username@,
            res.0.local_port == server.local_port,
            ({
                let o = supervisor_begin(res.0.target(), cancelled);
                &&& res.0.phase == o.phase
                &&& effects_view(res.1.effects@) == o.effects
                &&& res.1.command == o.command
            }),
    {
        let sup = TunnelSupervisor {
            host: server.host.clone(),
            port: server.port,
            username: server.username.clone(),
            local_port: server.local_port,
            phase: SupervisorPhase::Binding(0),
        };
        let mut effects: Vec<SupervisorEffect> = Vec::new();
        effects.push(SupervisorEffect::Status(TunnelStatus::Connecting));
        effects.push(SupervisorEffect::Log(LogLevel::Info, sup.message_start()));
        let mut sup = sup;
        if cancelled {
            push_stop_effects(&mut effects);
            sup.phase = SupervisorPhase::Finished;
            let step = SupervisorStep { effects, command: SupervisorCommand::Exit };
            proof {
                assert(effects_view(step.effects@) =~= supervisor_begin(sup.target(), cancelled).effects);
            }
            (sup, step)
        } else {
            let step = SupervisorStep { effects, command: SupervisorCommand::Bind };
            proof {
                assert(effects_view(step.effects@) =~= supervisor_begin(sup.target(), cancelled).effects);
            }
            (sup, step)
        }
    }

    /// Answers `event`; `cancelled` tells whether the stop signal is raised.
    pub fn step(&mut self, event: SupervisorEvent, cancelled: bool) -> (res: SupervisorStep)
        ensures
            final(self).host == old(self).host,
            final(self).port == old(self).port,
            final(self).username == old(self).username,
            final(self).local_port == old(self).local_port,
            ({
                let o = supervisor_next(old(self).target(), old(self).phase, event@, cancelled);
                &&& final(self).phase == o.phase
                &&& effects_view(res.effects@) == o.effects
                &&& res.command == o.command
            }),
    {
        let ghost t = self.target();
        let ghost ev = event@;
        let phase = self.phase;
        let mut effects: Vec<SupervisorEffect> = Vec::new();
        let ignore_command = self.pending();
        if let SupervisorPhase::Finished = phase {
            return SupervisorStep { effects, command: ignore_command };
        }
        let command = match event {
            SupervisorEvent::Cancelled => {
                push_stop_effects(&mut effects);
                self.phase = SupervisorPhase::Finished;
                SupervisorCommand::Exit
            },
            SupervisorEvent::BindSucceeded => match phase {
                SupervisorPhase::Binding(_) => {
                    effects.push(SupervisorEffect::Log(LogLevel::Info, self.message_ready()));
                    if cancelled {
                        push_stop_effects(&mut effects);
                        self.phase = SupervisorPhase::Finished;
                        SupervisorCommand::Exit
                    } else {
                        self.push_connect_effects(&mut effects);
                        self.phase = SupervisorPhase::Connecting;
                        SupervisorCommand::Connect
                    }
                },
                _ => ignore_command,
            },
            SupervisorEvent::BindFailed { error } => match phase {
                SupervisorPhase::Binding(a) => {
                    effects.push(
                        SupervisorEffect::Log(LogLevel::Warn, self.message_bind_failed(a, &error)),
                    );
                    self.phase = SupervisorPhase::BindBackoff(a);
                    SupervisorCommand::BindBackoff { millis: BIND_RETRY_DELAY_MS }
                },
                _ => ignore_command,
            },
            SupervisorEvent::BackoffElapsed => match phase {
                SupervisorPhase::BindBackoff(a) => {
                    if cancelled {
                        push_stop_effects(&mut effects);
                        self.phase = SupervisorPhase::Finished;
                        SupervisorCommand::Exit
                    } else if a >= BIND_ATTEMPTS - 1 {
                        effects.push(SupervisorEffect::Log(LogLevel::Error, self.message_bind_gave_up()));
                        effects.push(SupervisorEffect::Status(TunnelStatus::Error(self.message_bind_gave_up())));
                        self.phase = SupervisorPhase::Finished;
                        SupervisorCommand::Exit
                    } else {
                        self.phase = SupervisorPhase::Binding(a + 1);
                        SupervisorCommand::Bind
                    }
                },
                _ => ignore_command,
            },
            SupervisorEvent::Connected => match phase {
                SupervisorPhase::Connecting => {
                    effects.push(SupervisorEffect::Status(TunnelStatus::Running));
                    effects.push(SupervisorEffect::Log(LogLevel::Info, message_authenticated()));
                    self.phase = SupervisorPhase::Running;
                    SupervisorCommand::Accept
                },
                _ => ignore_command,
            },
            SupervisorEvent::ConnectFailed { error } => match phase {
                SupervisorPhase::Connecting => {
                    if cancelled {
                        push_stop_effects(&mut effects);
                        self.phase = SupervisorPhase::Finished;
                        SupervisorCommand::Exit
                    } else {
                        effects.push(SupervisorEffect::Status(TunnelStatus::Reconnecting));
                        effects.push(
                            SupervisorEffect::Log(LogLevel::Error, message_connect_failed(&error)),
                        );
                        self.phase = SupervisorPhase::Waiting;
                        SupervisorCommand::WaitReconnect { secs: RECONNECT_DELAY_SECS }
                    }
                },
                _ => ignore_command,
            },
            SupervisorEvent::SessionLost => match phase {
                SupervisorPhase::Running => {
                    if cancelled {
                        push_stop_effects(&mut effects);
                        self.phase = SupervisorPhase::Finished;
                        SupervisorCommand::Exit
                    } else {
                        effects.push(SupervisorEffect::ClearLatency);
                        effects.push(SupervisorEffect::Status(TunnelStatus::Reconnecting));
                        effects.push(SupervisorEffect::Log(LogLevel::Warn, message_session_lost()));
                        self.phase = SupervisorPhase::Waiting;
                        SupervisorCommand::WaitReconnect { secs: RECONNECT_DELAY_SECS }
                    }
                },
                _ => ignore_command,
            },
            SupervisorEvent::WaitElapsed => match phase {
                SupervisorPhase::Waiting => {
                    if cancelled {
                        push_stop_effects(&mut effects);
                        self.phase = SupervisorPhase::Finished;
                        SupervisorCommand::Exit
                    } else {
                        self.push_connect_effects(&mut effects);
                        self.phase = SupervisorPhase::Connecting;
                        SupervisorCommand::Connect
                    }
                },
                _ => ignore_command,
            },
        };
        let step = SupervisorStep { effects, command };
        proof {
            let o = supervisor_next(t, phase, ev, cancelled);
            assert(effects_view(step.effects@) =~= o.effects);
        }
        step
    }

    fn pending(&self) -> (c: SupervisorCommand)
        ensures
            c == pending_command(self.phase),
    {
        match self.phase {
            SupervisorPhase::Binding(_) => SupervisorCommand::Bind,
            SupervisorPhase::BindBackoff(_) => SupervisorCommand::BindBackoff { millis: BIND_RETRY_DELAY_MS },
            SupervisorPhase::Connecting => SupervisorCommand::Connect,
            SupervisorPhase::Running => SupervisorCommand::Accept,
            SupervisorPhase::Waiting => SupervisorCommand::WaitReconnect { secs: RECONNECT_DELAY_SECS },
            SupervisorPhase::Finished => SupervisorCommand::Exit,
        }
    }

    fn message_start(&self) -> (m: String)
        ensures
            m@ == msg_start(self.target()),
    {
        let mut m = String::from_str("启动隧道，本地 SOCKS5 端口 ");
        push_decimal(&mut m, self.local_port as u64);
        m
    }

    fn message_ready(&self) -> (m: String)
        ensures
            m@ == msg_ready(self.target()),
    {
        let mut m = String::from_str("本地监听就绪 127.0.0.1:");
        push_decimal(&mut m, self.local_port as u64);
        m
    }

    fn message_bind_failed(&self, attempt: u8, error: &String) -> (m: String)
        ensures
            m@ == msg_bind_failed(self.target(), attempt, error@),
    {
        let mut m = String::from_str("绑定 127.0.0.1:");
        push_decimal(&mut m, self.local_port as u64);
        m.append(" 失败（第 ");
        push_decimal(&mut m, attempt as u64 + 1);
        m.append(" 次）: ");
        m.append(error.as_str());
        m
    }

    fn message_bind_gave_up(&self) -> (m: String)
        ensures
            m@ == msg_bind_gave_up(self.target()),
    {
        let mut m = String::from_str("本地端口 ");
        push_decimal(&mut m, self.local_port as u64);
        m.append(" 绑定失败（被占用）");
        m
    }

    fn message_connecting(&self) -> (m: String)
        ensures
            m@ == msg_connecting(self.target()),
    {
        let mut m = String::from_str("正在连接 ");
        m.append(self.username.as_str());
        m.append("@");
        m.append(self.host.as_str());
        m.append(":");
        push_decimal(&mut m, self.port as u64);
        m.append(" ...");
        m
    }

    fn push_connect_effects(&self, effects: &mut Vec<SupervisorEffect>)
        ensures
            effects_view(final(effects)@) =~= effects_view(old(effects)@) + connect_effects(self.target()),
    {
        effects.push(SupervisorEffect::Status(TunnelStatus::Connecting));
        effects.push(SupervisorEffect::Log(LogLevel::Info, self.message_connecting()));
    }
}

fn message_authenticated() -> (m: String)
    ensures
        m@ == msg_authenticated(),
{
    String::from_str("认证成功，隧道已就绪")
}

fn message_session_lost() -> (m: String)
    ensures
        m@ == msg_session_lost(),
{
    String::from_str("连接已断开，3 秒后重连")
}

fn message_connect_failed(error: &String) -> (m: String)
    ensures
        m@ == msg_connect_failed(error@),
{
    let mut m = String::from_str("连接失败: ");
    m.append(error.as_str());
    m.append("；3 秒后重连");
    m
}

fn push_stop_effects(effects: &mut Vec<SupervisorEffect>)
    ensures
        effects_view(final(effects)@) =~= effects_view(old(effects)@) + stop_effects(),
{
    effects.push(SupervisorEffect::Status(TunnelStatus::Stopped));
    effects.push(SupervisorEffect::Log(LogLevel::Info, String::from_str("隧道已停止")));
}


// ---- the accept loop -----------------------------------------------------

/// Why the accept loop ended.
#[derive(Debug, PartialEq, Eq, Clone, Copy)]
pub enum AcceptEnd {
    Cancelled,
    SessionLost,
}

/// What the accept loop observed.
#[derive(Debug, PartialEq, Eq)]
pub enum AcceptEvent {
    /// The stop signal was raised.
    Cancelled,
    /// The session health check found the session closed.
    SessionLost,
    /// A local client connected; whether the session was closed at that moment.
    Accepted { session_closed: bool },
    /// Accepting a local connection failed.
    AcceptFailed { error: String },
}

/// What the accept loop does about it.
#[derive(Debug, PartialEq, Eq)]
pub enum AcceptAction {
    /// Leave the loop.
    End(AcceptEnd),
    /// Serve the new client (SOCKS5 handshake, then relay) and keep accepting.
    Serve,
    /// Log this warning and keep accepting.
    Warn(String),
}

pub open spec fn msg_accept_failed(error: Seq<char>) -> Seq<char> {
    "接受本地连接出错: "@ + error
}

pub open spec fn msg_connection_ended(peer: Seq<char>, error: Seq<char>) -> Seq<char> {
    "来自 "@ + peer + " 的连接结束: "@ + error
}

/// The accept loop's decision on one observation: stop on the stop signal, leave to
/// reconnect when the session is gone (also when it is found closed as a client
/// arrives), serve clients otherwise, and only log failed accepts.
pub fn accept_decision(event: AcceptEvent) -> (a: AcceptAction)
    ensures
        match event {
            AcceptEvent::Cancelled => a == AcceptAction::End(AcceptEnd::Cancelled),
            AcceptEvent::SessionLost => a == AcceptAction::End(AcceptEnd::SessionLost),
            AcceptEvent::Accepted { session_closed } => if session_closed {
                a == AcceptAction::End(AcceptEnd::SessionLost)
            } else {
                a == AcceptAction::Serve
            },
            AcceptEvent::AcceptFailed { error } => a matches AcceptAction::Warn(m) && m@
                == msg_accept_failed(error@),
        },
{
    match event {
        AcceptEvent::Cancelled => AcceptAction::End(AcceptEnd::Cancelled),
        AcceptEvent::SessionLost => AcceptAction::End(AcceptEnd::SessionLost),
        AcceptEvent::Accepted { session_closed } => {
            if session_closed {
                AcceptAction::End(AcceptEnd::SessionLost)
            } else {
                AcceptAction::Serve
            }
        },
        AcceptEvent::AcceptFailed { error } => {
            let mut m = String::from_str("接受本地连接出错: ");
            m.append(error.as_str());
            AcceptAction::Warn(m)
        },
    }
}

/// The warning logged when serving the client at `peer` ended with `error`.
pub fn connection_ended_message(peer: &str, error: &str) -> (m: String)
    ensures
        m@ == msg_connection_ended(peer@, error@),
{
    let mut m = String::from_str("来自 ");
    m.append(peer);
    m.append(" 的连接结束: ");
    m.append(error);
    m
}

/// The supervisor event an ended accept loop stands for.
pub fn accept_end_event(end: AcceptEnd) -> (e: SupervisorEvent)
    ensures
        end == AcceptEnd::Cancelled ==> e == SupervisorEvent::Cancelled,
        end == AcceptEnd::SessionLost ==> e == SupervisorEvent::SessionLost,
{
    match end {
        AcceptEnd::Cancelled => SupervisorEvent::Cancelled,
        AcceptEnd::SessionLost => SupervisorEvent::SessionLost,
    }
}

// ---- laws ----------------------------------------------------------------

/// The events a phase waits for: the outcomes of its pending command and the stop signal.
pub open spec fn awaited(phase: SupervisorPhase, event: SupervisorEventView) -> bool {
    match event {
        SupervisorEventView::Cancelled => phase != SupervisorPhase::Finished,
        SupervisorEventView::BindSucceeded => phase is Binding,
        SupervisorEventView::BindFailed { .. } => phase is Binding,
        SupervisorEventView::BackoffElapsed => phase is BindBackoff,
        SupervisorEventView::Connected => phase == SupervisorPhase::Connecting,
        SupervisorEventView::ConnectFailed { .. } => phase == SupervisorPhase::Connecting,
        SupervisorEventView::SessionLost => phase == SupervisorPhase::Running,
        SupervisorEventView::WaitElapsed => phase == SupervisorPhase::Waiting,
    }
}

/// The last status among `effects`, if any.
pub open spec fn last_status(effects: Seq<SupervisorEffectView>) -> Option<TunnelStatusView>
    decreases effects.len(),
{
    if effects.len() == 0 {
        None
    } else {
        match effects.last() {
            SupervisorEffectView::Status(s) => Some(s),
            _ => last_status(effects.drop_last()),
        }
    }
}

/// Commands that (re)establish the tunnel.
pub open spec fn reaches_out(c: SupervisorCommand) -> bool {
    c is Bind || c is Connect || c is WaitReconnect
}

/// A finished supervisor stays finished: it answers every event with no
/// effect and the command to exit.
pub proof fn law_finished_is_final(t: TargetView, event: SupervisorEventView, cancelled: bool)
    ensures
        supervisor_next(t, SupervisorPhase::Finished, event, cancelled) == (SupervisorOutcome {
            phase: SupervisorPhase::Finished,
            effects: Seq::empty(),
            command: SupervisorCommand::Exit,
        }),
{
}

/// Stopping is final: when the stop signal interrupts the pending command in any
/// live phase, the supervisor publishes `Stopped`, logs that it stopped, and exits.
pub proof fn law_stop_signal_stops(t: TargetView, phase: SupervisorPhase, cancelled: bool)
    requires
        phase != SupervisorPhase::Finished,
    ensures
        supervisor_next(t, phase, SupervisorEventView::Cancelled, cancelled) == stopped_outcome(
            Seq::empty(),
        ),
        last_status(stop_effects()) == Some(TunnelStatusView::Stopped),
{
    reveal_with_fuel(last_status, 3);
}

/// Once the stop signal is raised the supervisor never binds, connects or waits to
/// reconnect again, whatever it is told.
pub proof fn law_cancelled_never_reconnects(t: TargetView, phase: SupervisorPhase, event: SupervisorEventView)
    requires
        awaited(phase, event),
    ensures
        !reaches_out(supervisor_next(t, phase, event, true).command),
        !reaches_out(supervisor_begin(t, true).command),
{
}

/// An event a phase does not wait for changes nothing: no effect, same phase,
/// and the pending command is repeated.
pub proof fn law_unexpected_event_ignored(
    t: TargetView,
    phase: SupervisorPhase,
    event: SupervisorEventView,
    cancelled: bool,
)
    requires
        !awaited(phase, event),
    ensures
        supervisor_next(t, phase, event, cancelled) == (SupervisorOutcome {
            phase,
            effects: Seq::empty(),
            command: pending_command(phase),
        }),
{
}

/// The supervisor exits exactly when it finishes, and whenever a live supervisor
/// exits its last published status is `Stopped` or an `Error`: never `Running`.
pub proof fn law_exit_reports_final_status(
    t: TargetView,
    phase: SupervisorPhase,
    event: SupervisorEventView,
    cancelled: bool,
)
    requires
        phase != SupervisorPhase::Finished,
    ensures
        ({
            let o = supervisor_next(t, phase, event, cancelled);
            &&& (o.command == SupervisorCommand::Exit) == (o.phase == SupervisorPhase::Finished)
            &&& o.command == SupervisorCommand::Exit ==> (last_status(o.effects) == Some(
                TunnelStatusView::Stopped,
            ) || last_status(o.effects) == Some(TunnelStatusView::Error(msg_bind_gave_up(t))))
        }),
        ({
            let o = supervisor_begin(t, cancelled);
            &&& (o.command == SupervisorCommand::Exit) == (o.phase == SupervisorPhase::Finished)
            &&& o.command == SupervisorCommand::Exit ==> last_status(o.effects) == Some(
                TunnelStatusView::Stopped,
            )
        }),
{
    reveal_with_fuel(last_status, 5);
    let o = supervisor_next(t, phase, event, cancelled);
    if o.command == SupervisorCommand::Exit {
        let e = o.effects;
        if e.len() == 4 {
            assert(e.last() == SupervisorEffectView::Log(LogLevel::Info, msg_stopped()));
            assert(e.drop_last().last() == SupervisorEffectView::Status(TunnelStatusView::Stopped));
        } else if e.len() == 3 {
            assert(e.last() == SupervisorEffectView::Log(LogLevel::Info, msg_stopped()));
            assert(e.drop_last().last() == SupervisorEffectView::Status(TunnelStatusView::Stopped));
        } else if e.len() == 2 {
            assert(e.drop_last().len() == 1);
        }
    }
    let b = supervisor_begin(t, cancelled);
    if cancelled {
        assert(b.effects.last() == SupervisorEffectView::Log(LogLevel::Info, msg_stopped()));
        assert(b.effects.drop_last().last() == SupervisorEffectView::Status(TunnelStatusView::Stopped));
    }
}

/// A lost session (not stopped) publishes `Reconnecting`, forgets the latency and
/// waits exactly 3 seconds; when the wait ends (still not stopped) the supervisor
/// publishes `Connecting` and connects again.
pub proof fn law_lost_session_reconnects(t: TargetView)
    ensures
        ({
            let o = supervisor_next(t, SupervisorPhase::Running, SupervisorEventView::SessionLost, false);
            &&& o.phase == SupervisorPhase::Waiting
            &&& o.command == (SupervisorCommand::WaitReconnect { secs: 3 })
            &&& o.effects.contains(SupervisorEffectView::ClearLatency)
            &&& last_status(o.effects) == Some(TunnelStatusView::Reconnecting)
        }),
        ({
            let o = supervisor_next(t, SupervisorPhase::Waiting, SupervisorEventView::WaitElapsed, false);
            &&& o.phase == SupervisorPhase::Connecting
            &&& o.command == SupervisorCommand::Connect
            &&& last_status(o.effects) == Some(TunnelStatusView::Connecting)
        }),
{
    reveal_with_fuel(last_status, 4);
    let o = supervisor_next(t, SupervisorPhase::Running, SupervisorEventView::SessionLost, false);
    assert(o.effects[0] == SupervisorEffectView::ClearLatency);
    assert(o.effects.drop_last().last() == SupervisorEffectView::Status(TunnelStatusView::Reconnecting));
    let w = supervisor_next(t, SupervisorPhase::Waiting, SupervisorEventView::WaitElapsed, false);
    assert(w.effects.drop_last().last() == SupervisorEffectView::Status(TunnelStatusView::Connecting));
}

/// A failed connection attempt (not stopped) publishes `Reconnecting` and waits
/// exactly 3 seconds before the next attempt.
pub proof fn law_failed_connect_retries(t: TargetView, error: Seq<char>)
    ensures
        ({
            let o = supervisor_next(
                t,
                SupervisorPhase::Connecting,
                SupervisorEventView::ConnectFailed { error },
                false,
            );
            &&& o.phase == SupervisorPhase::Waiting
            &&& o.command == (SupervisorCommand::WaitReconnect { secs: 3 })
            &&& last_status(o.effects) == Some(TunnelStatusView::Reconnecting)
        }),
{
    reveal_with_fuel(last_status, 3);
    let o = supervisor_next(t, SupervisorPhase::Connecting, SupervisorEventView::ConnectFailed { error }, false);
    assert(o.effects.drop_last().last() == SupervisorEffectView::Status(TunnelStatusView::Reconnecting));
}

/// The local port is tried three times, 500 ms apart; after the third failure the
/// supervisor reports the port as taken and exits with that error.
pub proof fn law_bind_gives_up_after_three_attempts(
    t: TargetView,
    e0: Seq<char>,
    e1: Seq<char>,
    e2: Seq<char>,
)
    ensures
        ({
            let s0 = supervisor_begin(t, false);
            let s1 = supervisor_next(t, s0.phase, SupervisorEventView::BindFailed { error: e0 }, false);
            let s2 = supervisor_next(t, s1.phase, SupervisorEventView::BackoffElapsed, false);
            let s3 = supervisor_next(t, s2.phase, SupervisorEventView::BindFailed { error: e1 }, false);
            let s4 = supervisor_next(t, s3.phase, SupervisorEventView::BackoffElapsed, false);
            let s5 = supervisor_next(t, s4.phase, SupervisorEventView::BindFailed { error: e2 }, false);
            let s6 = supervisor_next(t, s5.phase, SupervisorEventView::BackoffElapsed, false);
            &&& s1.command == (SupervisorCommand::BindBackoff { millis: 500 })
            &&& s2.command == SupervisorCommand::Bind
            &&& s3.command == (SupervisorCommand::BindBackoff { millis: 500 })
            &&& s4.command == SupervisorCommand::Bind
            &&& s5.command == (SupervisorCommand::BindBackoff { millis: 500 })
            &&& s6.command == SupervisorCommand::Exit
            &&& s6.phase == SupervisorPhase::Finished
            &&& last_status(s6.effects) == Some(TunnelStatusView::Error(msg_bind_gave_up(t)))
        }),
{
    reveal_with_fuel(last_status, 3);
}

} // verus!

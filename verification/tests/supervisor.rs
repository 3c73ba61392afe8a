use verge_ssh::config::ISshServer;
use verge_ssh::status::{LogLevel, TunnelStatus};
use verge_ssh::supervisor::{
    accept_decision, accept_end_event, connection_ended_message, AcceptAction, AcceptEnd, AcceptEvent,
    SupervisorCommand, SupervisorEffect, SupervisorEvent, SupervisorPhase, TunnelSupervisor,
};

fn server() -> ISshServer {
    ISshServer {
        uid: "s1".to_string(),
        name: "vmiss".to_string(),
        host: "203.0.113.5".to_string(),
        port: 2222,
        username: "root".to_string(),
        password: Some("pw".to_string()),
        local_port: 10880,
        enabled: true,
    }
}

fn log(level: LogLevel, m: &str) -> SupervisorEffect {
    SupervisorEffect::Log(level, m.to_string())
}

fn stopped() -> Vec<SupervisorEffect> {
    vec![SupervisorEffect::Status(TunnelStatus::Stopped), log(LogLevel::Info, "隧道已停止")]
}

#[test]
fn start_binds_then_connects() {
    let (mut sup, step) = TunnelSupervisor::start(&server(), false);
    assert_eq!(
        step.effects,
        vec![
            SupervisorEffect::Status(TunnelStatus::Connecting),
            log(LogLevel::Info, "启动隧道，本地 SOCKS5 端口 10880"),
        ]
    );
    assert_eq!(step.command, SupervisorCommand::Bind);
    let step = sup.step(SupervisorEvent::BindSucceeded, false);
    assert_eq!(
        step.effects,
        vec![
            log(LogLevel::Info, "本地监听就绪 127.0.0.1:10880"),
            SupervisorEffect::Status(TunnelStatus::Connecting),
            log(LogLevel::Info, "正在连接 root@203.0.113.5:2222 ..."),
        ]
    );
    assert_eq!(step.command, SupervisorCommand::Connect);
    let step = sup.step(SupervisorEvent::Connected, false);
    assert_eq!(
        step.effects,
        vec![SupervisorEffect::Status(TunnelStatus::Running), log(LogLevel::Info, "认证成功，隧道已就绪")]
    );
    assert_eq!(step.command, SupervisorCommand::Accept);
    assert_eq!(sup.phase, SupervisorPhase::Running);
}

#[test]
fn lost_session_reconnects_after_three_seconds() {
    let (mut sup, _) = TunnelSupervisor::start(&server(), false);
    sup.step(SupervisorEvent::BindSucceeded, false);
    sup.step(SupervisorEvent::Connected, false);
    let step = sup.step(SupervisorEvent::SessionLost, false);
    assert_eq!(
        step.effects,
        vec![
            SupervisorEffect::ClearLatency,
            SupervisorEffect::Status(TunnelStatus::Reconnecting),
            log(LogLevel::Warn, "连接已断开，3 秒后重连"),
        ]
    );
    assert_eq!(step.command, SupervisorCommand::WaitReconnect { secs: 3 });
    let step = sup.step(SupervisorEvent::WaitElapsed, false);
    assert_eq!(step.command, SupervisorCommand::Connect);
    assert_eq!(step.effects[0], SupervisorEffect::Status(TunnelStatus::Connecting));
}

#[test]
fn failed_connect_is_retried() {
    let (mut sup, _) = TunnelSupervisor::start(&server(), false);
    sup.step(SupervisorEvent::BindSucceeded, false);
    let step = sup.step(SupervisorEvent::ConnectFailed { error: "SSH 密码认证失败".to_string() }, false);
    assert_eq!(
        step.effects,
        vec![
            SupervisorEffect::Status(TunnelStatus::Reconnecting),
            log(LogLevel::Error, "连接失败: SSH 密码认证失败；3 秒后重连"),
        ]
    );
    assert_eq!(step.command, SupervisorCommand::WaitReconnect { secs: 3 });
}

#[test]
fn stop_during_wait_is_final() {
    let (mut sup, _) = TunnelSupervisor::start(&server(), false);
    sup.step(SupervisorEvent::BindSucceeded, false);
    sup.step(SupervisorEvent::ConnectFailed { error: "timeout".to_string() }, false);
    let step = sup.step(SupervisorEvent::Cancelled, true);
    assert_eq!(step.effects, stopped());
    assert_eq!(step.command, SupervisorCommand::Exit);
    // a finished supervisor ignores everything
    let step = sup.step(SupervisorEvent::WaitElapsed, false);
    assert!(step.effects.is_empty());
    assert_eq!(step.command, SupervisorCommand::Exit);
}

#[test]
fn stop_signal_wins_over_a_connect_failure() {
    let (mut sup, _) = TunnelSupervisor::start(&server(), false);
    sup.step(SupervisorEvent::BindSucceeded, false);
    let step = sup.step(SupervisorEvent::ConnectFailed { error: "x".to_string() }, true);
    assert_eq!(step.effects, stopped());
    assert_eq!(step.command, SupervisorCommand::Exit);
}

#[test]
fn already_stopped_at_start() {
    let (sup, step) = TunnelSupervisor::start(&server(), true);
    assert_eq!(step.command, SupervisorCommand::Exit);
    assert_eq!(sup.phase, SupervisorPhase::Finished);
    assert_eq!(step.effects[2..], stopped()[..]);
}

#[test]
fn bind_gives_up_after_three_attempts() {
    let (mut sup, _) = TunnelSupervisor::start(&server(), false);
    for attempt in 1..=3u8 {
        let step = sup.step(SupervisorEvent::BindFailed { error: "Address in use".to_string() }, false);
        assert_eq!(
            step.effects,
            vec![log(
                LogLevel::Warn,
                &format!("绑定 127.0.0.1:10880 失败（第 {attempt} 次）: Address in use")
            )]
        );
        assert_eq!(step.command, SupervisorCommand::BindBackoff { millis: 500 });
        let step = sup.step(SupervisorEvent::BackoffElapsed, false);
        if attempt < 3 {
            assert_eq!(step.command, SupervisorCommand::Bind);
            assert!(step.effects.is_empty());
        } else {
            let msg = "本地端口 10880 绑定失败（被占用）".to_string();
            assert_eq!(
                step.effects,
                vec![
                    SupervisorEffect::Log(LogLevel::Error, msg.clone()),
                    SupervisorEffect::Status(TunnelStatus::Error(msg)),
                ]
            );
            assert_eq!(step.command, SupervisorCommand::Exit);
        }
    }
}

#[test]
fn unexpected_event_changes_nothing() {
    let (mut sup, _) = TunnelSupervisor::start(&server(), false);
    let step = sup.step(SupervisorEvent::Connected, false);
    assert!(step.effects.is_empty());
    assert_eq!(step.command, SupervisorCommand::Bind);
    assert_eq!(sup.phase, SupervisorPhase::Binding(0));
}

#[test]
fn accept_loop_decisions() {
    assert_eq!(accept_decision(AcceptEvent::Cancelled), AcceptAction::End(AcceptEnd::Cancelled));
    assert_eq!(accept_decision(AcceptEvent::SessionLost), AcceptAction::End(AcceptEnd::SessionLost));
    assert_eq!(
        accept_decision(AcceptEvent::Accepted { session_closed: true }),
        AcceptAction::End(AcceptEnd::SessionLost)
    );
    assert_eq!(accept_decision(AcceptEvent::Accepted { session_closed: false }), AcceptAction::Serve);
    assert_eq!(
        accept_decision(AcceptEvent::AcceptFailed { error: "too many files".to_string() }),
        AcceptAction::Warn("接受本地连接出错: too many files".to_string())
    );
    assert_eq!(accept_end_event(AcceptEnd::SessionLost), SupervisorEvent::SessionLost);
    assert_eq!(
        connection_ended_message("127.0.0.1:5000", "非 SOCKS5 请求"),
        "来自 127.0.0.1:5000 的连接结束: 非 SOCKS5 请求"
    );
}

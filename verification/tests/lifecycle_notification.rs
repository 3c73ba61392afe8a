use verge_ssh::lifecycle::{
    service_attempt, service_attempt_error, service_wait_retries, start_route, startup_mode, stop_route,
    validate_clash_core, ProbeAction, ReadinessProbe, RunningMode, ServiceAttempt, StartRoute, StopRoute,
    probe_gave_up_message,
};
use verge_ssh::notification::{FrontendEvent, NotificationSystem};
use verge_ssh::status::{SshLogEntry, TunnelStatus};

#[test]
fn core_routes() {
    assert_eq!(startup_mode(true), RunningMode::Service);
    assert_eq!(startup_mode(false), RunningMode::Sidecar);
    assert_eq!(start_route(RunningMode::Service), StartRoute::ByService);
    assert_eq!(start_route(RunningMode::NotRunning), StartRoute::BySidecar);
    assert_eq!(start_route(RunningMode::Sidecar), StartRoute::BySidecar);
    assert_eq!(stop_route(RunningMode::Service), StopRoute::ByService);
    assert_eq!(stop_route(RunningMode::Sidecar), StopRoute::BySidecar);
    assert_eq!(stop_route(RunningMode::NotRunning), StopRoute::Nothing);
}

#[test]
fn core_names() {
    let valid = vec!["verge-mihomo".to_string(), "verge-mihomo-alpha".to_string()];
    assert_eq!(validate_clash_core("verge-mihomo-alpha", &valid), Ok(()));
    assert_eq!(
        validate_clash_core("clash", &valid),
        Err("Invalid clash core: clash".to_string())
    );
}

#[test]
fn readiness_probe_gives_up_after_twenty() {
    let mut p = ReadinessProbe::new();
    for _ in 0..19 {
        assert_eq!(p.step(false), ProbeAction::RetryAfter { millis: 500 });
    }
    assert_eq!(p.step(false), ProbeAction::GiveUpAfter { millis: 500 });
    let mut p = ReadinessProbe::new();
    p.step(false);
    assert_eq!(p.step(true), ProbeAction::RefreshClash);
    assert_eq!(probe_gave_up_message(), "内核启动后 IPC 在超时时间内仍不可达，跳过就绪刷新通知");
}

#[test]
fn service_wait_steps() {
    assert_eq!(service_wait_retries(15_000, 500), 30);
    assert_eq!(service_attempt(true, false), ServiceAttempt::Ready);
    assert_eq!(service_attempt(false, false), ServiceAttempt::IpcNotReady);
    assert_eq!(service_attempt(false, true), ServiceAttempt::InitAndRefresh);
    assert_eq!(service_attempt_error(ServiceAttempt::IpcNotReady, false), Some("Service IPC not ready".to_string()));
    assert_eq!(service_attempt_error(ServiceAttempt::InitAndRefresh, false), Some("Service not ready".to_string()));
    assert_eq!(service_attempt_error(ServiceAttempt::InitAndRefresh, true), None);
    assert_eq!(service_attempt_error(ServiceAttempt::Ready, false), None);
}

#[test]
fn event_channels() {
    let id = "p1".to_string();
    assert_eq!(NotificationSystem::event_channel(&FrontendEvent::RefreshClash), "verge://refresh-clash-config");
    assert_eq!(NotificationSystem::event_channel(&FrontendEvent::RefreshVerge), "verge://refresh-verge-config");
    assert_eq!(
        NotificationSystem::event_channel(&FrontendEvent::NoticeMessage { status: "info", message: "m".to_string() }),
        "verge://notice-message"
    );
    assert_eq!(
        NotificationSystem::event_channel(&FrontendEvent::ProfileChanged { current_profile_id: &id }),
        "profile-changed"
    );
    assert_eq!(
        NotificationSystem::event_channel(&FrontendEvent::TimerUpdated { profile_index: &id }),
        "verge://timer-updated"
    );
    assert_eq!(
        NotificationSystem::event_channel(&FrontendEvent::ProfileUpdateStarted { uid: &id }),
        "profile-update-started"
    );
    assert_eq!(
        NotificationSystem::event_channel(&FrontendEvent::ProfileUpdateCompleted { uid: &id }),
        "profile-update-completed"
    );
    assert_eq!(
        NotificationSystem::event_channel(&FrontendEvent::SshTunnelStatusChanged {
            uid: id.clone(),
            status: TunnelStatus::Running
        }),
        "verge://ssh-tunnel-status"
    );
    let entry = SshLogEntry { time: "12:00:00".to_string(), level: "info".to_string(), message: "m".to_string() };
    assert_eq!(
        NotificationSystem::event_channel(&FrontendEvent::SshTunnelLogs { uid: id, entries: vec![entry] }),
        "verge://ssh-tunnel-log"
    );
}

#[test]
fn status_tags() {
    assert_eq!(TunnelStatus::Stopped.state_name(), "Stopped");
    assert_eq!(TunnelStatus::Reconnecting.state_name(), "Reconnecting");
    assert_eq!(TunnelStatus::Error("x".to_string()).state_name(), "Error");
}

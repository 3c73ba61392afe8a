use verge_ssh::commands::{get_ssh_servers, prepare_for_save, save_ssh_server};
use verge_ssh::config::{default_ssh_port, ISshConfig, ISshServer};
use verge_ssh::logs::MAX_LOGS_PER_TUNNEL;
use verge_ssh::manager::{check_mihomo_port_conflict, MihomoPorts, SshError, SshManager, TunnelLaunch};
use verge_ssh::registry::EntryUpdate;
use verge_ssh::status::{TunnelStats, TunnelStatus};

fn server(uid: &str, local_port: u16) -> ISshServer {
    ISshServer {
        uid: uid.to_string(),
        name: format!("srv-{uid}"),
        host: "203.0.113.9".to_string(),
        port: 22,
        username: "root".to_string(),
        password: Some(format!("pw-{uid}")),
        local_port,
        enabled: false,
    }
}

fn no_mihomo() -> MihomoPorts {
    MihomoPorts { mixed_port: None, socks_port: None, port: None }
}

#[test]
fn upsert_then_find() {
    let mut m = SshManager::new();
    assert_eq!(m.upsert_server(server("a", 10880), &no_mihomo()), Ok(false));
    assert_eq!(m.upsert_server(server("b", 10881), &no_mihomo()), Ok(false));
    assert_eq!(m.find_server("a"), Some(server("a", 10880)));
    let mut edited = server("a", 10882);
    edited.name = "renamed".to_string();
    assert_eq!(m.upsert_server(edited.clone(), &no_mihomo()), Ok(false));
    assert_eq!(m.find_server("a"), Some(edited));
    assert_eq!(m.list_servers().len(), 2);
    assert_eq!(m.find_server("zzz"), None);
    assert_eq!(default_ssh_port(), 22);
}

#[test]
fn local_port_checks() {
    let mut m = SshManager::new();
    m.upsert_server(server("a", 10880), &no_mihomo()).unwrap();
    let err = m.upsert_server(server("b", 10880), &no_mihomo()).unwrap_err();
    assert_eq!(err, SshError::PortTaken(10880));
    assert_eq!(err.message(), "本地端口 10880 已被其它隧道占用");
    // the same entry may keep its port
    assert_eq!(m.upsert_server(server("a", 10880), &no_mihomo()), Ok(false));
    let mihomo = MihomoPorts { mixed_port: Some(7897), socks_port: None, port: Some(7899) };
    let err = m.upsert_server(server("c", 7899), &mihomo).unwrap_err();
    assert_eq!(err, SshError::MihomoPortConflict(7899));
    assert_eq!(err.message(), "本地端口 7899 与 mihomo 端口冲突");
    assert_eq!(m.find_server("c"), None);
    assert_eq!(check_mihomo_port_conflict(7897, &mihomo), Err(SshError::MihomoPortConflict(7897)));
    assert_eq!(check_mihomo_port_conflict(7898, &mihomo), Ok(()));
}

#[test]
fn run_intent() {
    let mut m = SshManager::new();
    m.upsert_server(server("a", 1), &no_mihomo()).unwrap();
    m.upsert_server(server("b", 2), &no_mihomo()).unwrap();
    assert_eq!(m.set_enabled("a", true), Ok(()));
    assert!(m.find_server("a").unwrap().enabled);
    assert_eq!(m.set_enabled("x", true), Err(SshError::ServerNotFound));
    assert_eq!(SshError::ServerNotFound.message(), "未找到该 SSH 服务器");
    assert_eq!(m.start_all_enabled(), vec!["a".to_string()]);
    assert_eq!(m.restart_all_enabled(), vec!["a".to_string()]);
    assert_eq!(m.enable_and_start_all(), vec!["a".to_string(), "b".to_string()]);
    assert!(m.find_server("b").unwrap().enabled);
}

#[test]
fn start_stop_and_status() {
    let mut m = SshManager::new();
    m.upsert_server(server("a", 1), &no_mihomo()).unwrap();
    m.upsert_server(server("b", 2), &no_mihomo()).unwrap();
    assert_eq!(m.start("nope"), Err(SshError::ServerNotFound));
    let launch = m.start("a").unwrap();
    assert_eq!(launch, TunnelLaunch::Spawn { server: server("a", 1), generation: 0 });
    assert!(m.is_active("a"));
    assert_eq!(m.start("a"), Ok(TunnelLaunch::AlreadyRunning));
    let status = m.status_map();
    assert_eq!(
        status,
        vec![("a".to_string(), TunnelStatus::Connecting), ("b".to_string(), TunnelStatus::Stopped)]
    );
    assert!(m.update_tunnel("a", 0, EntryUpdate::Status(TunnelStatus::Running)));
    assert!(m.update_tunnel("a", 0, EntryUpdate::Up(100)));
    assert!(m.update_tunnel("a", 0, EntryUpdate::Down(7)));
    assert!(m.update_tunnel("a", 0, EntryUpdate::Latency(Some(35))));
    assert_eq!(
        m.stats_map()[0].1,
        TunnelStats { status: TunnelStatus::Running, latency_ms: Some(35), up: 100, down: 7 }
    );
    assert_eq!(m.stats_map()[1].1, TunnelStats::stopped());
    assert!(m.stop("a"));
    assert!(!m.stop("a"));
    assert_eq!(m.status_map()[0].1, TunnelStatus::Stopped);
}

#[test]
fn reports_from_an_earlier_run_are_ignored() {
    let mut m = SshManager::new();
    m.upsert_server(server("a", 1), &no_mihomo()).unwrap();
    m.start("a").unwrap();
    let second = m.restart("a").unwrap();
    assert_eq!(second, TunnelLaunch::Spawn { server: server("a", 1), generation: 1 });
    assert!(!m.update_tunnel("a", 0, EntryUpdate::Status(TunnelStatus::Stopped)));
    assert_eq!(m.status_map()[0].1, TunnelStatus::Connecting);
    assert!(m.update_tunnel("a", 1, EntryUpdate::Finished));
    assert!(!m.is_active("a"));
    // an ended tunnel can be started again
    assert_eq!(m.start("a"), Ok(TunnelLaunch::Spawn { server: server("a", 1), generation: 2 }));
}

#[test]
fn delete_removes_everything() {
    let mut m = SshManager::new();
    m.upsert_server(server("a", 1), &no_mihomo()).unwrap();
    m.upsert_server(server("b", 2), &no_mihomo()).unwrap();
    m.start("a").unwrap();
    m.append_log("a", "info", "hello".to_string());
    m.append_log("b", "warn", "keep".to_string());
    assert!(m.delete_server("a"));
    assert_eq!(m.find_server("a"), None);
    assert!(m.get_logs("a").is_empty());
    assert_eq!(m.get_logs("b").len(), 1);
    assert_eq!(m.status_map(), vec![("b".to_string(), TunnelStatus::Stopped)]);
    assert!(!m.delete_server("a"));
}

#[test]
fn stop_all_and_import() {
    let mut m = SshManager::new();
    m.upsert_server(server("a", 1), &no_mihomo()).unwrap();
    m.upsert_server(server("b", 2), &no_mihomo()).unwrap();
    m.start("a").unwrap();
    m.start("b").unwrap();
    assert_eq!(m.stop_all(), vec!["a".to_string(), "b".to_string()]);
    assert!(!m.is_active("a"));
    m.start("b").unwrap();
    let stopped = m.import_servers(vec![server("c", 3)]);
    assert_eq!(stopped, vec!["b".to_string()]);
    assert_eq!(m.list_servers(), vec![server("c", 3)]);
    m.load_config(ISshConfig { servers: vec![server("d", 4)] });
    assert_eq!(m.list_servers(), vec![server("d", 4)]);
}

#[test]
fn logs_are_a_ring_of_500() {
    let mut m = SshManager::new();
    let e = m.append_log("a", "info", "first".to_string());
    assert_eq!(e.level, "info");
    assert_eq!(e.message, "first");
    let t: Vec<char> = e.time.chars().collect();
    assert_eq!(t.len(), 8);
    assert_eq!((t[2], t[5]), (':', ':'));
    for i in 1..=MAX_LOGS_PER_TUNNEL {
        m.append_log("a", "info", format!("line {i}"));
    }
    let logs = m.get_logs("a");
    assert_eq!(logs.len(), 500);
    assert_eq!(logs[0].message, "line 1");
    assert_eq!(logs[499].message, "line 500");
    m.clear_logs("a");
    assert!(m.get_logs("a").is_empty());
}

#[test]
fn server_list_hides_passwords() {
    let mut m = SshManager::new();
    m.upsert_server(server("a", 1), &no_mihomo()).unwrap();
    let shown = get_ssh_servers(&m);
    assert_eq!(shown[0].password, None);
    assert_eq!(shown[0].name, "srv-a");
    // the stored password is untouched
    assert_eq!(m.find_server("a").unwrap().password, Some("pw-a".to_string()));
}

#[test]
fn saving_keeps_or_replaces_the_password() {
    let mut m = SshManager::new();
    m.upsert_server(server("a", 1), &no_mihomo()).unwrap();
    let mut edit = server("a", 1);
    edit.password = Some(String::new());
    edit.host = "198.51.100.1".to_string();
    assert_eq!(save_ssh_server(&mut m, edit, "fresh".to_string(), &no_mihomo()), Ok(("a".to_string(), false)));
    let stored = m.find_server("a").unwrap();
    assert_eq!(stored.password, Some("pw-a".to_string()));
    assert_eq!(stored.host, "198.51.100.1");
    let mut edit = server("a", 1);
    edit.password = Some("new".to_string());
    save_ssh_server(&mut m, edit, "fresh".to_string(), &no_mihomo()).unwrap();
    assert_eq!(m.find_server("a").unwrap().password, Some("new".to_string()));
    let mut new_entry = server("  ", 9);
    new_entry.password = None;
    let prepared = prepare_for_save(&m, new_entry.clone(), "ssh-new".to_string());
    assert_eq!(prepared.uid, "ssh-new");
    assert_eq!(prepared.password, None);
    m.start("a").unwrap();
    // a saved change to a running tunnel asks for a restart
    assert_eq!(save_ssh_server(&mut m, server("a", 1), "x".to_string(), &no_mihomo()), Ok(("a".to_string(), true)));
    let mut blank = server(" ", 5);
    blank.password = Some("p".to_string());
    assert_eq!(save_ssh_server(&mut m, blank, "ssh9".to_string(), &no_mihomo()), Ok(("ssh9".to_string(), false)));
    assert_eq!(m.find_server("ssh9").unwrap().password, Some("p".to_string()));
    assert_eq!(ISshServer::default().port, 0);
}

#[test]
fn a_new_run_starts_with_fresh_metrics() {
    let mut m = SshManager::new();
    m.upsert_server(server("a", 1), &no_mihomo()).unwrap();
    m.upsert_server(server("b", 2), &no_mihomo()).unwrap();
    m.start("a").unwrap();
    m.start("b").unwrap();
    assert!(m.update_tunnel("a", 0, EntryUpdate::Up(500)));
    assert!(m.update_tunnel("a", 0, EntryUpdate::Latency(Some(12))));
    assert!(m.update_tunnel("b", 1, EntryUpdate::Down(9)));
    m.restart("a").unwrap();
    let stats = m.stats_map();
    assert_eq!(stats[0].1, TunnelStats { status: TunnelStatus::Connecting, latency_ms: None, up: 0, down: 0 });
    assert_eq!(stats[1].1, TunnelStats { status: TunnelStatus::Connecting, latency_ms: None, up: 0, down: 9 });
}

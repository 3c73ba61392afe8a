use verge_ssh::socks::{format_ipv4, socks_reply, SocksCommand, SocksHandshake, SocksInput, SocksPhase};
use verge_ssh::status::LogLevel;

fn feed(h: &mut SocksHandshake, bytes: &[u8]) -> verge_ssh::socks::SocksStep {
    h.step(SocksInput::Bytes(bytes.to_vec()))
}

#[test]
fn connect_to_domain() {
    let (mut h, cmd) = SocksHandshake::new(10880);
    assert_eq!(cmd, SocksCommand::Read(2));
    let s = feed(&mut h, &[5, 2]);
    assert_eq!(s.command, SocksCommand::Read(2));
    let s = feed(&mut h, &[2, 0]);
    assert_eq!(s.reply, Some(vec![5, 0]));
    assert_eq!(s.command, SocksCommand::Read(4));
    let s = feed(&mut h, &[5, 1, 0, 3]);
    assert_eq!(s.command, SocksCommand::Read(1));
    let s = feed(&mut h, &[11]);
    assert_eq!(s.command, SocksCommand::Read(11));
    let s = feed(&mut h, b"example.com");
    assert_eq!(s.command, SocksCommand::Read(2));
    let s = feed(&mut h, &[0x01, 0xBB]);
    assert_eq!(
        s.command,
        SocksCommand::Open { host: "example.com".to_string(), port: 443, origin_port: 10880 }
    );
    let s = h.step(SocksInput::ChannelOpened);
    assert_eq!(s.log, Some((LogLevel::Info, "代理连接 → example.com:443".to_string())));
    assert_eq!(s.reply, Some(vec![5, 0, 0, 1, 0, 0, 0, 0, 0, 0]));
    assert_eq!(s.command, SocksCommand::Relay);
    assert_eq!(h.phase, SocksPhase::Relaying);
}

#[test]
fn connect_to_ipv4_and_ipv6() {
    let (mut h, _) = SocksHandshake::new(1080);
    feed(&mut h, &[5, 1]);
    feed(&mut h, &[0]);
    let s = feed(&mut h, &[5, 1, 0, 1]);
    assert_eq!(s.command, SocksCommand::Read(4));
    feed(&mut h, &[192, 168, 1, 20]);
    let s = feed(&mut h, &[0, 80]);
    assert_eq!(s.command, SocksCommand::Open { host: "192.168.1.20".to_string(), port: 80, origin_port: 1080 });

    let (mut h, _) = SocksHandshake::new(1080);
    feed(&mut h, &[5, 1]);
    feed(&mut h, &[0]);
    let s = feed(&mut h, &[5, 1, 0, 4]);
    assert_eq!(s.command, SocksCommand::Read(16));
    let octets: Vec<u8> = vec![0x20, 0x01, 0x0d, 0xb8, 0, 0, 0, 0, 0, 0, 0, 0, 0, 0, 0, 1];
    let s = feed(&mut h, &octets);
    assert_eq!(s.command, SocksCommand::Read(2));
    assert_eq!(h.phase, SocksPhase::Port("2001:db8::1".to_string()));
    let s = feed(&mut h, &[0x1f, 0x90]);
    assert_eq!(s.command, SocksCommand::Open { host: "2001:db8::1".to_string(), port: 8080, origin_port: 1080 });
}

#[test]
fn refusals() {
    let (mut h, _) = SocksHandshake::new(1);
    let s = feed(&mut h, &[4, 1]);
    assert_eq!(s.reply, None);
    assert_eq!(s.command, SocksCommand::Close("非 SOCKS5 请求".to_string()));

    let (mut h, _) = SocksHandshake::new(1);
    feed(&mut h, &[5, 1]);
    let s = feed(&mut h, &[2]);
    assert_eq!(s.reply, Some(vec![5, 0xFF]));
    assert_eq!(s.command, SocksCommand::Close("客户端不支持 no-auth 方法".to_string()));

    let (mut h, _) = SocksHandshake::new(1);
    feed(&mut h, &[5, 0]);
    let s = feed(&mut h, &[]);
    assert_eq!(s.reply, Some(vec![5, 0xFF]));

    let (mut h, _) = SocksHandshake::new(1);
    feed(&mut h, &[5, 1]);
    feed(&mut h, &[0]);
    let s = feed(&mut h, &[4, 1, 0, 1]);
    assert_eq!(s.command, SocksCommand::Close("无效的 SOCKS5 请求".to_string()));

    let (mut h, _) = SocksHandshake::new(1);
    feed(&mut h, &[5, 1]);
    feed(&mut h, &[0]);
    let s = feed(&mut h, &[5, 2, 0, 1]);
    assert_eq!(s.reply, Some(socks_reply(0x07)));
    assert_eq!(s.command, SocksCommand::Close("不支持的 SOCKS5 命令".to_string()));

    let (mut h, _) = SocksHandshake::new(1);
    feed(&mut h, &[5, 1]);
    feed(&mut h, &[0]);
    let s = feed(&mut h, &[5, 1, 0, 9]);
    assert_eq!(s.reply, Some(vec![5, 8, 0, 1, 0, 0, 0, 0, 0, 0]));
    assert_eq!(s.command, SocksCommand::Close("不支持的地址类型".to_string()));
}

#[test]
fn channel_failure_is_reported() {
    let (mut h, _) = SocksHandshake::new(10881);
    feed(&mut h, &[5, 1]);
    feed(&mut h, &[0]);
    feed(&mut h, &[5, 1, 0, 3]);
    feed(&mut h, &[4]);
    feed(&mut h, b"host");
    feed(&mut h, &[0, 22]);
    let s = h.step(SocksInput::ChannelFailed("Channel open failure".to_string()));
    assert_eq!(s.log, Some((LogLevel::Warn, "转发 host:22 失败: Channel open failure".to_string())));
    assert_eq!(s.reply, Some(vec![5, 5, 0, 1, 0, 0, 0, 0, 0, 0]));
    assert_eq!(s.command, SocksCommand::Close("Channel open failure".to_string()));
}

#[test]
fn domain_bytes_are_decoded_lossily() {
    let (mut h, _) = SocksHandshake::new(1);
    feed(&mut h, &[5, 1]);
    feed(&mut h, &[0]);
    feed(&mut h, &[5, 1, 0, 3]);
    feed(&mut h, &[3]);
    feed(&mut h, &[b'a', 0xFF, b'b']);
    let s = feed(&mut h, &[0, 1]);
    assert_eq!(s.command, SocksCommand::Open { host: "a\u{FFFD}b".to_string(), port: 1, origin_port: 1 });
}

#[test]
fn ipv4_text() {
    assert_eq!(format_ipv4(&[0, 0, 0, 0]), "0.0.0.0");
    assert_eq!(format_ipv4(&[255, 10, 1, 100]), "255.10.1.100");
}

#[test]
fn ipv6_text_follows_the_standard_form() {
    let cases: Vec<(Vec<u8>, &str)> = vec![
        (vec![0; 16], "::"),
        (vec![0, 0, 0, 0, 0, 0, 0, 0, 0, 0, 0, 0, 0, 0, 0, 1], "::1"),
        (vec![0, 0, 0, 0, 0, 0, 0, 0, 0, 0, 0xff, 0xff, 192, 0, 2, 1], "::ffff:192.0.2.1"),
        (vec![0xfe, 0x80, 0, 0, 0, 0, 0, 0, 0x12, 0x34, 0, 0, 0, 0, 0xab, 0xcd], "fe80::1234:0:0:abcd"),
    ];
    for (octets, text) in cases {
        let (mut h, _) = SocksHandshake::new(1080);
        feed(&mut h, &[5, 1]);
        feed(&mut h, &[0]);
        feed(&mut h, &[5, 1, 0, 4]);
        feed(&mut h, &octets);
        let s = feed(&mut h, &[0x01, 0xbb]);
        assert_eq!(s.command, SocksCommand::Open { host: text.to_string(), port: 443, origin_port: 1080 });
    }
}

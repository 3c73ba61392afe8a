//! The SOCKS5 server handshake offered on the local port: no-auth method
//! only, `CONNECT` only, IPv4 / IPv6 / domain-name targets.
//!
//! The handshake is a state machine. The caller reads exactly the number of
//! bytes each [`SocksCommand::Read`] asks for and feeds them back, writes
//! every reply the machine returns, opens the SSH `direct-tcpip` channel when
//! told to, and relays or closes at the end.
use vstd::prelude::*;
use vstd::utf8::{decode_utf8, valid_utf8};
use crate::status::LogLevel;
use crate::text::{decimal, push_decimal};

verus! {

/// SOCKS protocol version.
pub const SOCKS_VERSION: u8 = 0x05;
/// The "no authentication" method.
pub const METHOD_NO_AUTH: u8 = 0x00;
/// The `CONNECT` command.
pub const CMD_CONNECT: u8 = 0x01;
/// Address types.
pub const ATYP_IPV4: u8 = 0x01;
pub const ATYP_DOMAIN: u8 = 0x03;
pub const ATYP_IPV6: u8 = 0x04;
/// Reply codes.
pub const REP_SUCCEEDED: u8 = 0x00;
pub const REP_CONNECTION_REFUSED: u8 = 0x05;
pub const REP_COMMAND_NOT_SUPPORTED: u8 = 0x07;
pub const REP_ADDRESS_TYPE_NOT_SUPPORTED: u8 = 0x08;

/// Text that `String::from_utf8_lossy` makes of `bytes` (each invalid sequence
/// becomes U+FFFD).
pub uninterp spec fn utf8_lossy_text(bytes: Seq<u8>) -> Seq<char>;

/// Decodes a domain name with `String::from_utf8_lossy`: the result is named by
/// `utf8_lossy_text`; for valid UTF-8 it is exactly the decoded text, as the
/// function's documentation states. What replaces invalid sequences is not stated.
#[verifier::external_body]
fn decode_utf8_lossy(bytes: &[u8]) -> (s: String)
    ensures
        s@ == utf8_lossy_text(bytes@),
        valid_utf8(bytes@) ==> s@ == decode_utf8(bytes@),
{
    String::from_utf8_lossy(bytes).into_owned()
}

/// Text that `Ipv6Addr`'s `Display` makes of the 16 address bytes `octets`.
pub uninterp spec fn ipv6_text(octets: Seq<u8>) -> Seq<char>;

/// Formats an IPv6 address with `core::net::Ipv6Addr`'s `Display` (the form the
/// standard library documents: RFC 5952 text). The text is named by `ipv6_text`.
#[verifier::external_body]
fn format_ipv6(octets: &[u8]) -> (s: String)
    requires
        octets@.len() == 16,
    ensures
        s@ == ipv6_text(octets@),
{
    let mut a = [0u8; 16];
    a.copy_from_slice(octets);
    core::net::Ipv6Addr::from(a).to_string()
}

/// Where the handshake stands.
#[derive(Debug, PartialEq, Eq)]
pub enum SocksPhase {
    /// Waiting for `VER NMETHODS` (2 bytes).
    Greeting,
    /// Waiting for the given number of method bytes.
    Methods(u8),
    /// Waiting for `VER CMD RSV ATYP` (4 bytes).
    Request,
    /// Waiting for an IPv4 address (4 bytes).
    Ipv4,
    /// Waiting for an IPv6 address (16 bytes).
    Ipv6,
    /// Waiting for the domain length (1 byte).
    DomainLen,
    /// Waiting for a domain of the given length.
    Domain(u8),
    /// Waiting for the port (2 bytes, big endian); the target host.
    Port(String),
    /// Waiting for the channel to the target to open.
    Opening(String, u16),
    /// Relaying data; the handshake is over.
    Relaying,
    /// The client was turned away.
    Closed,
}

pub enum SocksPhaseView {
    Greeting,
    Methods(u8),
    Request,
    Ipv4,
    Ipv6,
    DomainLen,
    Domain(u8),
    Port(Seq<char>),
    Opening(Seq<char>, u16),
    Relaying,
    Closed,
}

impl View for SocksPhase {
    type V = SocksPhaseView;

    open spec fn view(&self) -> SocksPhaseView {
        match self {
            SocksPhase::Greeting => SocksPhaseView::Greeting,
            SocksPhase::Methods(n) => SocksPhaseView::Methods(*n),
            SocksPhase::Request => SocksPhaseView::Request,
            SocksPhase::Ipv4 => SocksPhaseView::Ipv4,
            SocksPhase::Ipv6 => SocksPhaseView::Ipv6,
            SocksPhase::DomainLen => SocksPhaseView::DomainLen,
            SocksPhase::Domain(n) => SocksPhaseView::Domain(*n),
            SocksPhase::Port(h) => SocksPhaseView::Port(h@),
            SocksPhase::Opening(h, p) => SocksPhaseView::Opening(h@, *p),
            SocksPhase::Relaying => SocksPhaseView::Relaying,
            SocksPhase::Closed => SocksPhaseView::Closed,
        }
    }
}

/// What the caller reports.
#[derive(Debug, PartialEq, Eq)]
pub enum SocksInput {
    /// The bytes read for the last `Read`.
    Bytes(Vec<u8>),
    /// The channel to the target opened.
    ChannelOpened,
    /// Opening the channel failed with this error.
    ChannelFailed(String),
}

pub enum SocksInputView {
    Bytes(Seq<u8>),
    ChannelOpened,
    ChannelFailed(Seq<char>),
}

impl View for SocksInput {
    type V = SocksInputView;

    open spec fn view(&self) -> SocksInputView {
        match self {
            SocksInput::Bytes(b) => SocksInputView::Bytes(b@),
            SocksInput::ChannelOpened => SocksInputView::ChannelOpened,
            SocksInput::ChannelFailed(e) => SocksInputView::ChannelFailed(e@),
        }
    }
}

/// What the caller is to do after writing the reply (if any).
#[derive(Debug, PartialEq, Eq)]
pub enum SocksCommand {
    /// Read exactly this many bytes and report them.
    Read(usize),
    /// Open a `direct-tcpip` channel to `host:port`, originating from `127.0.0.1:origin_port`.
    Open { host: String, port: u16, origin_port: u16 },
    /// Relay data both ways until either side closes.
    Relay,
    /// Drop the client; the handshake failed with this message.
    Close(String),
}

pub enum SocksCommandView {
    Read(nat),
    Open { host: Seq<char>, port: u16, origin_port: u16 },
    Relay,
    Close(Seq<char>),
}

impl View for SocksCommand {
    type V = SocksCommandView;

    open spec fn view(&self) -> SocksCommandView {
        match self {
            SocksCommand::Read(n) => SocksCommandView::Read(*n as nat),
            SocksCommand::Open { host, port, origin_port } => SocksCommandView::Open {
                host: host@,
                port: *port,
                origin_port: *origin_port,
            },
            SocksCommand::Relay => SocksCommandView::Relay,
            SocksCommand::Close(m) => SocksCommandView::Close(m@),
        }
    }
}

/// The answer to one input: a reply to write, a line to log, and the next command.
pub struct SocksStep {
    pub log: Option<(LogLevel, String)>,
    pub reply: Option<Vec<u8>>,
    pub command: SocksCommand,
}

pub struct SocksOutcome {
    pub phase: SocksPhaseView,
    pub log: Option<(LogLevel, Seq<char>)>,
    pub reply: Option<Seq<u8>>,
    pub command: SocksCommandView,
}

impl SocksStep {
    pub open spec fn log_view(&self) -> Option<(LogLevel, Seq<char>)> {
        match self.log {
            Some((l, m)) => Some((l, m@)),
            None => None,
        }
    }

    pub open spec fn reply_view(&self) -> Option<Seq<u8>> {
        match self.reply {
            Some(r) => Some(r@),
            None => None,
        }
    }
}

// ---- specification -----------------------------------------------------

/// The 10-byte reply with code `rep` and bound address `0.0.0.0:0`.
pub open spec fn reply_bytes(rep: u8) -> Seq<u8> {
    seq![SOCKS_VERSION, rep, 0x00, ATYP_IPV4, 0, 0, 0, 0, 0, 0]
}

/// Dotted-decimal text of an IPv4 address (`Ipv4Addr`'s `Display`).
pub open spec fn ipv4_text(a: Seq<u8>) -> Seq<char> {
    decimal(a[0] as nat) + "."@ + decimal(a[1] as nat) + "."@ + decimal(a[2] as nat) + "."@
        + decimal(a[3] as nat)
}

/// A big-endian 16-bit port.
pub open spec fn port_of(b: Seq<u8>) -> u16 {
    (b[0] as nat * 256 + b[1] as nat) as u16
}

pub open spec fn msg_not_socks5() -> Seq<char> {
    "非 SOCKS5 请求"@
}

pub open spec fn msg_no_acceptable_method() -> Seq<char> {
    "客户端不支持 no-auth 方法"@
}

pub open spec fn msg_bad_request() -> Seq<char> {
    "无效的 SOCKS5 请求"@
}

pub open spec fn msg_unsupported_command() -> Seq<char> {
    "不支持的 SOCKS5 命令"@
}

pub open spec fn msg_unsupported_address() -> Seq<char> {
    "不支持的地址类型"@
}

pub open spec fn msg_forward_failed(host: Seq<char>, port: u16, error: Seq<char>) -> Seq<char> {
    "转发 "@ + host + ":"@ + decimal(port as nat) + " 失败: "@ + error
}

pub open spec fn msg_proxying(host: Seq<char>, port: u16) -> Seq<char> {
    "代理连接 → "@ + host + ":"@ + decimal(port as nat)
}

/// The number of bytes a reading phase waits for.
pub open spec fn expected_len(phase: SocksPhaseView) -> Option<nat> {
    match phase {
        SocksPhaseView::Greeting => Some(2),
        SocksPhaseView::Methods(n) => Some(n as nat),
        SocksPhaseView::Request => Some(4),
        SocksPhaseView::Ipv4 => Some(4),
        SocksPhaseView::Ipv6 => Some(16),
        SocksPhaseView::DomainLen => Some(1),
        SocksPhaseView::Domain(n) => Some(n as nat),
        SocksPhaseView::Port(_) => Some(2),
        _ => None,
    }
}

/// The inputs a phase can take.
pub open spec fn accepts(phase: SocksPhaseView, input: SocksInputView) -> bool {
    match input {
        SocksInputView::Bytes(b) => expected_len(phase) == Some(b.len()),
        SocksInputView::ChannelOpened => phase is Opening,
        SocksInputView::ChannelFailed(_) => phase is Opening,
    }
}

pub open spec fn outcome(
    phase: SocksPhaseView,
    log: Option<(LogLevel, Seq<char>)>,
    reply: Option<Seq<u8>>,
    command: SocksCommandView,
) -> SocksOutcome {
    SocksOutcome { phase, log, reply, command }
}

pub open spec fn close(reply: Option<Seq<u8>>, message: Seq<char>) -> SocksOutcome {
    outcome(SocksPhaseView::Closed, None, reply, SocksCommandView::Close(message))
}

pub open spec fn read(phase: SocksPhaseView, reply: Option<Seq<u8>>, n: nat) -> SocksOutcome {
    outcome(phase, None, reply, SocksCommandView::Read(n))
}

/// The handshake's answer to `input` in `phase`, for a tunnel listening on `local_port`.
pub open spec fn socks_next(phase: SocksPhaseView, input: SocksInputView, local_port: u16) -> SocksOutcome {
    match input {
        SocksInputView::Bytes(b) => match phase {
            SocksPhaseView::Greeting => if b[0] != SOCKS_VERSION {
                close(None, msg_not_socks5())
            } else {
                read(SocksPhaseView::Methods(b[1]), None, b[1] as nat)
            },
            SocksPhaseView::Methods(_) => if b.contains(METHOD_NO_AUTH) {
                read(SocksPhaseView::Request, Some(seq![SOCKS_VERSION, METHOD_NO_AUTH]), 4)
            } else {
                close(Some(seq![SOCKS_VERSION, 0xFFu8]), msg_no_acceptable_method())
            },
            SocksPhaseView::Request => if b[0] != SOCKS_VERSION {
                close(None, msg_bad_request())
            } else if b[1] != CMD_CONNECT {
                close(Some(reply_bytes(REP_COMMAND_NOT_SUPPORTED)), msg_unsupported_command())
            } else if b[3] == ATYP_IPV4 {
                read(SocksPhaseView::Ipv4, None, 4)
            } else if b[3] == ATYP_IPV6 {
                read(SocksPhaseView::Ipv6, None, 16)
            } else if b[3] == ATYP_DOMAIN {
                read(SocksPhaseView::DomainLen, None, 1)
            } else {
                close(Some(reply_bytes(REP_ADDRESS_TYPE_NOT_SUPPORTED)), msg_unsupported_address())
            },
            SocksPhaseView::Ipv4 => read(SocksPhaseView::Port(ipv4_text(b)), None, 2),
            SocksPhaseView::Ipv6 => read(SocksPhaseView::Port(ipv6_text(b)), None, 2),
            SocksPhaseView::DomainLen => read(SocksPhaseView::Domain(b[0]), None, b[0] as nat),
            SocksPhaseView::Domain(_) => read(SocksPhaseView::Port(utf8_lossy_text(b)), None, 2),
            SocksPhaseView::Port(host) => outcome(
                SocksPhaseView::Opening(host, port_of(b)),
                None,
                None,
                SocksCommandView::Open { host, port: port_of(b), origin_port: local_port },
            ),
            _ => close(None, msg_bad_request()),
        },
        SocksInputView::ChannelOpened => match phase {
            SocksPhaseView::Opening(host, port) => outcome(
                SocksPhaseView::Relaying,
                Some((LogLevel::Info, msg_proxying(host, port))),
                Some(reply_bytes(REP_SUCCEEDED)),
                SocksCommandView::Relay,
            ),
            _ => close(None, msg_bad_request()),
        },
        SocksInputView::ChannelFailed(error) => match phase {
            SocksPhaseView::Opening(host, port) => outcome(
                SocksPhaseView::Closed,
                Some((LogLevel::Warn, msg_forward_failed(host, port, error))),
                Some(reply_bytes(REP_CONNECTION_REFUSED)),
                SocksCommandView::Close(error),
            ),
            _ => close(None, msg_bad_request()),
        },
    }
}

// ---- implementation ------------------------------------------------------

/// The 10-byte reply with code `rep` and bound address `0.0.0.0:0`.
pub fn socks_reply(rep: u8) -> (r: Vec<u8>)
    ensures
        r@ == reply_bytes(rep),
{
    let r = vec![SOCKS_VERSION, rep, 0x00, ATYP_IPV4, 0, 0, 0, 0, 0, 0];
    proof {
        assert(r@ =~= reply_bytes(rep));
    }
    r
}

/// Dotted-decimal text of the IPv4 address in `a`.
pub fn format_ipv4(a: &[u8]) -> (s: String)
    requires
        a@.len() == 4,
    ensures
        s@ == ipv4_text(a@),
{
    let mut s = String::new();
    push_decimal(&mut s, a[0] as u64);
    s.append(".");
    push_decimal(&mut s, a[1] as u64);
    s.append(".");
    push_decimal(&mut s, a[2] as u64);
    s.append(".");
    push_decimal(&mut s, a[3] as u64);
    proof {
        assert(s@ =~= ipv4_text(a@));
    }
    s
}

fn contains_byte(b: &Vec<u8>, x: u8) -> (r: bool)
    ensures
        r == b@.contains(x),
{
    let mut i: usize = 0;
    while i < b.len()
        invariant
            i <= b.len(),
            forall|j: int| 0 <= j < i ==> b@[j] != x,
        decreases b.len() - i,
    {
        if b[i] == x {
            proof {
                assert(b@[i as int] == x);
            }
            return true;
        }
        i = i + 1;
    }
    false
}

fn message(s: &str) -> (m: String)
    ensures
        m@ == s@,
{
    String::from_str(s)
}

/// The handshake of one local client.
pub struct SocksHandshake {
    /// The tunnel's local port, named as the channel's origin.
    pub local_port: u16,
    pub phase: SocksPhase,
}

impl SocksHandshake {
    /// A new handshake: the first step is to read the 2-byte greeting.
    pub fn new(local_port: u16) -> (res: (SocksHandshake, SocksCommand))
        ensures
            res.0.local_port == local_port,
            res.0.phase == SocksPhase::Greeting,
            res.1@ == SocksCommandView::Read(2),
    {
        (SocksHandshake { local_port, phase: SocksPhase::Greeting }, SocksCommand::Read(2))
    }

    /// Answers `input`.
    pub fn step(&mut self, input: SocksInput) -> (res: SocksStep)
        requires
            accepts(old(self).phase@, input@),
        ensures
            final(self).local_port == old(self).local_port,
            ({
                let o = socks_next(old(self).phase@, input@, old(self).local_port);
                &&& final(self).phase@ == o.phase
                &&& res.log_view() == o.log
                &&& res.reply_view() == o.reply
                &&& res.command@ == o.command
            }),
            ({
                &&& old(self).phase@ is Domain
                &&& input@ matches SocksInputView::Bytes(b)
                &&& valid_utf8(b)
            }) ==> final(self).phase@ == SocksPhaseView::Port(decode_utf8(input@->Bytes_0)),
    {
        let mut phase = SocksPhase::Closed;
        std::mem::swap(&mut phase, &mut self.phase);
        let ghost ph = phase@;
        let ghost inp = input@;
        match input {
            SocksInput::Bytes(b) => match phase {
                SocksPhase::Greeting => {
                    if b[0] != SOCKS_VERSION {
                        SocksStep { log: None, reply: None, command: SocksCommand::Close(message("非 SOCKS5 请求")) }
                    } else {
                        self.phase = SocksPhase::Methods(b[1]);
                        SocksStep { log: None, reply: None, command: SocksCommand::Read(b[1] as usize) }
                    }
                },
                SocksPhase::Methods(_) => {
                    if contains_byte(&b, METHOD_NO_AUTH) {
                        self.phase = SocksPhase::Request;
                        let r = vec![SOCKS_VERSION, METHOD_NO_AUTH];
                        proof {
                            assert(r@ =~= seq![SOCKS_VERSION, METHOD_NO_AUTH]);
                        }
                        SocksStep { log: None, reply: Some(r), command: SocksCommand::Read(4) }
                    } else {
                        let r = vec![SOCKS_VERSION, 0xFFu8];
                        proof {
                            assert(r@ =~= seq![SOCKS_VERSION, 0xFFu8]);
                        }
                        SocksStep {
                            log: None,
                            reply: Some(r),
                            command: SocksCommand::Close(message("客户端不支持 no-auth 方法")),
                        }
                    }
                },
                SocksPhase::Request => {
                    if b[0] != SOCKS_VERSION {
                        SocksStep { log: None, reply: None, command: SocksCommand::Close(message("无效的 SOCKS5 请求")) }
                    } else if b[1] != CMD_CONNECT {
                        SocksStep {
                            log: None,
                            reply: Some(socks_reply(REP_COMMAND_NOT_SUPPORTED)),
                            command: SocksCommand::Close(message("不支持的 SOCKS5 命令")),
                        }
                    } else if b[3] == ATYP_IPV4 {
                        self.phase = SocksPhase::Ipv4;
                        SocksStep { log: None, reply: None, command: SocksCommand::Read(4) }
                    } else if b[3] == ATYP_IPV6 {
                        self.phase = SocksPhase::Ipv6;
                        SocksStep { log: None, reply: None, command: SocksCommand::Read(16) }
                    } else if b[3] == ATYP_DOMAIN {
                        self.phase = SocksPhase::DomainLen;
                        SocksStep { log: None, reply: None, command: SocksCommand::Read(1) }
                    } else {
                        SocksStep {
                            log: None,
                            reply: Some(socks_reply(REP_ADDRESS_TYPE_NOT_SUPPORTED)),
                            command: SocksCommand::Close(message("不支持的地址类型")),
                        }
                    }
                },
                SocksPhase::Ipv4 => {
                    self.phase = SocksPhase::Port(format_ipv4(b.as_slice()));
                    SocksStep { log: None, reply: None, command: SocksCommand::Read(2) }
                },
                SocksPhase::Ipv6 => {
                    self.phase = SocksPhase::Port(format_ipv6(b.as_slice()));
                    SocksStep { log: None, reply: None, command: SocksCommand::Read(2) }
                },
                SocksPhase::DomainLen => {
                    self.phase = SocksPhase::Domain(b[0]);
                    SocksStep { log: None, reply: None, command: SocksCommand::Read(b[0] as usize) }
                },
                SocksPhase::Domain(_) => {
                    self.phase = SocksPhase::Port(decode_utf8_lossy(b.as_slice()));
                    SocksStep { log: None, reply: None, command: SocksCommand::Read(2) }
                },
                SocksPhase::Port(host) => {
                    let port: u16 = (b[0] as u16) * 256 + (b[1] as u16);
                    let command = SocksCommand::Open {
                        host: host.clone(),
                        port,
                        origin_port: self.local_port,
                    };
                    self.phase = SocksPhase::Opening(host, port);
                    SocksStep { log: None, reply: None, command }
                },
                _ => SocksStep { log: None, reply: None, command: SocksCommand::Close(message("无效的 SOCKS5 请求")) },
            },
            SocksInput::ChannelOpened => match phase {
                SocksPhase::Opening(host, port) => {
                    let mut m = String::from_str("代理连接 → ");
                    m.append(host.as_str());
                    m.append(":");
                    push_decimal(&mut m, port as u64);
                    self.phase = SocksPhase::Relaying;
                    SocksStep {
                        log: Some((LogLevel::Info, m)),
                        reply: Some(socks_reply(REP_SUCCEEDED)),
                        command: SocksCommand::Relay,
                    }
                },
                _ => SocksStep { log: None, reply: None, command: SocksCommand::Close(message("无效的 SOCKS5 请求")) },
            },
            SocksInput::ChannelFailed(error) => match phase {
                SocksPhase::Opening(host, port) => {
                    let mut m = String::from_str("转发 ");
                    m.append(host.as_str());
                    m.append(":");
                    push_decimal(&mut m, port as u64);
                    m.append(" 失败: ");
                    m.append(error.as_str());
                    SocksStep {
                        log: Some((LogLevel::Warn, m)),
                        reply: Some(socks_reply(REP_CONNECTION_REFUSED)),
                        command: SocksCommand::Close(error),
                    }
                },
                _ => SocksStep { log: None, reply: None, command: SocksCommand::Close(message("无效的 SOCKS5 请求")) },
            },
        }
    }
}

// ---- laws ----------------------------------------------------------------

/// Only `CONNECT` is served: a version-5 request with any other command (such as
/// `BIND` or `UDP ASSOCIATE`) is answered "command not supported"
/// (`[5, 7, 0, 1, 0, 0, 0, 0, 0, 0]`) and the client is dropped.
pub proof fn law_only_connect_is_served(b: Seq<u8>, local_port: u16)
    requires
        b.len() == 4,
        b[0] == 5,
        b[1] != 1,
    ensures
        socks_next(SocksPhaseView::Request, SocksInputView::Bytes(b), local_port).reply == Some(
            seq![5u8, 7u8, 0u8, 1u8, 0u8, 0u8, 0u8, 0u8, 0u8, 0u8],
        ),
        socks_next(SocksPhaseView::Request, SocksInputView::Bytes(b), local_port).command is Close,
        socks_next(SocksPhaseView::Request, SocksInputView::Bytes(b), local_port).phase is Closed,
{
}

/// A `CONNECT` request with an address type other than IPv4 (1), domain (3) or
/// IPv6 (4) is answered "address type not supported" (`[5, 8, 0, 1, 0, 0, 0, 0, 0, 0]`)
/// and the client is dropped.
pub proof fn law_unknown_address_type_is_refused(b: Seq<u8>, local_port: u16)
    requires
        b.len() == 4,
        b[0] == 5,
        b[1] == 1,
        b[3] != 1 && b[3] != 3 && b[3] != 4,
    ensures
        socks_next(SocksPhaseView::Request, SocksInputView::Bytes(b), local_port).reply == Some(
            seq![5u8, 8u8, 0u8, 1u8, 0u8, 0u8, 0u8, 0u8, 0u8, 0u8],
        ),
        socks_next(SocksPhaseView::Request, SocksInputView::Bytes(b), local_port).command is Close,
        socks_next(SocksPhaseView::Request, SocksInputView::Bytes(b), local_port).phase is Closed,
{
}

/// A client that speaks another protocol version is dropped without a reply, at
/// the greeting and at the request alike.
pub proof fn law_other_versions_are_dropped(b: Seq<u8>, local_port: u16)
    requires
        b.len() >= 2,
        b[0] != 5,
    ensures
        b.len() == 2 ==> socks_next(SocksPhaseView::Greeting, SocksInputView::Bytes(b), local_port).reply is None
            && socks_next(SocksPhaseView::Greeting, SocksInputView::Bytes(b), local_port).command is Close,
        b.len() == 4 ==> socks_next(SocksPhaseView::Request, SocksInputView::Bytes(b), local_port).reply is None
            && socks_next(SocksPhaseView::Request, SocksInputView::Bytes(b), local_port).command is Close,
{
}

/// A client whose offered methods do not include "no authentication" (0) is
/// answered "no acceptable method" (`[5, 0xFF]`) and dropped; one that offers it
/// is answered `[5, 0]` and its request (4 bytes) is read next.
pub proof fn law_no_auth_method_is_required(n: u8, methods: Seq<u8>, local_port: u16)
    requires
        methods.len() == n,
    ensures
        !methods.contains(0u8) ==> socks_next(SocksPhaseView::Methods(n), SocksInputView::Bytes(methods), local_port).reply
            == Some(seq![5u8, 0xFFu8]) && socks_next(
            SocksPhaseView::Methods(n),
            SocksInputView::Bytes(methods),
            local_port,
        ).command is Close,
        methods.contains(0u8) ==> socks_next(SocksPhaseView::Methods(n), SocksInputView::Bytes(methods), local_port).reply
            == Some(seq![5u8, 0u8]) && socks_next(SocksPhaseView::Methods(n), SocksInputView::Bytes(methods), local_port).command
            == SocksCommandView::Read(4),
{
}

/// A client that greets with version 5 offering the no-auth method, then asks to
/// `CONNECT` to a domain name, is answered `[5, 0]` and gets a channel opened to
/// that domain (decoded as `from_utf8_lossy` does) and port, originating from the tunnel's port;
/// once the channel is open it gets the success reply and relaying begins.
pub proof fn law_connect_to_domain(local_port: u16, methods: Seq<u8>, domain: Seq<u8>, port: Seq<u8>)
    requires
        methods.len() < 256,
        methods.contains(METHOD_NO_AUTH),
        domain.len() < 256,
        port.len() == 2,
    ensures
        ({
            let s1 = socks_next(SocksPhaseView::Greeting, SocksInputView::Bytes(seq![5u8, methods.len() as u8]), local_port);
            let s2 = socks_next(s1.phase, SocksInputView::Bytes(methods), local_port);
            let s3 = socks_next(s2.phase, SocksInputView::Bytes(seq![5u8, 1u8, 0u8, 3u8]), local_port);
            let s4 = socks_next(s3.phase, SocksInputView::Bytes(seq![domain.len() as u8]), local_port);
            let s5 = socks_next(s4.phase, SocksInputView::Bytes(domain), local_port);
            let s6 = socks_next(s5.phase, SocksInputView::Bytes(port), local_port);
            let s7 = socks_next(s6.phase, SocksInputView::ChannelOpened, local_port);
            &&& s1.command == SocksCommandView::Read(methods.len())
            &&& s2.reply == Some(seq![5u8, 0u8])
            &&& s2.command == SocksCommandView::Read(4)
            &&& s3.command == SocksCommandView::Read(1)
            &&& s4.command == SocksCommandView::Read(domain.len())
            &&& s5.command == SocksCommandView::Read(2)
            &&& s6.command == (SocksCommandView::Open {
                host: utf8_lossy_text(domain),
                port: (port[0] as nat * 256 + port[1] as nat) as u16,
                origin_port: local_port,
            })
            &&& s7.reply == Some(reply_bytes(REP_SUCCEEDED))
            &&& s7.command == SocksCommandView::Relay
        }),
{
    let n = methods.len() as u8;
    assert(seq![5u8, n][1] == n);
    assert(seq![domain.len() as u8][0] == domain.len() as u8);
    let s1 = socks_next(SocksPhaseView::Greeting, SocksInputView::Bytes(seq![5u8, n]), local_port);
    assert(s1.phase == SocksPhaseView::Methods(n));
}

/// Same for an IPv4 target: the channel is opened to its dotted-decimal form.
pub proof fn law_connect_to_ipv4(local_port: u16, methods: Seq<u8>, addr: Seq<u8>, port: Seq<u8>)
    requires
        methods.len() < 256,
        methods.contains(METHOD_NO_AUTH),
        addr.len() == 4,
        port.len() == 2,
    ensures
        ({
            let s1 = socks_next(SocksPhaseView::Greeting, SocksInputView::Bytes(seq![5u8, methods.len() as u8]), local_port);
            let s2 = socks_next(s1.phase, SocksInputView::Bytes(methods), local_port);
            let s3 = socks_next(s2.phase, SocksInputView::Bytes(seq![5u8, 1u8, 0u8, 1u8]), local_port);
            let s4 = socks_next(s3.phase, SocksInputView::Bytes(addr), local_port);
            let s5 = socks_next(s4.phase, SocksInputView::Bytes(port), local_port);
            &&& s2.reply == Some(seq![5u8, 0u8])
            &&& s3.command == SocksCommandView::Read(4)
            &&& s4.command == SocksCommandView::Read(2)
            &&& s5.command == (SocksCommandView::Open {
                host: ipv4_text(addr),
                port: (port[0] as nat * 256 + port[1] as nat) as u16,
                origin_port: local_port,
            })
        }),
{
    let n = methods.len() as u8;
    assert(seq![5u8, n][1] == n);
}

/// Same for an IPv6 target: the channel is opened to the address's standard text.
pub proof fn law_connect_to_ipv6(local_port: u16, methods: Seq<u8>, addr: Seq<u8>, port: Seq<u8>)
    requires
        methods.len() < 256,
        methods.contains(METHOD_NO_AUTH),
        addr.len() == 16,
        port.len() == 2,
    ensures
        ({
            let s1 = socks_next(SocksPhaseView::Greeting, SocksInputView::Bytes(seq![5u8, methods.len() as u8]), local_port);
            let s2 = socks_next(s1.phase, SocksInputView::Bytes(methods), local_port);
            let s3 = socks_next(s2.phase, SocksInputView::Bytes(seq![5u8, 1u8, 0u8, 4u8]), local_port);
            let s4 = socks_next(s3.phase, SocksInputView::Bytes(addr), local_port);
            let s5 = socks_next(s4.phase, SocksInputView::Bytes(port), local_port);
            &&& s2.reply == Some(seq![5u8, 0u8])
            &&& s3.command == SocksCommandView::Read(16)
            &&& s4.command == SocksCommandView::Read(2)
            &&& s5.command == (SocksCommandView::Open {
                host: ipv6_text(addr),
                port: (port[0] as nat * 256 + port[1] as nat) as u16,
                origin_port: local_port,
            })
        }),
{
    let n = methods.len() as u8;
    assert(seq![5u8, n][1] == n);
}

/// A client is never told "succeeded" before its channel is open: every reply
/// carrying the success code comes from the `ChannelOpened` answer.
pub proof fn law_success_only_after_open(phase: SocksPhaseView, input: SocksInputView, local_port: u16)
    requires
        accepts(phase, input),
        socks_next(phase, input, local_port).reply == Some(reply_bytes(REP_SUCCEEDED)),
    ensures
        input == SocksInputView::ChannelOpened,
        phase is Opening,
{
    let o = socks_next(phase, input, local_port);
    if input != SocksInputView::ChannelOpened {
        match input {
            SocksInputView::Bytes(b) => {
                match phase {
                    SocksPhaseView::Methods(_) => {
                        assert(o.reply.unwrap().len() != 10 || o.reply.unwrap()[1] != REP_SUCCEEDED);
                    },
                    SocksPhaseView::Request => {
                        assert(o.reply.unwrap()[1] != REP_SUCCEEDED);
                    },
                    _ => {},
                }
            },
            SocksInputView::ChannelFailed(_) => {
                assert(o.reply.unwrap()[1] != REP_SUCCEEDED);
            },
            _ => {},
        }
    }
}

} // verus!

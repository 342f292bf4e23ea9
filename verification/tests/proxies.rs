use std::io::ErrorKind;
use std::rc::Rc;

use dephy_pproxy::command::PProxyCommand;
use dephy_pproxy::command::PProxyCommandResponse;
use dephy_pproxy::error::Error;
use dephy_pproxy::error::TunnelError;
use dephy_pproxy::error::TunnelProtocolError;
use dephy_pproxy::multiaddr::Multiaddress;
use dephy_pproxy::peer_id::PeerId;
use dephy_pproxy::pproxy::commands::AddPeerEvent;
use dephy_pproxy::pproxy::commands::CommandAction;
use dephy_pproxy::pproxy::commands::CommandEvent;
use dephy_pproxy::pproxy::commands::ConnectRelayEvent;
use dephy_pproxy::pproxy::commands::ConnectTunnelEvent;
use dephy_pproxy::pproxy::incoming::IncomingAction;
use dephy_pproxy::pproxy::incoming::IncomingEvent;
use dephy_pproxy::pproxy::NetworkEvent;
use dephy_pproxy::pproxy::PProxy;
use dephy_pproxy::pproxy::RunAction;
use dephy_pproxy::pproxy::RunEvent;
use dephy_pproxy::tunnel::protocol::TunnelRequestHeader;
use dephy_pproxy::types::TunnelCommand;
use dephy_pproxy::types::TunnelId;
use dephy_pproxy::types::TunnelReply;
use dephy_pproxy::DEFAULT_CHANNEL_SIZE;
use dephy_pproxy::LOCAL_TCP_TIMEOUT;
use dephy_pproxy::REMOTE_TCP_TIMEOUT;
use dephy_pproxy::VERSION;

const LOCAL: &str = "12D3KooWRNw2pJC9748Fmq4WNV27HoSTcX3r37132FLkQMrbKAiC";
const PEER: &str = "QmcgpsyWgH8Y8ajJz1Cu72KnS5uo2Aa2LpzU7kinSupNKC";
const OTHER: &str = "QmNnooDu7bfjPFoTZYxMNLWUQJyrVwtbZg5gBMjTezGAJN";

type Text = &'static str;
type Proxy = PProxy<u16, Rc<()>>;

fn id(text: &str) -> PeerId {
    PeerId::parse(text).unwrap()
}

fn addr(text: &str) -> Multiaddress {
    Multiaddress::parse(text).unwrap()
}

fn tunnel(n: u64) -> TunnelId {
    TunnelId::from(n)
}

fn ten(bytes: &[u8]) -> [u8; 10] {
    let mut header = [0u8; 10];
    header.copy_from_slice(bytes);
    header
}

fn request_bytes(n: u64) -> [u8; 10] {
    ten(&TunnelRequestHeader::new(TunnelCommand::TcpConnect, tunnel(n)).write_to())
}

fn proxy(proxy_addr: Option<u16>, access_control: bool) -> Proxy {
    PProxy::new::<u8>(id(LOCAL), Ok(()), proxy_addr, access_control).unwrap().0
}

/// How the work turns out that a stream of a peer calls for.
struct Incoming {
    header: Result<[u8; 10], ErrorKind>,
    valid: bool,
    connected: Result<Text, TunnelError>,
    replied: Result<(), ErrorKind>,
    closed: Result<(), ErrorKind>,
    task: Rc<()>,
}

impl Incoming {
    fn of(n: u64) -> Incoming {
        Incoming {
            header: Ok(request_bytes(n)),
            valid: true,
            connected: Ok("local"),
            replied: Ok(()),
            closed: Ok(()),
            task: Rc::new(()),
        }
    }

    /// Handles a stream of `peer`; the names of the actions, the bytes of the reply, the result.
    fn handle(&self, proxy: &mut Proxy, peer: &str) -> (Vec<Text>, Vec<u8>, Result<(), Error>) {
        let mut names = vec![];
        let mut reply = vec![];
        let mut event = IncomingEvent::Arrived { stream: "remote" };
        loop {
            event = match proxy.handle_incoming_stream(&id(peer), event) {
                IncomingAction::ReadHeader { stream, proxy_addr } => {
                    names.push("read");
                    IncomingEvent::HeaderRead { stream, proxy_addr, outcome: self.header }
                }
                IncomingAction::CheckAccess { peer_id, stream, proxy_addr, tunnel_id } => {
                    names.push("check");
                    assert_eq!(peer_id.to_string(), peer);
                    let valid = self.valid;
                    IncomingEvent::AccessChecked { stream, proxy_addr, tunnel_id, valid }
                }
                IncomingAction::Connect { stream, proxy_addr, tunnel_id, timeout } => {
                    names.push("connect");
                    assert_eq!(proxy_addr, 8000);
                    assert_eq!(timeout, 5);
                    IncomingEvent::Connected { stream, tunnel_id, outcome: self.connected }
                }
                IncomingAction::WriteReply { stream, local_stream, header } => {
                    names.push("reply");
                    reply = header.write_to().to_vec();
                    let (tunnel_id, outcome) = (header.id, self.replied);
                    IncomingEvent::ReplyWritten { stream, local_stream, tunnel_id, outcome }
                }
                IncomingAction::Spawn { tunnel_id, local_stream, remote_stream } => {
                    names.push("spawn");
                    assert_eq!((local_stream, remote_stream), ("local", "remote"));
                    IncomingEvent::Spawned { tunnel_id, listener: self.task.clone() }
                }
                IncomingAction::Close { stream, error } => {
                    names.push("close");
                    assert_eq!(stream, "remote");
                    IncomingEvent::Closed { error, outcome: self.closed }
                }
                IncomingAction::Done(result) => return (names, reply, result),
            };
        }
    }

    fn is_kept(&self) -> bool {
        Rc::strong_count(&self.task) == 2
    }
}

#[test]
fn constants_of_the_proxy() {
    assert_eq!(VERSION, "0.1.0");
    assert_eq!(DEFAULT_CHANNEL_SIZE, 4096);
    assert_eq!(LOCAL_TCP_TIMEOUT, 5);
    assert_eq!(REMOTE_TCP_TIMEOUT, 30);
}

#[test]
fn no_proxy_without_a_swarm() {
    let created = Proxy::new::<u8>(id(LOCAL), Err("no port".to_string()), None, false);
    assert!(matches!(
        created,
        Err(Error::Libp2pSwarmCreateError(text)) if text == "no port"
    ));
    assert_eq!(proxy(None, false).local_peer_id().to_string(), LOCAL);
}

#[test]
fn a_stream_becomes_a_tunnel() {
    let mut proxy = proxy(Some(8000), false);
    let stream = Incoming::of(513);
    let (names, reply, result) = stream.handle(&mut proxy, PEER);
    assert_eq!(names, ["read", "connect", "reply", "spawn"]);
    assert_eq!(reply, [1, 0, 0, 0, 0, 0, 0, 0, 2, 1]);
    assert!(result.is_ok());
    assert!(stream.is_kept());
    drop(proxy);
    assert!(!stream.is_kept());
}

#[test]
fn a_granted_stream_becomes_a_tunnel() {
    let mut proxy = proxy(Some(8000), true);
    assert!(proxy.is_tunnel_valid(true));
    assert!(!proxy.is_tunnel_valid(false));
    let stream = Incoming::of(1);
    let (names, _, result) = stream.handle(&mut proxy, PEER);
    assert_eq!(names, ["read", "check", "connect", "reply", "spawn"]);
    assert!(result.is_ok());
    assert!(stream.is_kept());
}

#[test]
fn a_stream_without_a_local_server_is_refused() {
    let mut proxy = proxy(None, false);
    let mut stream = Incoming::of(1);
    let (names, _, result) = stream.handle(&mut proxy, PEER);
    assert_eq!(names, ["close"]);
    assert!(matches!(result, Err(Error::ProtocolNotSupport(text)) if text == "No proxy_addr"));
    stream.closed = Err(ErrorKind::BrokenPipe);
    let (_, _, result) = stream.handle(&mut proxy, PEER);
    assert!(matches!(result, Err(Error::Io(ErrorKind::BrokenPipe))));
    assert!(!stream.is_kept());
}

#[test]
fn a_stream_with_a_bad_header_is_refused() {
    let mut proxy = proxy(Some(8000), true);
    let mut stream = Incoming::of(1);
    stream.header = Ok([7; 10]);
    let (names, _, result) = stream.handle(&mut proxy, PEER);
    assert_eq!(names, ["read", "close"]);
    assert!(matches!(
        result,
        Err(Error::TunnelProtocolError(TunnelProtocolError::UnsupportedTunnelVersion(7)))
    ));
    stream.header = Err(ErrorKind::UnexpectedEof);
    let (names, _, result) = stream.handle(&mut proxy, PEER);
    assert_eq!(names, ["read", "close"]);
    assert!(matches!(
        result,
        Err(Error::TunnelProtocolError(TunnelProtocolError::IoError(ErrorKind::UnexpectedEof)))
    ));
    assert!(!stream.is_kept());
}

#[test]
fn a_stream_that_asks_for_udp_is_refused() {
    for access_control in [false, true] {
        let mut proxy = proxy(Some(8000), access_control);
        let mut stream = Incoming::of(1);
        stream.header = Ok([1, 2, 0, 0, 0, 0, 0, 0, 0, 1]);
        let (names, reply, result) = stream.handle(&mut proxy, PEER);
        assert_eq!(names, ["read", "close"]);
        assert!(reply.is_empty());
        assert!(matches!(
            result,
            Err(Error::TunnelProtocolError(TunnelProtocolError::UnsupportedCommand(2)))
        ));
        assert!(!stream.is_kept());
        stream.closed = Err(ErrorKind::BrokenPipe);
        let (_, _, result) = stream.handle(&mut proxy, PEER);
        assert!(matches!(result, Err(Error::Io(ErrorKind::BrokenPipe))));
    }
}

#[test]
fn a_stream_without_access_is_refused() {
    let mut stream = Incoming::of(1);
    stream.valid = false;
    let (names, _, result) = stream.handle(&mut proxy(Some(8000), true), PEER);
    assert_eq!(names, ["read", "check", "close"]);
    assert!(matches!(result, Err(Error::AccessDenied(text)) if text == PEER));
    assert!(!stream.is_kept());
    let mut open = proxy(Some(8000), false);
    assert!(open.is_tunnel_valid(false));
    assert!(stream.handle(&mut open, PEER).2.is_ok());
}

#[test]
fn a_stream_whose_local_server_is_away_is_dropped() {
    let mut stream = Incoming::of(1);
    stream.connected = Err(TunnelError::ConnectionRefused);
    let (names, _, result) = stream.handle(&mut proxy(Some(8000), false), PEER);
    assert_eq!(names, ["read", "connect"]);
    assert!(matches!(result, Err(Error::Tunnel(TunnelError::ConnectionRefused))));
    assert!(!stream.is_kept());
}

#[test]
fn a_stream_whose_peer_is_away_is_dropped() {
    let mut stream = Incoming::of(1);
    stream.replied = Err(ErrorKind::ConnectionReset);
    let (names, _, result) = stream.handle(&mut proxy(Some(8000), false), PEER);
    assert_eq!(names, ["read", "connect", "reply"]);
    assert!(matches!(result, Err(Error::Io(ErrorKind::ConnectionReset))));
    assert!(!stream.is_kept());
}

#[test]
fn tunnels_go_with_their_connection() {
    let mut proxy = proxy(Some(8000), false);
    let (a, b, c) = (Incoming::of(1), Incoming::of(2), Incoming::of(1));
    a.handle(&mut proxy, PEER).2.unwrap();
    b.handle(&mut proxy, PEER).2.unwrap();
    c.handle(&mut proxy, OTHER).2.unwrap();
    assert!(proxy.handle_p2p_server_event(NetworkEvent::Other).is_none());
    assert!(a.is_kept() && b.is_kept() && c.is_kept());
    let closed = NetworkEvent::ConnectionClosed { peer_id: id(PEER) };
    assert!(proxy.handle_p2p_server_event(closed).is_none());
    assert!(!a.is_kept() && !b.is_kept() && c.is_kept());
}

#[test]
fn a_tunnel_of_the_same_id_replaces_the_first() {
    let mut proxy = proxy(Some(8000), false);
    let (a, b) = (Incoming::of(1), Incoming::of(1));
    a.handle(&mut proxy, PEER).2.unwrap();
    b.handle(&mut proxy, PEER).2.unwrap();
    assert!(!a.is_kept() && b.is_kept());
}

#[test]
fn an_address_is_announced_with_the_peer_id() {
    let mut proxy = proxy(None, false);
    let event = NetworkEvent::NewListenAddr { address: addr("/ip4/127.0.0.1/tcp/6666") };
    let announced = proxy.handle_p2p_server_event(event).unwrap();
    assert_eq!(announced.to_string(), format!("/ip4/127.0.0.1/tcp/6666/p2p/{LOCAL}"));
}

#[test]
fn the_proxy_stops_when_nothing_can_come() {
    let mut proxy = proxy(None, false);
    assert!(matches!(proxy.run::<Text, Text>(RunEvent::Incoming(None)), RunAction::Stop));
    assert!(matches!(proxy.run::<Text, Text>(RunEvent::Command(None)), RunAction::Stop));
    assert!(matches!(
        proxy.run::<Text, Text>(RunEvent::Network(NetworkEvent::Other)),
        RunAction::Wait
    ));
    let address = addr("/ip4/127.0.0.1/tcp/1");
    match proxy.run::<Text, Text>(RunEvent::Network(NetworkEvent::NewListenAddr { address })) {
        RunAction::Announce { address } => {
            assert_eq!(address.to_string(), format!("/ip4/127.0.0.1/tcp/1/p2p/{LOCAL}"));
        }
        other => panic!("{other:?}"),
    }
    match proxy.run::<Text, Text>(RunEvent::Incoming(Some((id(PEER), "remote")))) {
        RunAction::Incoming { peer_id, action: IncomingAction::Close { stream: "remote", .. } } => {
            assert_eq!(peer_id.to_string(), PEER);
        }
        other => panic!("{other:?}"),
    }
    let command = PProxyCommand::CleanTunnel { peer_id: id(PEER), tunnel_id: tunnel(1) };
    assert!(matches!(
        proxy.run::<Text, Text>(RunEvent::Command(Some(command))),
        RunAction::Command {
            action: CommandAction::Answer(Ok(PProxyCommandResponse::CleanTunnel {}))
        }
    ));
}

/// How the work turns out that a command calls for.
struct Work {
    dialed: Result<(), Text>,
    listened: Result<(), Text>,
    opened: Result<Text, Text>,
    written: Result<(), ErrorKind>,
    response: Result<[u8; 10], ErrorKind>,
    closed: Result<(), ErrorKind>,
    delivered: bool,
}

type Answered = Option<Result<PProxyCommandResponse<Text>, Error>>;

impl Work {
    fn done() -> Work {
        Work {
            dialed: Ok(()),
            listened: Ok(()),
            opened: Ok("remote"),
            written: Ok(()),
            response: Ok([1, 0, 0, 0, 0, 0, 0, 0, 0, 0]),
            closed: Ok(()),
            delivered: true,
        }
    }

    /// Carries out a command; what was done, the answer, and the result.
    fn carry_out(
        &self,
        proxy: &mut Proxy,
        command: PProxyCommand,
    ) -> (Vec<String>, Answered, Result<(), Error>) {
        let mut done = vec![];
        let mut answer = None;
        let mut event = CommandEvent::Received(command);
        let text = |outcome: Result<(), Text>| outcome.map_err(str::to_string);
        loop {
            event = match proxy.handle_command(event) {
                CommandAction::DialPeer { multiaddr, peer_id } => {
                    done.push(format!("dial {}", multiaddr.to_string()));
                    let outcome = text(self.dialed);
                    CommandEvent::AddPeer(AddPeerEvent::Dialed { multiaddr, peer_id, outcome })
                }
                CommandAction::ListenOn { relaied_multiaddr } => {
                    done.push(format!("listen {}", relaied_multiaddr.to_string()));
                    let outcome = text(self.listened);
                    CommandEvent::ConnectRelay(ConnectRelayEvent::Listened {
                        relaied_multiaddr,
                        outcome,
                    })
                }
                CommandAction::DialKnownPeer { multiaddr, peer_id, tunnel_id } => {
                    done.push(format!("dial {}", multiaddr.to_string()));
                    let outcome = text(self.dialed);
                    CommandEvent::ConnectTunnel(ConnectTunnelEvent::Dialed {
                        peer_id,
                        tunnel_id,
                        outcome,
                    })
                }
                CommandAction::OpenStream { peer_id, tunnel_id } => {
                    done.push(format!("open {}", peer_id.to_string()));
                    let outcome = self.opened.map_err(str::to_string);
                    CommandEvent::ConnectTunnel(ConnectTunnelEvent::StreamOpened {
                        tunnel_id,
                        outcome,
                    })
                }
                CommandAction::WriteRequest { remote_stream, header } => {
                    done.push(format!("write {:?}", &header.write_to()[..]));
                    CommandEvent::ConnectTunnel(ConnectTunnelEvent::RequestWritten {
                        remote_stream,
                        outcome: self.written,
                    })
                }
                CommandAction::ReadResponse { remote_stream } => {
                    done.push("read".to_string());
                    CommandEvent::ConnectTunnel(ConnectTunnelEvent::ResponseRead {
                        remote_stream,
                        outcome: self.response,
                    })
                }
                CommandAction::CloseStream { remote_stream, reply } => {
                    done.push(format!("close {remote_stream}"));
                    CommandEvent::ConnectTunnel(ConnectTunnelEvent::StreamClosed {
                        reply,
                        outcome: self.closed,
                    })
                }
                CommandAction::ExpireAccess { peer_id } => {
                    done.push(format!("expire {}", peer_id.to_string()));
                    CommandEvent::AccessExpired
                }
                CommandAction::Answer(found) => {
                    assert!(answer.is_none());
                    answer = Some(found);
                    CommandEvent::Answered { delivered: self.delivered }
                }
                CommandAction::Done(result) => return (done, answer, result),
            };
        }
    }
}

fn add_peer(text: &str) -> PProxyCommand {
    PProxyCommand::AddPeer { multiaddr: addr(text), peer_id: id(PEER) }
}

fn connect(n: u64) -> PProxyCommand {
    PProxyCommand::ConnectTunnel { peer_id: id(PEER), tunnel_id: tunnel(n) }
}

#[test]
fn a_peer_is_added() {
    let mut proxy = proxy(None, false);
    let (done, answer, result) = Work::done().carry_out(&mut proxy, add_peer("/ip4/1.2.3.4/tcp/5"));
    assert_eq!(done, ["dial /ip4/1.2.3.4/tcp/5"]);
    match answer {
        Some(Ok(PProxyCommandResponse::AddPeer { peer_id })) => {
            assert_eq!(peer_id.to_string(), PEER);
        }
        other => panic!("{other:?}"),
    }
    assert!(result.is_ok());
}

#[test]
fn a_peer_that_cannot_be_dialed_is_not_added() {
    let mut proxy = proxy(None, false);
    let mut work = Work::done();
    work.dialed = Err("no route");
    let (_, answer, result) = work.carry_out(&mut proxy, add_peer("/ip4/1.2.3.4/tcp/5"));
    assert!(answer.is_none());
    assert!(matches!(result, Err(Error::Libp2pDialError(text)) if text == "no route"));
    let (done, answer, result) = Work::done().carry_out(&mut proxy, connect(1));
    assert!(done.is_empty());
    assert!(answer.is_none());
    assert!(matches!(result, Err(Error::UnknownPeer(text)) if text == PEER));
}

#[test]
fn a_relay_is_connected() {
    let mut proxy = proxy(None, false);
    let command = || PProxyCommand::ConnectRelay { multiaddr: addr("/ip4/1.2.3.4/tcp/5") };
    let expected = format!("/ip4/1.2.3.4/tcp/5/p2p-circuit/p2p/{LOCAL}");
    let (done, answer, result) = Work::done().carry_out(&mut proxy, command());
    assert_eq!(done, [format!("listen {expected}")]);
    match answer {
        Some(Ok(PProxyCommandResponse::ConnectRelay { relaied_multiaddr })) => {
            assert_eq!(relaied_multiaddr.to_string(), expected);
        }
        other => panic!("{other:?}"),
    }
    assert!(result.is_ok());
    let mut work = Work::done();
    work.listened = Err("no relay");
    let (_, answer, result) = work.carry_out(&mut proxy, command());
    assert!(answer.is_none());
    assert!(matches!(result, Err(Error::Libp2pTransportError(text)) if text == "no relay"));
}

#[test]
fn a_tunnel_is_connected_through_the_last_address() {
    let mut proxy = proxy(None, false);
    Work::done().carry_out(&mut proxy, add_peer("/ip4/1.2.3.4/tcp/5")).2.unwrap();
    Work::done().carry_out(&mut proxy, add_peer("/ip4/1.2.3.4/tcp/6")).2.unwrap();
    let mut work = Work::done();
    work.dialed = Err("already connected");
    let (done, answer, result) = work.carry_out(&mut proxy, connect(258));
    let expected = [
        "dial /ip4/1.2.3.4/tcp/6".to_string(),
        format!("open {PEER}"),
        "write [1, 1, 0, 0, 0, 0, 0, 0, 1, 2]".to_string(),
        "read".to_string(),
    ];
    assert_eq!(done, expected);
    assert!(matches!(
        answer,
        Some(Ok(PProxyCommandResponse::ConnectTunnel { remote_stream: "remote" }))
    ));
    assert!(result.is_ok());
}

#[test]
fn a_tunnel_that_the_peer_refuses() {
    let mut proxy = proxy(None, false);
    Work::done().carry_out(&mut proxy, add_peer("/ip4/1.2.3.4/tcp/5")).2.unwrap();
    let mut work = Work::done();
    work.response = Ok([1, 2, 0, 0, 0, 0, 0, 0, 0, 1]);
    let (done, answer, result) = work.carry_out(&mut proxy, connect(1));
    assert_eq!(done.last().unwrap(), "close remote");
    assert!(matches!(
        answer,
        Some(Err(Error::TunnelProtocolError(TunnelProtocolError::TunnelReply(
            TunnelReply::ConnectionNotAllowed
        ))))
    ));
    assert!(result.is_ok());
    work.closed = Err(ErrorKind::NotConnected);
    let (_, answer, result) = work.carry_out(&mut proxy, connect(1));
    assert!(answer.is_none());
    assert!(matches!(result, Err(Error::Io(ErrorKind::NotConnected))));
}

#[test]
fn a_tunnel_that_cannot_be_connected() {
    let mut proxy = proxy(None, false);
    Work::done().carry_out(&mut proxy, add_peer("/ip4/1.2.3.4/tcp/5")).2.unwrap();
    let mut work = Work::done();
    work.opened = Err("gone");
    let (_, answer, result) = work.carry_out(&mut proxy, connect(1));
    assert!(answer.is_none());
    assert!(matches!(result, Err(Error::Libp2pOpenStreamError(text)) if text == "gone"));
    let mut work = Work::done();
    work.written = Err(ErrorKind::BrokenPipe);
    let (_, answer, result) = work.carry_out(&mut proxy, connect(1));
    assert!(answer.is_none());
    assert!(matches!(result, Err(Error::Io(ErrorKind::BrokenPipe))));
    let mut work = Work::done();
    work.response = Ok([3; 10]);
    let (_, answer, result) = work.carry_out(&mut proxy, connect(1));
    assert!(answer.is_none());
    assert!(matches!(
        result,
        Err(Error::TunnelProtocolError(TunnelProtocolError::UnsupportedTunnelVersion(3)))
    ));
}

#[test]
fn an_answer_that_nobody_waits_for() {
    let mut proxy = proxy(None, false);
    let mut work = Work::done();
    work.delivered = false;
    let (_, answer, result) = work.carry_out(&mut proxy, add_peer("/ip4/1.2.3.4/tcp/5"));
    assert!(answer.is_some());
    assert!(matches!(result, Err(Error::EssentialTaskClosed)));
}

#[test]
fn a_cleaned_tunnel_is_forgotten() {
    let mut proxy = proxy(Some(8000), false);
    let (a, b) = (Incoming::of(1), Incoming::of(2));
    a.handle(&mut proxy, PEER).2.unwrap();
    b.handle(&mut proxy, PEER).2.unwrap();
    for _ in 0..2 {
        let command = PProxyCommand::CleanTunnel { peer_id: id(PEER), tunnel_id: tunnel(1) };
        let (done, answer, result) = Work::done().carry_out(&mut proxy, command);
        assert!(done.is_empty());
        assert!(matches!(answer, Some(Ok(PProxyCommandResponse::CleanTunnel {}))));
        assert!(result.is_ok());
        assert!(!a.is_kept() && b.is_kept());
    }
}

#[test]
fn access_expires() {
    for access_control in [true, false] {
        let mut proxy = proxy(None, access_control);
        let command = PProxyCommand::ExpirePeerAccess { peer_id: id(PEER) };
        let (done, answer, result) = Work::done().carry_out(&mut proxy, command);
        let expected = if access_control { vec![format!("expire {PEER}")] } else { vec![] };
        assert_eq!(done, expected);
        assert!(matches!(answer, Some(Ok(PProxyCommandResponse::ExpirePeerAccess {}))));
        assert!(result.is_ok());
    }
}

#[test]
fn both_ends_agree_on_a_tunnel() {
    let mut client = proxy(None, false);
    let mut server = proxy(Some(8000), false);
    Work::done().carry_out(&mut client, add_peer("/ip4/1.2.3.4/tcp/5")).2.unwrap();
    let stream = Incoming::of(77);
    let (_, reply, result) = stream.handle(&mut server, LOCAL);
    result.unwrap();
    let mut work = Work::done();
    work.response = Ok(ten(&reply));
    let (done, answer, _) = work.carry_out(&mut client, connect(77));
    assert_eq!(done[2], format!("write {:?}", request_bytes(77)));
    assert!(matches!(answer, Some(Ok(PProxyCommandResponse::ConnectTunnel { .. }))));
    assert!(stream.is_kept());
}

use std::io::ErrorKind;
use std::rc::Rc;

use dephy_pproxy::command::AddPeerRequest;
use dephy_pproxy::command::CommandReply;
use dephy_pproxy::command::ConnectRelayRequest;
use dephy_pproxy::command::CreateTunnelServerRequest;
use dephy_pproxy::command::ExpirePeerAccessRequest;
use dephy_pproxy::command::PProxyCommand;
use dephy_pproxy::command::PProxyCommandResponse;
use dephy_pproxy::error::Error;
use dephy_pproxy::error::TunnelError;
use dephy_pproxy::handle::PProxyHandle;
use dephy_pproxy::handle::RequestAction;
use dephy_pproxy::handle::RequestEvent;
use dephy_pproxy::handle::ServerRequestAction;
use dephy_pproxy::handle::ServerRequestEvent;
use dephy_pproxy::multiaddr::Multiaddress;
use dephy_pproxy::peer_id::PeerId;
use dephy_pproxy::tunnel::ListenerAction;
use dephy_pproxy::tunnel::ListenerEvent;
use dephy_pproxy::tunnel::TunnelServerListener;
use dephy_pproxy::types::TunnelId;

const PEER: &str = "12D3KooWRNw2pJC9748Fmq4WNV27HoSTcX3r37132FLkQMrbKAiC";
const OTHER: &str = "QmcgpsyWgH8Y8ajJz1Cu72KnS5uo2Aa2LpzU7kinSupNKC";

type Handle = PProxyHandle<Rc<()>>;

fn peer(text: &str) -> PeerId {
    PeerId::parse(text).unwrap()
}

fn answered(response: PProxyCommandResponse<u8>) -> CommandReply<u8> {
    CommandReply::Answered(Ok(response))
}

fn add(multiaddr: &str, peer_id: Option<&str>) -> Result<(String, String), Error> {
    let request = AddPeerRequest {
        multiaddr: multiaddr.to_string(),
        peer_id: peer_id.map(str::to_string),
    };
    match Handle::new().add_peer::<u8>(RequestEvent::Requested(request)) {
        RequestAction::Send { command: PProxyCommand::AddPeer { multiaddr, peer_id } } => {
            Ok((multiaddr.to_string(), peer_id.to_string()))
        }
        RequestAction::Done(Err(error)) => Err(error),
        other => panic!("{other:?}"),
    }
}

#[test]
fn add_peer_with_a_peer_id() {
    let (multiaddr, peer_id) = add("/ip4/1.2.3.4/tcp/05", Some(PEER)).unwrap();
    assert_eq!(multiaddr, "/ip4/1.2.3.4/tcp/5");
    assert_eq!(peer_id, PEER);
}

#[test]
fn add_peer_takes_the_peer_id_from_the_address() {
    let text = format!("/ip4/1.2.3.4/tcp/5/p2p/{OTHER}");
    assert_eq!(add(&text, None).unwrap(), (text.clone(), OTHER.to_string()));
    assert_eq!(add(&text, Some(PEER)).unwrap(), (text.clone(), PEER.to_string()));
}

#[test]
fn add_peer_is_refused() {
    assert!(matches!(add("x", Some("y")), Err(Error::MultiaddrParseError(text)) if text == "x"));
    assert!(matches!(
        add("/ip4/1.2.3.4/tcp/5", Some("y")),
        Err(Error::PeerIdParseError(text)) if text == "y"
    ));
    assert!(matches!(
        add("/ip4/1.2.3.4/tcp/5", None),
        Err(Error::FailedToExtractPeerIdFromMultiaddr(text)) if text == "/ip4/1.2.3.4/tcp/5"
    ));
}

#[test]
fn add_peer_is_answered() {
    let handle = Handle::new();
    let reply = answered(PProxyCommandResponse::AddPeer { peer_id: peer(PEER) });
    match handle.add_peer(RequestEvent::Replied(reply)) {
        RequestAction::Done(Ok(response)) => assert_eq!(response.peer_id, PEER),
        other => panic!("{other:?}"),
    }
    let reply = answered(PProxyCommandResponse::CleanTunnel {});
    assert!(matches!(
        handle.add_peer(RequestEvent::Replied(reply)),
        RequestAction::Done(Err(Error::UnexpectedResponseType))
    ));
    assert!(matches!(
        handle.add_peer::<u8>(RequestEvent::Replied(CommandReply::NotSent)),
        RequestAction::Done(Err(Error::EssentialTaskClosed))
    ));
    assert!(matches!(
        handle.add_peer::<u8>(RequestEvent::Replied(CommandReply::Canceled)),
        RequestAction::Done(Err(Error::EssentialTaskClosed))
    ));
}

#[test]
fn connect_relay_requests() {
    let handle = Handle::new();
    let request = ConnectRelayRequest { multiaddr: "/ip4/1.2.3.4/tcp/5".to_string() };
    match handle.connect_relay::<u8>(RequestEvent::Requested(request)) {
        RequestAction::Send { command: PProxyCommand::ConnectRelay { multiaddr } } => {
            assert_eq!(multiaddr.to_string(), "/ip4/1.2.3.4/tcp/5");
        }
        other => panic!("{other:?}"),
    }
    let request = ConnectRelayRequest { multiaddr: "relay".to_string() };
    assert!(matches!(
        handle.connect_relay::<u8>(RequestEvent::Requested(request)),
        RequestAction::Done(Err(Error::MultiaddrParseError(text))) if text == "relay"
    ));
}

#[test]
fn connect_relay_is_answered() {
    let handle = Handle::new();
    let text = format!("/ip4/1.2.3.4/tcp/5/p2p-circuit/p2p/{PEER}");
    let relaied_multiaddr = Multiaddress::parse(&text).unwrap();
    let reply = answered(PProxyCommandResponse::ConnectRelay { relaied_multiaddr });
    match handle.connect_relay(RequestEvent::Replied(reply)) {
        RequestAction::Done(Ok(response)) => assert_eq!(response.relaied_multiaddr, text),
        other => panic!("{other:?}"),
    }
    let reply = answered(PProxyCommandResponse::ExpirePeerAccess {});
    assert!(matches!(
        handle.connect_relay(RequestEvent::Replied(reply)),
        RequestAction::Done(Err(Error::UnexpectedResponseType))
    ));
}

#[test]
fn expire_peer_access_requests() {
    let handle = Handle::new();
    let request = ExpirePeerAccessRequest { peer_id: PEER.to_string() };
    match handle.expire_peer_access::<u8>(RequestEvent::Requested(request)) {
        RequestAction::Send { command: PProxyCommand::ExpirePeerAccess { peer_id } } => {
            assert_eq!(peer_id.to_string(), PEER);
        }
        other => panic!("{other:?}"),
    }
    let request = ExpirePeerAccessRequest { peer_id: "nobody".to_string() };
    assert!(matches!(
        handle.expire_peer_access::<u8>(RequestEvent::Requested(request)),
        RequestAction::Done(Err(Error::PeerIdParseError(text))) if text == "nobody"
    ));
}

#[test]
fn expire_peer_access_takes_any_response() {
    let handle = Handle::new();
    let reply = answered(PProxyCommandResponse::CleanTunnel {});
    assert!(matches!(
        handle.expire_peer_access(RequestEvent::Replied(reply)),
        RequestAction::Done(Ok(_))
    ));
    assert!(matches!(
        handle.expire_peer_access::<u8>(RequestEvent::Replied(CommandReply::Canceled)),
        RequestAction::Done(Err(Error::EssentialTaskClosed))
    ));
}

fn request(peer_id: &str, address: Option<&str>) -> ServerRequestEvent<u16, Rc<()>> {
    ServerRequestEvent::Requested(CreateTunnelServerRequest {
        peer_id: peer_id.to_string(),
        address: address.map(str::to_string),
    })
}

/// Creates a tunnel server that listens at `local`, served by `task`.
fn create(handle: &mut Handle, peer_id: &str, local: &str, task: Rc<()>) -> (String, String) {
    let mut action = handle.create_tunnel_server(request(peer_id, Some("0.0.0.0:0")));
    loop {
        let event = match action {
            ServerRequestAction::ReadAddress { peer_id, address } => {
                assert_eq!(address, "0.0.0.0:0");
                ServerRequestEvent::AddressRead { peer_id, address, parsed: Some(7u16) }
            }
            ServerRequestAction::Bind { server, address } => {
                assert_eq!(address, 7);
                ServerRequestEvent::Bound { server, outcome: Ok(local.to_string()) }
            }
            ServerRequestAction::Spawn { server, address } => {
                let listener = task.clone();
                ServerRequestEvent::Spawned { server, address, listener }
            }
            ServerRequestAction::Done(result) => {
                let response = result.unwrap();
                return (response.peer_id, response.address);
            }
        };
        action = handle.create_tunnel_server(event);
    }
}

#[test]
fn tunnel_servers_are_kept_until_replaced() {
    let mut handle = Handle::new();
    let (first, second, third) = (Rc::new(()), Rc::new(()), Rc::new(()));
    let made = create(&mut handle, PEER, "127.0.0.1:8080", first.clone());
    assert_eq!(made, (PEER.to_string(), "127.0.0.1:8080".to_string()));
    create(&mut handle, OTHER, "127.0.0.1:8081", second.clone());
    assert_eq!(Rc::strong_count(&first), 2);
    assert_eq!(Rc::strong_count(&second), 2);
    create(&mut handle, PEER, "127.0.0.1:8082", third.clone());
    assert_eq!(Rc::strong_count(&first), 1);
    assert_eq!(Rc::strong_count(&second), 2);
    assert_eq!(Rc::strong_count(&third), 2);
    handle.next_tunnel_id().next_tunnel_id();
    handle.close();
    assert_eq!(Rc::strong_count(&second), 1);
    assert_eq!(Rc::strong_count(&third), 1);
    assert_eq!(handle.next_tunnel_id().next_tunnel_id(), TunnelId::from(1u64));
    create(&mut handle, PEER, "127.0.0.1:8083", first.clone());
    drop(handle);
    assert_eq!(Rc::strong_count(&first), 1);
}

#[test]
fn the_peer_that_was_added_can_be_tunneled_to() {
    let mut handle = Handle::new();
    let reply = answered(PProxyCommandResponse::AddPeer { peer_id: peer(OTHER) });
    let RequestAction::Done(Ok(added)) = handle.add_peer(RequestEvent::Replied(reply)) else {
        panic!("not added")
    };
    let (peer_id, _) = create(&mut handle, &added.peer_id, "127.0.0.1:8080", Rc::new(()));
    assert_eq!(peer_id, OTHER);
    let (again, _) = create(&mut handle, &peer_id, "127.0.0.1:8081", Rc::new(()));
    assert_eq!(again, OTHER);
}

#[test]
fn tunnel_servers_listen_anywhere_local_by_default() {
    match Handle::new().create_tunnel_server(request(PEER, None)) {
        ServerRequestAction::ReadAddress { peer_id, address } => {
            assert_eq!(peer_id.to_string(), PEER);
            assert_eq!(address, "127.0.0.1:0");
        }
        other => panic!("{other:?}"),
    }
}

#[test]
fn tunnel_servers_share_one_sequence_of_ids() {
    let mut handle = Handle::new();
    create(&mut handle, PEER, "127.0.0.1:8080", Rc::new(()));
    let mut first: TunnelServerListener<u8> = TunnelServerListener::new(peer(PEER));
    let mut second: TunnelServerListener<u8> = TunnelServerListener::new(peer(OTHER));
    for n in [0u64, 2, 4] {
        for (server, expected) in [(&mut first, n), (&mut second, n + 1)] {
            let accepted: ListenerEvent<u8, u8, u8> = ListenerEvent::Accepted(Ok(1));
            match server.listen(handle.next_tunnel_id(), accepted) {
                ListenerAction::Send { tunnel_id, .. } => {
                    assert_eq!(tunnel_id, TunnelId::from(expected));
                }
                other => panic!("{other:?}"),
            }
        }
    }
    create(&mut handle, PEER, "127.0.0.1:8081", Rc::new(()));
    assert_eq!(handle.next_tunnel_id().next_tunnel_id(), TunnelId::from(6u64));
}

#[test]
fn tunnel_servers_are_refused() {
    let mut handle = Handle::new();
    assert!(matches!(
        handle.create_tunnel_server(request("nobody", None)),
        ServerRequestAction::Done(Err(Error::PeerIdParseError(text))) if text == "nobody"
    ));
    let event: ServerRequestEvent<u16, Rc<()>> = ServerRequestEvent::AddressRead {
        peer_id: peer(PEER),
        address: "here".to_string(),
        parsed: None,
    };
    assert!(matches!(
        handle.create_tunnel_server(event),
        ServerRequestAction::Done(Err(Error::SocketAddrParseError(text))) if text == "here"
    ));
    let event: ServerRequestEvent<u16, Rc<()>> = ServerRequestEvent::AddressRead {
        peer_id: peer(PEER),
        address: "here".to_string(),
        parsed: Some(7),
    };
    let ServerRequestAction::Bind { server, .. } = handle.create_tunnel_server(event) else {
        panic!("no socket to bind")
    };
    let event: ServerRequestEvent<u16, Rc<()>> =
        ServerRequestEvent::Bound { server, outcome: Err(ErrorKind::AddrInUse) };
    assert!(matches!(
        handle.create_tunnel_server(event),
        ServerRequestAction::Done(Err(Error::Tunnel(TunnelError::AddrInUse)))
    ));
}

use std::io::ErrorKind;
use std::rc::Rc;

use dephy_pproxy::command::CommandReply;
use dephy_pproxy::command::PProxyCommand;
use dephy_pproxy::command::PProxyCommandResponse;
use dephy_pproxy::error::Error;
use dephy_pproxy::error::TunnelError;
use dephy_pproxy::peer_id::PeerId;
use dephy_pproxy::table::Table;
use dephy_pproxy::tunnel::tcp_connect_with_timeout;
use dephy_pproxy::tunnel::CleanOutcome;
use dephy_pproxy::tunnel::ConnectAction;
use dephy_pproxy::tunnel::ConnectEvent;
use dephy_pproxy::tunnel::ListenerAction;
use dephy_pproxy::tunnel::ListenerEvent;
use dephy_pproxy::tunnel::ServerListenAction;
use dephy_pproxy::tunnel::ServerListenEvent;
use dephy_pproxy::tunnel::Tunnel;
use dephy_pproxy::tunnel::TunnelAction;
use dephy_pproxy::tunnel::TunnelEvent;
use dephy_pproxy::tunnel::TunnelIds;
use dephy_pproxy::tunnel::TunnelListener;
use dephy_pproxy::tunnel::TunnelServer;
use dephy_pproxy::tunnel::TunnelServerListener;
use dephy_pproxy::tunnel::LISTENER_ABORT_DELAY;
use dephy_pproxy::types::TunnelId;

const PEER: &str = "12D3KooWRNw2pJC9748Fmq4WNV27HoSTcX3r37132FLkQMrbKAiC";

fn peer() -> PeerId {
    PeerId::parse(PEER).unwrap()
}

/// Stands for a stream in a test.
type Text = &'static str;

#[test]
fn tunnel_ids_count_from_zero() {
    let mut ids = TunnelIds::new();
    for n in 0..100u64 {
        assert_eq!(ids.next_tunnel_id(), TunnelId::from(n));
    }
}

#[test]
fn a_tunnel_listens_once() {
    let mut tunnel = Tunnel::new(peer(), TunnelId::from(1u64));
    assert_eq!(tunnel.check_listen(), Ok(()));
    let first = Rc::new(());
    let second = Rc::new(());
    assert_eq!(tunnel.listen(first.clone()), Ok(()));
    assert_eq!(tunnel.check_listen(), Err(TunnelError::TunnelInUse));
    assert_eq!(tunnel.listen(second.clone()), Err(TunnelError::TunnelInUse));
    assert_eq!(Rc::strong_count(&first), 2);
    assert_eq!(Rc::strong_count(&second), 1);
    drop(tunnel);
    assert_eq!(Rc::strong_count(&first), 1);
}

#[test]
fn a_tunnel_server_listens_once() {
    assert_eq!(LISTENER_ABORT_DELAY, 3);
    let mut server: TunnelServer<u8> = TunnelServer::new(peer());
    assert_eq!(server.peer_id().to_string(), PEER);
    assert!(matches!(
        server.listen::<u16, Text>(ServerListenEvent::Requested { address: 8080 }),
        ServerListenAction::Bind { address: 8080 }
    ));
    assert!(matches!(
        server.listen::<u16, Text>(ServerListenEvent::Bound(Ok("127.0.0.1:8080"))),
        ServerListenAction::Spawn { address: "127.0.0.1:8080" }
    ));
    let spawned = ServerListenEvent::Spawned { address: "127.0.0.1:8080", listener: 1u8 };
    assert!(matches!(
        server.listen::<u16, Text>(spawned),
        ServerListenAction::Done(Ok("127.0.0.1:8080"))
    ));
    assert!(matches!(
        server.listen::<u16, Text>(ServerListenEvent::Requested { address: 8081 }),
        ServerListenAction::Done(Err(TunnelError::TunnelInUse))
    ));
}

#[test]
fn a_tunnel_server_that_could_not_bind_can_be_asked_again() {
    let mut server: TunnelServer<u8> = TunnelServer::new(peer());
    assert!(matches!(
        server.listen::<u16, Text>(ServerListenEvent::Bound(Err(ErrorKind::AddrInUse))),
        ServerListenAction::Done(Err(TunnelError::AddrInUse))
    ));
    assert!(matches!(
        server.listen::<u16, Text>(ServerListenEvent::Requested { address: 8080 }),
        ServerListenAction::Bind { address: 8080 }
    ));
}

#[test]
fn a_connection_is_tunneled() {
    let mut ids = TunnelIds::new();
    ids.next_tunnel_id();
    let mut server: TunnelServerListener<Rc<()>> = TunnelServerListener::new(peer());
    let id = TunnelId::from(1u64);
    match server.listen::<Text, Text>(&mut ids, ListenerEvent::Accepted(Ok("local"))) {
        ListenerAction::Send {
            local_stream: "local",
            tunnel_id,
            command: PProxyCommand::ConnectTunnel { peer_id, tunnel_id: asked },
        } => {
            assert_eq!(tunnel_id, id);
            assert_eq!(asked, id);
            assert_eq!(peer_id.to_string(), PEER);
        }
        other => panic!("{other:?}"),
    }
    assert!(matches!(
        server.listen::<Text, Text>(
            &mut ids,
            ListenerEvent::Sent { local_stream: "local", tunnel_id: id }
        ),
        ListenerAction::AwaitReply { local_stream: "local", tunnel_id } if tunnel_id == id
    ));
    let response = PProxyCommandResponse::ConnectTunnel { remote_stream: "remote" };
    let reply = CommandReply::Answered(Ok(response));
    let replied = ListenerEvent::Replied { local_stream: "local", tunnel_id: id, reply };
    assert!(matches!(
        server.listen::<Text, Text>(&mut ids, replied),
        ListenerAction::Spawn { tunnel_id, local_stream: "local", remote_stream: "remote" }
            if tunnel_id == id
    ));
    let task = Rc::new(());
    let spawned = ListenerEvent::Spawned { tunnel_id: id, listener: task.clone() };
    assert!(matches!(server.listen::<Text, Text>(&mut ids, spawned), ListenerAction::Check));
    assert_eq!(Rc::strong_count(&task), 2);
    drop(server);
    assert_eq!(Rc::strong_count(&task), 1);
    assert_eq!(ids.next_tunnel_id(), TunnelId::from(2u64));
}

#[test]
fn a_connection_without_a_stream_is_dropped() {
    let mut ids = TunnelIds::new();
    let mut server: TunnelServerListener<u8> = TunnelServerListener::new(peer());
    let replies: Vec<CommandReply<Text>> = vec![
        CommandReply::NotSent,
        CommandReply::Canceled,
        CommandReply::Answered(Err(Error::UnexpectedResponseType)),
        CommandReply::Answered(Ok(PProxyCommandResponse::CleanTunnel {})),
    ];
    for reply in replies {
        let tunnel_id = TunnelId::from(5u64);
        let replied = ListenerEvent::Replied { local_stream: "local", tunnel_id, reply };
        assert!(matches!(server.listen::<Text, Text>(&mut ids, replied), ListenerAction::Check));
    }
}

#[test]
fn a_tunnel_server_runs_over_many_connections() {
    let mut ids = TunnelIds::new();
    let mut server: TunnelServerListener<Rc<()>> = TunnelServerListener::new(peer());
    // What comes of each attempt to accept: a failure, or a connection that is answered or not.
    let attempts = [Some(true), None, Some(false), Some(true), None, Some(true)];
    let tasks: Vec<Rc<()>> = attempts.iter().map(|_| Rc::new(())).collect();
    let mut at = 0;
    let mut sent = vec![];
    let mut event: ListenerEvent<Text, Text, Rc<()>> = ListenerEvent::Checked { cancelled: false };
    loop {
        event = match server.listen(&mut ids, event) {
            ListenerAction::Check => {
                at += 1;
                ListenerEvent::Checked { cancelled: at == attempts.len() }
            }
            ListenerAction::Accept => ListenerEvent::Accepted(match attempts[at] {
                Some(_) => Ok("local"),
                None => Err(ErrorKind::ConnectionAborted),
            }),
            ListenerAction::Send { local_stream, tunnel_id, .. } => {
                sent.push(tunnel_id);
                ListenerEvent::Sent { local_stream, tunnel_id }
            }
            ListenerAction::AwaitReply { local_stream, tunnel_id } => {
                let remote_stream = "remote";
                let reply = match attempts[at] {
                    Some(true) => CommandReply::Answered(Ok(
                        PProxyCommandResponse::ConnectTunnel { remote_stream },
                    )),
                    _ => CommandReply::Canceled,
                };
                ListenerEvent::Replied { local_stream, tunnel_id, reply }
            }
            ListenerAction::Spawn { tunnel_id, .. } => {
                assert_eq!(Some(&tunnel_id), sent.last());
                ListenerEvent::Spawned { tunnel_id, listener: tasks[at].clone() }
            }
            ListenerAction::Stop => break,
        };
    }
    assert_eq!(sent, [0u64, 1, 2, 3].map(TunnelId::from));
    assert_eq!(ids.next_tunnel_id(), TunnelId::from(4u64));
    for (attempt, task) in attempts.iter().zip(&tasks) {
        let kept = Rc::strong_count(task) == 2;
        assert_eq!(kept, *attempt == Some(true));
    }
}

#[test]
fn a_tunnel_server_stops_when_told_to() {
    let mut ids = TunnelIds::new();
    let mut server: TunnelServerListener<u8> = TunnelServerListener::new(peer());
    assert!(matches!(
        server.listen::<Text, Text>(&mut ids, ListenerEvent::Checked { cancelled: false }),
        ListenerAction::Accept
    ));
    let failed = ListenerEvent::Accepted(Err(ErrorKind::ConnectionAborted));
    assert!(matches!(server.listen::<Text, Text>(&mut ids, failed), ListenerAction::Check));
    assert!(matches!(
        server.listen::<Text, Text>(&mut ids, ListenerEvent::Checked { cancelled: true }),
        ListenerAction::Stop
    ));
    assert_eq!(ids.next_tunnel_id(), TunnelId::from(0u64));
}

#[test]
fn a_tunnel_is_cleaned_up_however_copying_ends() {
    let id = TunnelId::from(11u64);
    let listener = TunnelListener::new(peer(), id);
    assert!(matches!(listener.listen::<Text>(TunnelEvent::Started), TunnelAction::Copy));
    for copied in [Ok((10u64, 20u64)), Err(ErrorKind::ConnectionReset)] {
        match listener.listen::<Text>(TunnelEvent::Copied(copied)) {
            TunnelAction::SendClean {
                command: PProxyCommand::CleanTunnel { peer_id, tunnel_id },
            } => {
                assert_eq!(peer_id.to_string(), PEER);
                assert_eq!(tunnel_id, id);
            }
            other => panic!("{other:?}"),
        }
    }
    for delivered in [true, false] {
        let sent = TunnelEvent::CleanSent { delivered };
        assert!(matches!(listener.listen::<Text>(sent), TunnelAction::AwaitReply));
    }
}

#[test]
fn the_end_of_a_cleanup() {
    let listener = TunnelListener::new(peer(), TunnelId::from(11u64));
    let reply = CommandReply::Answered(Ok(PProxyCommandResponse::CleanTunnel {}));
    assert!(matches!(
        listener.listen::<Text>(TunnelEvent::CleanReplied(reply)),
        TunnelAction::Finish(CleanOutcome::Cleaned)
    ));
    let reply = CommandReply::Answered(Ok(PProxyCommandResponse::ExpirePeerAccess {}));
    assert!(matches!(
        listener.listen::<Text>(TunnelEvent::CleanReplied(reply)),
        TunnelAction::Finish(CleanOutcome::Failed(Error::UnexpectedResponseType))
    ));
    assert!(matches!(
        listener.listen::<Text>(TunnelEvent::CleanReplied(CommandReply::Canceled)),
        TunnelAction::Finish(CleanOutcome::Failed(Error::EssentialTaskClosed))
    ));
}

#[test]
fn connections_within_a_time() {
    let connect = tcp_connect_with_timeout::<u16, Text>;
    assert!(matches!(
        connect(ConnectEvent::Requested { addr: 80, request_timeout_s: 30 }),
        ConnectAction::Connect { addr: 80, timeout_s: 30 }
    ));
    assert!(matches!(
        connect(ConnectEvent::Attempted(Some(Ok("stream")))),
        ConnectAction::Done(Ok("stream"))
    ));
    assert!(matches!(
        connect(ConnectEvent::Attempted(Some(Err(ErrorKind::ConnectionRefused)))),
        ConnectAction::Done(Err(TunnelError::ConnectionRefused))
    ));
    assert!(matches!(
        connect(ConnectEvent::Attempted(None)),
        ConnectAction::Done(Err(TunnelError::ConnectionTimeout))
    ));
}

#[test]
fn tables_hold_one_value_per_key() {
    let mut table: Table<TunnelId, Multi> = Table::new();
    let one = TunnelId::from(1u64);
    let two = TunnelId::from(2u64);
    assert!(table.insert(one, multi("/tcp/1")).is_none());
    assert!(table.insert(two, multi("/tcp/2")).is_none());
    assert_eq!(table.insert(one, multi("/tcp/3")).unwrap().to_string(), "/tcp/1");
    assert_eq!(table.get(&one).unwrap().to_string(), "/tcp/3");
    assert_eq!(table.get(&two).unwrap().to_string(), "/tcp/2");
    assert_eq!(table.remove(&one).unwrap().to_string(), "/tcp/3");
    assert!(table.remove(&one).is_none());
    assert!(table.get(&one).is_none());
    assert_eq!(table.get(&two).unwrap().to_string(), "/tcp/2");
}

type Multi = dephy_pproxy::multiaddr::Multiaddress;

fn multi(text: &str) -> Multi {
    Multi::parse(text).unwrap()
}

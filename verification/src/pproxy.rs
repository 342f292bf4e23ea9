//! The proxy: what it knows, and what it decides.
//!
//! The proxy serves one thing at a time, and serving it alternates between decisions and work on
//! the network. The decisions are here: each handler takes what has just happened and says what is
//! to be done next. The caller does it and comes back with the outcome. `S` is the type of the
//! streams to peers, `L` that of local streams, `A` that of the address of the local server, and
//! `H` that of the handle of a running task, whose task ends when the handle is dropped.
use vstd::prelude::*;

use crate::command::PProxyCommand;
use crate::command::PProxyCommandResponse;
use crate::error::Error;
use crate::error::TunnelProtocolError;
use crate::handle::PProxyHandle;
use crate::handle::PProxyHandleView;
use crate::multiaddr::Multiaddress;
use crate::peer_id::PeerId;
use crate::pproxy::commands::AddPeerEvent;
use crate::pproxy::commands::CommandAction;
use crate::pproxy::commands::CommandEvent;
use crate::pproxy::commands::ConnectRelayEvent;
use crate::pproxy::commands::ConnectTunnelEvent;
use crate::pproxy::incoming::IncomingAction;
use crate::pproxy::incoming::IncomingEvent;
use crate::table::Table;
use crate::tunnel::protocol::TcpResponseHeader;
use crate::tunnel::protocol::TunnelRequestHeader;
use crate::tunnel::Tunnel;
use crate::tunnel::TunnelEvent;
use crate::tunnel::TunnelServerView;
use crate::tunnel::TunnelView;
use crate::types::TunnelCommand;
use crate::types::TunnelId;
use crate::types::TunnelReply;
use crate::LOCAL_TCP_TIMEOUT;

pub mod commands;
pub mod incoming;

verus! {

/// The proxy of a node.
pub struct PProxy<A, H> {
    local_peer_id: PeerId,
    known_peers: Table<PeerId, Multiaddress>,
    inbound_tunnels: Table<(PeerId, TunnelId), Tunnel<H>>,
    proxy_addr: Option<A>,
    access_control: bool,
}

/// The view of a proxy.
#[verifier::ext_equal]
pub struct PProxyView<A, H> {
    /// The peer id of the node.
    pub local_peer_id: Seq<char>,
    /// The addresses of the peers that tunnels can be connected to.
    pub known_peers: Map<Seq<char>, Seq<Seq<char>>>,
    /// The tunnels that peers have opened to this node.
    pub inbound_tunnels: Map<(Seq<char>, u64), TunnelView<H>>,
    /// The local server that tunnels of peers lead to.
    pub proxy_addr: Option<A>,
    /// Whether an access server decides which peers may open tunnels.
    pub access_control: bool,
}

impl<A, H> View for PProxy<A, H> {
    type V = PProxyView<A, H>;

    closed spec fn view(&self) -> PProxyView<A, H> {
        PProxyView {
            local_peer_id: self.local_peer_id@,
            known_peers: self.known_peers@,
            inbound_tunnels: self.inbound_tunnels@,
            proxy_addr: self.proxy_addr,
            access_control: self.access_control,
        }
    }
}

/// What happens on the network, as far as it concerns the proxy.
#[derive(Debug)]
pub enum NetworkEvent<Peer = PeerId, Addr = Multiaddress> {
    /// The node listens on one more address.
    NewListenAddr { address: Addr },
    /// A connection to a peer was closed.
    ConnectionClosed { peer_id: Peer },
    /// Anything else.
    Other,
}

impl View for NetworkEvent {
    type V = NetworkEvent<Seq<char>, Seq<Seq<char>>>;

    open spec fn view(&self) -> NetworkEvent<Seq<char>, Seq<Seq<char>>> {
        match *self {
            NetworkEvent::NewListenAddr { address } => NetworkEvent::NewListenAddr {
                address: address@,
            },
            NetworkEvent::ConnectionClosed { peer_id } => NetworkEvent::ConnectionClosed {
                peer_id: peer_id@,
            },
            NetworkEvent::Other => NetworkEvent::Other,
        }
    }
}

/// The step of a proxy that the network tells something: an address that the node listens on is
/// to be announced with the peer id of the node behind it, and the tunnels of a peer go with a
/// connection to it.
pub open spec fn network_step<A, H>(
    proxy: PProxyView<A, H>,
    event: NetworkEvent<Seq<char>, Seq<Seq<char>>>,
) -> (PProxyView<A, H>, Option<Seq<Seq<char>>>) {
    match event {
        NetworkEvent::NewListenAddr { address } => (
            proxy,
            Some(address.push("/p2p/"@ + proxy.local_peer_id)),
        ),
        NetworkEvent::ConnectionClosed { peer_id } => (
            PProxyView {
                inbound_tunnels: crate::table::without_peer(proxy.inbound_tunnels, peer_id),
                ..proxy
            },
            None,
        ),
        NetworkEvent::Other => (proxy, None),
    }
}

/// What the proxy waits for. `Incoming` and `Command` hold `None` when nothing more can come.
#[derive(Debug)]
pub enum RunEvent<S> {
    /// Something happened on the network.
    Network(NetworkEvent),
    /// A peer has opened a stream.
    Incoming(Option<(PeerId, S)>),
    /// A command has arrived.
    Command(Option<PProxyCommand>),
}

/// What is to be done about what the proxy waited for.
#[derive(Debug)]
#[allow(inconsistent_fields)]
pub enum RunAction<S, L, A> {
    /// Wait again.
    Wait,
    /// Announce an address of this node, and wait again.
    Announce { address: Multiaddress },
    /// Go on with the stream of the peer.
    Incoming { peer_id: PeerId, action: IncomingAction<S, L, A> },
    /// Go on with the command.
    Command { action: CommandAction<S> },
    /// Stop.
    Stop,
}

impl<A, H> PProxyView<A, H> {
    /// Whether every inbound tunnel is kept under its own peer and id, with the task that serves
    /// it.
    pub open spec fn is_consistent(self) -> bool {
        forall|key: (Seq<char>, u64)| #[trigger]
            self.inbound_tunnels.contains_key(key) ==> {
                &&& self.inbound_tunnels[key].peer_id == key.0
                &&& self.inbound_tunnels[key].tunnel_id@ == key.1
                &&& self.inbound_tunnels[key].listener is Some
            }
    }
}

impl<A: Copy, H> PProxy<A, H> {
    /// A proxy that knows no peers and has no tunnels, and a handle to it, once the swarm of the
    /// node was created. `access_control` says whether an access server decides which peers may
    /// open tunnels; `T` is the type of the handles of the tasks of tunnel servers.
    pub fn new<T>(
        local_peer_id: PeerId,
        swarm: Result<(), String>,
        proxy_addr: Option<A>,
        access_control: bool,
    ) -> (created: Result<(PProxy<A, H>, PProxyHandle<T>), Error>)
        ensures
            match (swarm, created) {
                (Ok(()), Ok((proxy, handle))) => {
                    &&& proxy@ == (PProxyView {
                        local_peer_id: local_peer_id@,
                        known_peers: Map::<Seq<char>, Seq<Seq<char>>>::empty(),
                        inbound_tunnels: Map::<(Seq<char>, u64), TunnelView<H>>::empty(),
                        proxy_addr,
                        access_control,
                    })
                    &&& proxy@.is_consistent()
                    &&& handle@ == (PProxyHandleView {
                        next_tunnel_id: 0,
                        tunnel_servers: Map::<Seq<char>, TunnelServerView<T>>::empty(),
                    })
                },
                (Err(text), Err(error)) => error@ == Error::Libp2pSwarmCreateError(text@),
                _ => false,
            },
    {
        if let Err(text) = swarm {
            return Err(Error::Libp2pSwarmCreateError(text));
        }
        let proxy = PProxy {
            local_peer_id,
            known_peers: Table::new(),
            inbound_tunnels: Table::new(),
            proxy_addr,
            access_control,
        };
        Ok((proxy, PProxyHandle::new()))
    }

    /// The peer id of the node.
    pub fn local_peer_id(&self) -> (peer_id: &PeerId)
        ensures
            peer_id@ == self@.local_peer_id,
    {
        &self.local_peer_id
    }

    /// What comes of what the proxy waited for. It stops when no more streams or no more commands
    /// can come, and only then.
    pub fn run<S, L>(&mut self, event: RunEvent<S>) -> (action: RunAction<S, L, A>)
        ensures
            match event {
                RunEvent::Network(event) => {
                    let (after, announced) = network_step(old(self)@, event@);
                    &&& final(self)@ == after
                    &&& match announced {
                        Some(text) => action matches RunAction::Announce { address } && address@
                            == text,
                        None => action is Wait,
                    }
                },
                RunEvent::Incoming(Some((peer_id, stream))) => {
                    &&& action matches RunAction::Incoming { peer_id: opener, action: first }
                    &&& opener == peer_id
                    &&& (final(self)@, first@) == incoming::incoming_step(
                        old(self)@,
                        peer_id@,
                        IncomingEvent::<S, L, A, H, Seq<char>>::Arrived { stream },
                    )
                },
                RunEvent::Command(Some(command)) => {
                    &&& action matches RunAction::Command { action: first }
                    &&& (final(self)@, first@) == commands::command_step::<S, A, H>(
                        old(self)@,
                        CommandEvent::Received(command@),
                    )
                },
                RunEvent::Incoming(None) => final(self)@ == old(self)@ && action is Stop,
                RunEvent::Command(None) => final(self)@ == old(self)@ && action is Stop,
            },
    {
        match event {
            RunEvent::Network(event) => match self.handle_p2p_server_event(event) {
                Some(address) => RunAction::Announce { address },
                None => RunAction::Wait,
            },
            RunEvent::Incoming(None) => RunAction::Stop,
            RunEvent::Incoming(Some((peer_id, stream))) => {
                let arrived = IncomingEvent::Arrived { stream };
                let action = self.handle_incoming_stream(&peer_id, arrived);
                RunAction::Incoming { peer_id, action }
            },
            RunEvent::Command(None) => RunAction::Stop,
            RunEvent::Command(Some(command)) => {
                let action = self.handle_command(CommandEvent::Received(command));
                RunAction::Command { action }
            },
        }
    }

    /// What the network tells the proxy. The result is an address of this node to announce.
    pub fn handle_p2p_server_event(&mut self, event: NetworkEvent) -> (announced: Option<
        Multiaddress,
    >)
        ensures
            (final(self)@, crate::multiaddr::optional_view(announced)) == network_step(
                old(self)@,
                event@,
            ),
    {
        match event {
            NetworkEvent::NewListenAddr { address } => Some(address.with_p2p(&self.local_peer_id)),
            NetworkEvent::ConnectionClosed { peer_id } => {
                self.inbound_tunnels.remove_peer(&peer_id);
                None
            },
            NetworkEvent::Other => None,
        }
    }

    /// Whether a peer may open a tunnel, given what the access server says. Without an access
    /// server every peer may.
    pub fn is_tunnel_valid(&self, access_granted: bool) -> (valid: bool)
        ensures
            valid == (!self@.access_control || access_granted),
    {
        if !self.access_control {
            return true;
        }
        access_granted
    }

    /// Handles a stream that a peer has opened, step by step.
    pub fn handle_incoming_stream<S, L>(
        &mut self,
        peer_id: &PeerId,
        event: IncomingEvent<S, L, A, H>,
    ) -> (action: IncomingAction<S, L, A>)
        ensures
            (final(self)@, action@) == incoming::incoming_step(old(self)@, peer_id@, event@),
    {
        match event {
            IncomingEvent::Arrived { stream } => match self.proxy_addr {
                Some(proxy_addr) => IncomingAction::ReadHeader { stream, proxy_addr },
                None => IncomingAction::Close {
                    stream,
                    error: Error::ProtocolNotSupport("No proxy_addr".to_owned()),
                },
            },
            IncomingEvent::HeaderRead { stream, proxy_addr, outcome } => {
                match TunnelRequestHeader::read_from(outcome) {
                    Err(error) => IncomingAction::Close { stream, error: Error::from(error) },
                    Ok(header) => match header.command {
                        TunnelCommand::UdpConnect => {
                            let code = header.command.as_u8();
                            let error = TunnelProtocolError::UnsupportedCommand(code);
                            IncomingAction::Close { stream, error: Error::from(error) }
                        },
                        TunnelCommand::TcpConnect => {
                            if self.access_control {
                                IncomingAction::CheckAccess {
                                    peer_id: peer_id.clone(),
                                    stream,
                                    proxy_addr,
                                    tunnel_id: header.id,
                                }
                            } else {
                                IncomingAction::Connect {
                                    stream,
                                    proxy_addr,
                                    tunnel_id: header.id,
                                    timeout: LOCAL_TCP_TIMEOUT,
                                }
                            }
                        },
                    },
                }
            },
            IncomingEvent::AccessChecked { stream, proxy_addr, tunnel_id, valid } => {
                if !self.is_tunnel_valid(valid) {
                    return IncomingAction::Close {
                        stream,
                        error: Error::AccessDenied(peer_id.to_string()),
                    };
                }
                IncomingAction::Connect {
                    stream,
                    proxy_addr,
                    tunnel_id,
                    timeout: LOCAL_TCP_TIMEOUT,
                }
            },
            IncomingEvent::Connected { stream, tunnel_id, outcome } => match outcome {
                Err(error) => IncomingAction::Done(Err(Error::from(error))),
                Ok(local_stream) => IncomingAction::WriteReply {
                    stream,
                    local_stream,
                    header: TcpResponseHeader::new(TunnelReply::Succeeded, tunnel_id),
                },
            },
            IncomingEvent::ReplyWritten { stream, local_stream, tunnel_id, outcome } => {
                match outcome {
                    Err(kind) => IncomingAction::Done(Err(Error::Io(kind))),
                    Ok(()) => IncomingAction::Spawn {
                        tunnel_id,
                        local_stream,
                        remote_stream: stream,
                    },
                }
            },
            IncomingEvent::Spawned { tunnel_id, listener } => {
                let mut tunnel = Tunnel::new(peer_id.clone(), tunnel_id);
                match tunnel.listen(listener) {
                    Err(error) => IncomingAction::Done(Err(Error::from(error))),
                    Ok(()) => {
                        self.inbound_tunnels.insert((peer_id.clone(), tunnel_id), tunnel);
                        IncomingAction::Done(Ok(()))
                    },
                }
            },
            IncomingEvent::Closed { error, outcome } => match outcome {
                Err(kind) => IncomingAction::Done(Err(Error::Io(kind))),
                Ok(()) => IncomingAction::Done(Err(error)),
            },
        }
    }

    /// Adds a peer, step by step: its address is remembered once it could be dialed.
    pub fn on_add_peer<S>(&mut self, event: AddPeerEvent) -> (action: CommandAction<S>)
        ensures
            (final(self)@, action@) == commands::add_peer_step::<S, A, H>(old(self)@, event@),
    {
        match event {
            AddPeerEvent::Requested { multiaddr, peer_id } => CommandAction::DialPeer {
                multiaddr,
                peer_id,
            },
            AddPeerEvent::Dialed { multiaddr, peer_id, outcome } => match outcome {
                Err(error) => CommandAction::Done(Err(Error::Libp2pDialError(error))),
                Ok(()) => {
                    self.known_peers.insert(peer_id.clone(), multiaddr);
                    CommandAction::Answer(Ok(PProxyCommandResponse::AddPeer { peer_id }))
                },
            },
        }
    }

    /// Connects a relay, step by step: the node listens on its own address behind the relay.
    pub fn on_connect_relay<S>(&self, event: ConnectRelayEvent) -> (action: CommandAction<S>)
        ensures
            action@ == commands::connect_relay_action::<S>(self@.local_peer_id, event@),
    {
        match event {
            ConnectRelayEvent::Requested { multiaddr } => {
                let relaied_multiaddr = multiaddr.with_p2p_circuit().with_p2p(&self.local_peer_id);
                CommandAction::ListenOn { relaied_multiaddr }
            },
            ConnectRelayEvent::Listened { relaied_multiaddr, outcome } => match outcome {
                Err(error) => CommandAction::Done(Err(Error::Libp2pTransportError(error))),
                Ok(()) => CommandAction::Answer(
                    Ok(PProxyCommandResponse::ConnectRelay { relaied_multiaddr }),
                ),
            },
        }
    }

    /// Connects a tunnel, step by step: the answer is a stream on which the peer has accepted the
    /// tunnel. That the peer could not be dialed decides nothing, for a connection to it may be
    /// there already.
    pub fn on_connect_tunnel<S>(&self, event: ConnectTunnelEvent<S>) -> (action: CommandAction<S>)
        ensures
            action@ == commands::connect_tunnel_action(self@.known_peers, event@),
    {
        match event {
            ConnectTunnelEvent::Requested { peer_id, tunnel_id } => {
                match self.known_peers.get(&peer_id) {
                    None => CommandAction::Done(Err(Error::UnknownPeer(peer_id.to_string()))),
                    Some(multiaddr) => CommandAction::DialKnownPeer {
                        multiaddr: multiaddr.clone(),
                        peer_id,
                        tunnel_id,
                    },
                }
            },
            ConnectTunnelEvent::Dialed { peer_id, tunnel_id, outcome: _ } => {
                CommandAction::OpenStream { peer_id, tunnel_id }
            },
            ConnectTunnelEvent::StreamOpened { tunnel_id, outcome } => match outcome {
                Err(error) => CommandAction::Done(Err(Error::Libp2pOpenStreamError(error))),
                Ok(remote_stream) => CommandAction::WriteRequest {
                    remote_stream,
                    header: TunnelRequestHeader::new(TunnelCommand::TcpConnect, tunnel_id),
                },
            },
            ConnectTunnelEvent::RequestWritten { remote_stream, outcome } => match outcome {
                Err(kind) => CommandAction::Done(Err(Error::Io(kind))),
                Ok(()) => CommandAction::ReadResponse { remote_stream },
            },
            ConnectTunnelEvent::ResponseRead { remote_stream, outcome } => {
                match TcpResponseHeader::read_from(outcome) {
                    Err(error) => CommandAction::Done(Err(Error::from(error))),
                    Ok(header) => match header.reply {
                        TunnelReply::Succeeded => CommandAction::Answer(
                            Ok(PProxyCommandResponse::ConnectTunnel { remote_stream }),
                        ),
                        reply => CommandAction::CloseStream { remote_stream, reply },
                    },
                }
            },
            ConnectTunnelEvent::StreamClosed { reply, outcome } => match outcome {
                Err(kind) => CommandAction::Done(Err(Error::Io(kind))),
                Ok(()) => CommandAction::Answer(
                    Err(Error::TunnelProtocolError(TunnelProtocolError::TunnelReply(reply))),
                ),
            },
        }
    }

    /// Takes a tunnel out of the proxy.
    pub fn on_clean_tunnel<S>(&mut self, peer_id: PeerId, tunnel_id: TunnelId) -> (action:
        CommandAction<S>)
        ensures
            final(self)@ == (PProxyView {
                inbound_tunnels: old(self)@.inbound_tunnels.remove((peer_id@, tunnel_id@)),
                ..old(self)@
            }),
            action == CommandAction::<S>::Answer(Ok(PProxyCommandResponse::CleanTunnel {  })),
    {
        self.inbound_tunnels.remove(&(peer_id, tunnel_id));
        CommandAction::Answer(Ok(PProxyCommandResponse::CleanTunnel {  }))
    }

    /// Lets the access of a peer expire, where an access server grants it.
    pub fn on_expire_peer_access<S>(&self, peer_id: PeerId) -> (action: CommandAction<S>)
        ensures
            self@.access_control ==> action == (CommandAction::<S>::ExpireAccess { peer_id }),
            !self@.access_control ==> action == CommandAction::<S>::Answer(
                Ok(PProxyCommandResponse::ExpirePeerAccess {  }),
            ),
    {
        if self.access_control {
            return CommandAction::ExpireAccess { peer_id };
        }
        CommandAction::Answer(Ok(PProxyCommandResponse::ExpirePeerAccess {  }))
    }

    /// Carries out a command, step by step.
    pub fn handle_command<S>(&mut self, event: CommandEvent<S>) -> (action: CommandAction<S>)
        ensures
            (final(self)@, action@) == commands::command_step(old(self)@, event@),
    {
        match event {
            CommandEvent::Received(command) => match command {
                PProxyCommand::AddPeer { multiaddr, peer_id } => {
                    self.on_add_peer(AddPeerEvent::Requested { multiaddr, peer_id })
                },
                PProxyCommand::ConnectRelay { multiaddr } => {
                    self.on_connect_relay(ConnectRelayEvent::Requested { multiaddr })
                },
                PProxyCommand::ConnectTunnel { peer_id, tunnel_id } => {
                    self.on_connect_tunnel(ConnectTunnelEvent::Requested { peer_id, tunnel_id })
                },
                PProxyCommand::CleanTunnel { peer_id, tunnel_id } => {
                    self.on_clean_tunnel(peer_id, tunnel_id)
                },
                PProxyCommand::ExpirePeerAccess { peer_id } => self.on_expire_peer_access(peer_id),
            },
            CommandEvent::AddPeer(event) => self.on_add_peer(event),
            CommandEvent::ConnectRelay(event) => self.on_connect_relay(event),
            CommandEvent::ConnectTunnel(event) => self.on_connect_tunnel(event),
            CommandEvent::AccessExpired => CommandAction::Answer(
                Ok(PProxyCommandResponse::ExpirePeerAccess {  }),
            ),
            CommandEvent::Answered { delivered } => {
                if delivered {
                    CommandAction::Done(Ok(()))
                } else {
                    CommandAction::Done(Err(Error::EssentialTaskClosed))
                }
            },
        }
    }
}

/// No step makes a proxy inconsistent, whatever happens on the network, to the streams of peers or
/// to commands.
pub proof fn law_proxy_stays_consistent<S, L, A, H>(
    proxy: PProxyView<A, H>,
    peer_id: Seq<char>,
    incoming: IncomingEvent<S, L, A, H, Seq<char>>,
    command: commands::CommandEventView<S>,
    network: NetworkEvent<Seq<char>, Seq<Seq<char>>>,
)
    requires
        proxy.is_consistent(),
    ensures
        incoming::incoming_step(proxy, peer_id, incoming).0.is_consistent(),
        commands::command_step(proxy, command).0.is_consistent(),
        network_step(proxy, network).0.is_consistent(),
{
}

/// No step changes who the node is, where tunnels of peers lead to, or whether access is
/// controlled. Streams of peers and the network change nothing about the known peers.
pub proof fn law_settings_are_kept<S, L, A, H>(
    proxy: PProxyView<A, H>,
    peer_id: Seq<char>,
    incoming: IncomingEvent<S, L, A, H, Seq<char>>,
    command: commands::CommandEventView<S>,
    network: NetworkEvent<Seq<char>, Seq<Seq<char>>>,
)
    ensures
        ({
            let after = incoming::incoming_step(proxy, peer_id, incoming).0;
            &&& after.local_peer_id == proxy.local_peer_id
            &&& after.proxy_addr == proxy.proxy_addr
            &&& after.access_control == proxy.access_control
            &&& after.known_peers == proxy.known_peers
        }),
        ({
            let after = commands::command_step(proxy, command).0;
            &&& after.local_peer_id == proxy.local_peer_id
            &&& after.proxy_addr == proxy.proxy_addr
            &&& after.access_control == proxy.access_control
        }),
        ({
            let after = network_step(proxy, network).0;
            &&& after.local_peer_id == proxy.local_peer_id
            &&& after.proxy_addr == proxy.proxy_addr
            &&& after.access_control == proxy.access_control
            &&& after.known_peers == proxy.known_peers
        }),
{
}

/// When a connection to a peer is closed, all tunnels of that peer go and no others.
pub proof fn law_connection_closed<A, H>(proxy: PProxyView<A, H>, peer_id: Seq<char>)
    ensures
        ({
            let tunnels = proxy.inbound_tunnels;
            let after = network_step(proxy, NetworkEvent::ConnectionClosed { peer_id }).0;
            let left = after.inbound_tunnels;
            &&& after == PProxyView { inbound_tunnels: left, ..proxy }
            &&& forall|key: (Seq<char>, u64)| #![trigger left.contains_key(key)]
                {
                    &&& left.contains_key(key) <==> tunnels.contains_key(key) && key.0 != peer_id
                    &&& left.contains_key(key) ==> left[key] == tunnels[key]
                }
        }),
{
}

/// The two ends of a tunnel agree. When one proxy connects a tunnel to the other, and the bytes of
/// its request and of the reply to it arrive, a proxy that does not refuse the stream and reaches
/// its local server serves a tunnel for the peer that asked, under the id that was asked for, and
/// the one who asked is answered with the stream that was opened.
pub proof fn law_both_ends_agree<S, L, A, H>(
    client: PProxyView<A, H>,
    client_id: Seq<char>,
    client_stream: S,
    client_outcomes: commands::CommandOutcomes<S>,
    server: PProxyView<A, H>,
    server_id: Seq<char>,
    server_stream: S,
    server_outcomes: incoming::IncomingOutcomes<L, H>,
    tunnel_id: TunnelId,
    request: [u8; 10],
    response: [u8; 10],
)
    requires
        client.known_peers.contains_key(server_id),
        client_outcomes.opened == Ok::<S, Seq<char>>(client_stream),
        client_outcomes.written is Ok,
        client_outcomes.response == Ok::<_, std::io::ErrorKind>(response),
        server.proxy_addr is Some,
        server.access_control ==> server_outcomes.valid,
        server_outcomes.header == Ok::<_, std::io::ErrorKind>(request),
        server_outcomes.connected is Ok,
        server_outcomes.replied is Ok,
        request@ == (TunnelRequestHeader {
            command: TunnelCommand::TcpConnect,
            id: tunnel_id,
        }).encoded(),
        response@ == (TcpResponseHeader {
            reply: TunnelReply::Succeeded,
            id: tunnel_id,
        }).encoded(),
    ensures
        ({
            let asking = commands::carried_out(
                client,
                PProxyCommand::ConnectTunnel { peer_id: server_id, tunnel_id },
                client_outcomes,
            ).1;
            let (served, serving) = incoming::incoming_run(
                server,
                client_id,
                IncomingEvent::<S, L, A, H, Seq<char>>::Arrived { stream: server_stream },
                server_outcomes,
                incoming::incoming_steps(),
            );
            let local_stream = server_outcomes.connected->Ok_0;
            &&& asking.contains(
                CommandAction::WriteRequest {
                    remote_stream: client_stream,
                    header: TunnelRequestHeader {
                        command: TunnelCommand::TcpConnect,
                        id: tunnel_id,
                    },
                },
            )
            &&& serving.contains(
                IncomingAction::WriteReply {
                    stream: server_stream,
                    local_stream,
                    header: TcpResponseHeader { reply: TunnelReply::Succeeded, id: tunnel_id },
                },
            )
            &&& serving.contains(
                IncomingAction::Spawn { tunnel_id, local_stream, remote_stream: server_stream },
            )
            &&& served.inbound_tunnels == server.inbound_tunnels.insert(
                (client_id, tunnel_id@),
                TunnelView {
                    peer_id: client_id,
                    tunnel_id,
                    listener: Some(server_outcomes.listener),
                },
            )
            &&& asking.contains(
                CommandAction::Answer(
                    Ok(PProxyCommandResponse::ConnectTunnel { remote_stream: client_stream }),
                ),
            )
        }),
{
    let header = TunnelRequestHeader { command: TunnelCommand::TcpConnect, id: tunnel_id };
    let reply = TcpResponseHeader { reply: TunnelReply::Succeeded, id: tunnel_id };
    crate::tunnel::protocol::law_request_read_of_written(header, request);
    crate::tunnel::protocol::law_response_read_of_written(reply, response);
    commands::law_connect_tunnel(client, server_id, tunnel_id, client_outcomes);
    incoming::law_accepted_stream(server, client_id, server_stream, server_outcomes);
    incoming::law_incoming_stream(server, client_id, server_stream, server_outcomes);
    let asking = commands::carried_out(
        client,
        PProxyCommand::ConnectTunnel { peer_id: server_id, tunnel_id },
        client_outcomes,
    ).1;
    let serving = incoming::incoming_run(
        server,
        client_id,
        IncomingEvent::<S, L, A, H, Seq<char>>::Arrived { stream: server_stream },
        server_outcomes,
        incoming::incoming_steps(),
    ).1;
    assert(asking[2] is WriteRequest);
    assert(asking[4] is Answer);
    let end = serving.len() as int;
    assert(serving[end - 3] is WriteReply);
    assert(serving[end - 2] is Spawn);
}

/// A tunnel that was served and has come to its end is forgotten: carrying out the command that
/// the end of its task gives takes it out again, so that a proxy which had no tunnel of that peer
/// and id before has the same tunnels as before.
pub proof fn law_ended_tunnel_is_forgotten<S, L, A, H>(
    proxy: PProxyView<A, H>,
    peer_id: Seq<char>,
    stream: S,
    incoming_outcomes: incoming::IncomingOutcomes<L, H>,
    copied: Result<(u64, u64), std::io::ErrorKind>,
    outcomes: commands::CommandOutcomes<S>,
)
    requires
        incoming::incoming_result(proxy, peer_id, incoming_outcomes) is Ok,
    ensures
        ({
            let tunnel_id = TunnelRequestHeader::decoded(incoming_outcomes.header)->Ok_0.id;
            let served = incoming::incoming_run(
                proxy,
                peer_id,
                IncomingEvent::<S, L, A, H, Seq<char>>::Arrived { stream },
                incoming_outcomes,
                incoming::incoming_steps(),
            ).0;
            let ended = crate::tunnel::tunnel_action(
                peer_id,
                tunnel_id,
                TunnelEvent::<S>::Copied(copied),
            );
            let after = commands::carried_out(served, ended->command, outcomes).0;
            &&& ended is SendClean
            &&& after.inbound_tunnels == proxy.inbound_tunnels.remove((peer_id, tunnel_id@))
            &&& !proxy.inbound_tunnels.contains_key((peer_id, tunnel_id@)) ==> after == proxy
        }),
{
    incoming::law_incoming_stream(proxy, peer_id, stream, incoming_outcomes);
    reveal_with_fuel(commands::command_run, 2);
    let tunnel_id = TunnelRequestHeader::decoded(incoming_outcomes.header)->Ok_0.id;
    let key = (peer_id, tunnel_id@);
    assert(proxy.inbound_tunnels.remove(key) =~= if proxy.inbound_tunnels.contains_key(key) {
        proxy.inbound_tunnels.remove(key)
    } else {
        proxy.inbound_tunnels
    });
}

/// An address that the node listens on is announced with exactly one component more, the peer id of
/// the node, and nothing about the proxy changes. Nothing else is announced.
pub proof fn law_announced_address<A, H>(
    proxy: PProxyView<A, H>,
    event: NetworkEvent<Seq<char>, Seq<Seq<char>>>,
)
    ensures
        ({
            let (after, announced) = network_step(proxy, event);
            &&& announced is Some <==> event is NewListenAddr
            &&& announced matches Some(text) ==> event matches NetworkEvent::NewListenAddr {
                address,
            } ==> {
                &&& text.len() == address.len() + 1
                &&& forall|i: int| 0 <= i < address.len() ==> #[trigger] text[i] == address[i]
                &&& text.last() == "/p2p/"@ + proxy.local_peer_id
            }
            &&& !(event is ConnectionClosed) ==> after == proxy
        }),
{
}

/// The view of what happens on the network is the same, with the views of its parts.
pub proof fn law_network_event_view(event: NetworkEvent)
    ensures
        event matches NetworkEvent::NewListenAddr { address } ==> event@ == (NetworkEvent::<
            Seq<char>,
            Seq<Seq<char>>,
        >::NewListenAddr { address: address@ }),
        event matches NetworkEvent::ConnectionClosed { peer_id } ==> event@ == (NetworkEvent::<
            Seq<char>,
            Seq<Seq<char>>,
        >::ConnectionClosed { peer_id: peer_id@ }),
        event is Other ==> event@ is Other,
{
}

} // verus!

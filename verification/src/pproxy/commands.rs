//! Commands that the proxy carries out.
use std::io::ErrorKind as IOErrorKind;

use vstd::prelude::*;

use crate::command::CommandView;
use crate::command::PProxyCommand;
use crate::command::PProxyCommandResponse;
use crate::command::ResponseView;
use crate::error::Error;
use crate::error::TunnelProtocolError;
use crate::multiaddr::Multiaddress;
use crate::peer_id::PeerId;
use crate::pproxy::PProxyView;
use crate::tunnel::protocol::TcpResponseHeader;
use crate::tunnel::protocol::TunnelRequestHeader;
use crate::types::TunnelCommand;
use crate::types::TunnelId;
use crate::types::TunnelReply;

verus! {

/// What happens while a peer is added.
#[derive(Debug)]
pub enum AddPeerEvent<Peer = PeerId, Addr = Multiaddress, Text = String> {
    /// The peer is to be added.
    Requested { multiaddr: Addr, peer_id: Peer },
    /// The address was dialed, or could not be.
    Dialed { multiaddr: Addr, peer_id: Peer, outcome: Result<(), Text> },
}

/// What happens while a relay is connected.
#[derive(Debug)]
pub enum ConnectRelayEvent<Addr = Multiaddress, Text = String> {
    /// The relay at the address is to be connected.
    Requested { multiaddr: Addr },
    /// The node listens on the address, or could not.
    Listened { relaied_multiaddr: Addr, outcome: Result<(), Text> },
}

/// What happens while a tunnel is connected.
#[derive(Debug)]
#[allow(inconsistent_fields)]
pub enum ConnectTunnelEvent<S, Peer = PeerId, Text = String> {
    /// The tunnel to the peer is to be connected.
    Requested { peer_id: Peer, tunnel_id: TunnelId },
    /// The address of the peer was dialed, or could not be.
    Dialed { peer_id: Peer, tunnel_id: TunnelId, outcome: Result<(), Text> },
    /// A stream to the peer was opened, or could not be.
    StreamOpened { tunnel_id: TunnelId, outcome: Result<S, Text> },
    /// The request was written to the stream, or could not be.
    RequestWritten { remote_stream: S, outcome: Result<(), IOErrorKind> },
    /// The bytes of a header were read from the stream, or could not be.
    ResponseRead { remote_stream: S, outcome: Result<[u8; 10], IOErrorKind> },
    /// The stream was closed on account of the reply, or could not be.
    StreamClosed { reply: TunnelReply, outcome: Result<(), IOErrorKind> },
}

/// What happens while a command is carried out.
#[derive(Debug)]
pub enum CommandEvent<S, Peer = PeerId, Addr = Multiaddress, Text = String> {
    /// The command has arrived.
    Received(PProxyCommand<Peer, Addr>),
    AddPeer(AddPeerEvent<Peer, Addr, Text>),
    ConnectRelay(ConnectRelayEvent<Addr, Text>),
    ConnectTunnel(ConnectTunnelEvent<S, Peer, Text>),
    /// The access of the peer is forgotten.
    AccessExpired,
    /// The answer was sent; it is delivered unless the one who asked is gone.
    Answered { delivered: bool },
}

/// What is to be done while a command is carried out.
#[derive(Debug)]
pub enum CommandAction<S, Peer = PeerId, Addr = Multiaddress, Text = String> {
    /// Dial the address of a peer that is added.
    DialPeer { multiaddr: Addr, peer_id: Peer },
    /// Listen on the address.
    ListenOn { relaied_multiaddr: Addr },
    /// Dial the address of a peer that a tunnel is connected to.
    DialKnownPeer { multiaddr: Addr, peer_id: Peer, tunnel_id: TunnelId },
    /// Open a stream to the peer.
    OpenStream { peer_id: Peer, tunnel_id: TunnelId },
    /// Write the header to the stream.
    WriteRequest { remote_stream: S, header: TunnelRequestHeader },
    /// Read the bytes of a header from the stream.
    ReadResponse { remote_stream: S },
    /// Close the stream on account of the reply.
    CloseStream { remote_stream: S, reply: TunnelReply },
    /// Forget that the peer has access.
    ExpireAccess { peer_id: Peer },
    /// Send the answer to the one who gave the command.
    Answer(Result<PProxyCommandResponse<S, Peer, Addr>, Error<Text>>),
    /// Nothing more.
    Done(Result<(), Error<Text>>),
}

/// The view of an event.
pub type CommandEventView<S> = CommandEvent<S, Seq<char>, Seq<Seq<char>>, Seq<char>>;

/// The view of an action.
pub type CommandActionView<S> = CommandAction<S, Seq<char>, Seq<Seq<char>>, Seq<char>>;

/// The view of a result whose error is a text.
pub open spec fn text_outcome<T>(outcome: Result<T, String>) -> Result<T, Seq<char>> {
    match outcome {
        Ok(value) => Ok(value),
        Err(text) => Err(text@),
    }
}

impl View for AddPeerEvent {
    type V = AddPeerEvent<Seq<char>, Seq<Seq<char>>, Seq<char>>;

    open spec fn view(&self) -> AddPeerEvent<Seq<char>, Seq<Seq<char>>, Seq<char>> {
        match *self {
            AddPeerEvent::Requested { multiaddr, peer_id } => AddPeerEvent::Requested {
                multiaddr: multiaddr@,
                peer_id: peer_id@,
            },
            AddPeerEvent::Dialed { multiaddr, peer_id, outcome } => AddPeerEvent::Dialed {
                multiaddr: multiaddr@,
                peer_id: peer_id@,
                outcome: text_outcome(outcome),
            },
        }
    }
}

impl View for ConnectRelayEvent {
    type V = ConnectRelayEvent<Seq<Seq<char>>, Seq<char>>;

    open spec fn view(&self) -> ConnectRelayEvent<Seq<Seq<char>>, Seq<char>> {
        match *self {
            ConnectRelayEvent::Requested { multiaddr } => ConnectRelayEvent::Requested {
                multiaddr: multiaddr@,
            },
            ConnectRelayEvent::Listened { relaied_multiaddr, outcome } =>
                ConnectRelayEvent::Listened {
                relaied_multiaddr: relaied_multiaddr@,
                outcome: text_outcome(outcome),
            },
        }
    }
}

impl<S> View for ConnectTunnelEvent<S> {
    type V = ConnectTunnelEvent<S, Seq<char>, Seq<char>>;

    open spec fn view(&self) -> ConnectTunnelEvent<S, Seq<char>, Seq<char>> {
        match *self {
            ConnectTunnelEvent::Requested { peer_id, tunnel_id } =>
                ConnectTunnelEvent::Requested { peer_id: peer_id@, tunnel_id },
            ConnectTunnelEvent::Dialed { peer_id, tunnel_id, outcome } =>
                ConnectTunnelEvent::Dialed {
                peer_id: peer_id@,
                tunnel_id,
                outcome: text_outcome(outcome),
            },
            ConnectTunnelEvent::StreamOpened { tunnel_id, outcome } =>
                ConnectTunnelEvent::StreamOpened { tunnel_id, outcome: text_outcome(outcome) },
            ConnectTunnelEvent::RequestWritten { remote_stream, outcome } =>
                ConnectTunnelEvent::RequestWritten { remote_stream, outcome },
            ConnectTunnelEvent::ResponseRead { remote_stream, outcome } =>
                ConnectTunnelEvent::ResponseRead { remote_stream, outcome },
            ConnectTunnelEvent::StreamClosed { reply, outcome } =>
                ConnectTunnelEvent::StreamClosed { reply, outcome },
        }
    }
}

impl<S> View for CommandEvent<S> {
    type V = CommandEventView<S>;

    open spec fn view(&self) -> CommandEventView<S> {
        match *self {
            CommandEvent::Received(command) => CommandEvent::Received(command@),
            CommandEvent::AddPeer(event) => CommandEvent::AddPeer(event@),
            CommandEvent::ConnectRelay(event) => CommandEvent::ConnectRelay(event@),
            CommandEvent::ConnectTunnel(event) => CommandEvent::ConnectTunnel(event@),
            CommandEvent::AccessExpired => CommandEvent::AccessExpired,
            CommandEvent::Answered { delivered } => CommandEvent::Answered { delivered },
        }
    }
}

impl<S> View for CommandAction<S> {
    type V = CommandActionView<S>;

    open spec fn view(&self) -> CommandActionView<S> {
        match *self {
            CommandAction::DialPeer { multiaddr, peer_id } => CommandAction::DialPeer {
                multiaddr: multiaddr@,
                peer_id: peer_id@,
            },
            CommandAction::ListenOn { relaied_multiaddr } => CommandAction::ListenOn {
                relaied_multiaddr: relaied_multiaddr@,
            },
            CommandAction::DialKnownPeer { multiaddr, peer_id, tunnel_id } =>
                CommandAction::DialKnownPeer {
                multiaddr: multiaddr@,
                peer_id: peer_id@,
                tunnel_id,
            },
            CommandAction::OpenStream { peer_id, tunnel_id } => CommandAction::OpenStream {
                peer_id: peer_id@,
                tunnel_id,
            },
            CommandAction::WriteRequest { remote_stream, header } =>
                CommandAction::WriteRequest { remote_stream, header },
            CommandAction::ReadResponse { remote_stream } => CommandAction::ReadResponse {
                remote_stream,
            },
            CommandAction::CloseStream { remote_stream, reply } => CommandAction::CloseStream {
                remote_stream,
                reply,
            },
            CommandAction::ExpireAccess { peer_id } => CommandAction::ExpireAccess {
                peer_id: peer_id@,
            },
            CommandAction::Answer(answer) => CommandAction::Answer(
                crate::command::answer_view(answer),
            ),
            CommandAction::Done(outcome) => CommandAction::Done(
                crate::command::outcome_view(outcome),
            ),
        }
    }
}

/// The step of a proxy that adds a peer.
pub open spec fn add_peer_step<S, A, H>(
    proxy: PProxyView<A, H>,
    event: AddPeerEvent<Seq<char>, Seq<Seq<char>>, Seq<char>>,
) -> (PProxyView<A, H>, CommandActionView<S>) {
    match event {
        AddPeerEvent::Requested { multiaddr, peer_id } => (
            proxy,
            CommandAction::DialPeer { multiaddr, peer_id },
        ),
        AddPeerEvent::Dialed { multiaddr, peer_id, outcome: Err(error) } => (
            proxy,
            CommandAction::Done(Err(Error::Libp2pDialError(error))),
        ),
        AddPeerEvent::Dialed { multiaddr, peer_id, outcome: Ok(()) } => (
            PProxyView { known_peers: proxy.known_peers.insert(peer_id, multiaddr), ..proxy },
            CommandAction::Answer(Ok(PProxyCommandResponse::AddPeer { peer_id })),
        ),
    }
}

/// The action of a proxy that connects a relay.
pub open spec fn connect_relay_action<S>(
    local_peer_id: Seq<char>,
    event: ConnectRelayEvent<Seq<Seq<char>>, Seq<char>>,
) -> CommandActionView<S> {
    match event {
        ConnectRelayEvent::Requested { multiaddr } => CommandAction::ListenOn {
            relaied_multiaddr: crate::multiaddr::relayed(multiaddr, local_peer_id),
        },
        ConnectRelayEvent::Listened { relaied_multiaddr, outcome: Err(error) } =>
            CommandAction::Done(Err(Error::Libp2pTransportError(error))),
        ConnectRelayEvent::Listened { relaied_multiaddr, outcome: Ok(()) } =>
            CommandAction::Answer(Ok(PProxyCommandResponse::ConnectRelay { relaied_multiaddr })),
    }
}

/// The action of a proxy that connects a tunnel.
pub open spec fn connect_tunnel_action<S>(
    known_peers: Map<Seq<char>, Seq<Seq<char>>>,
    event: ConnectTunnelEvent<S, Seq<char>, Seq<char>>,
) -> CommandActionView<S> {
    match event {
        ConnectTunnelEvent::Requested { peer_id, tunnel_id } => if known_peers.contains_key(
            peer_id,
        ) {
            CommandAction::DialKnownPeer { multiaddr: known_peers[peer_id], peer_id, tunnel_id }
        } else {
            CommandAction::Done(Err(Error::UnknownPeer(peer_id)))
        },
        ConnectTunnelEvent::Dialed { peer_id, tunnel_id, outcome } => CommandAction::OpenStream {
            peer_id,
            tunnel_id,
        },
        ConnectTunnelEvent::StreamOpened { tunnel_id, outcome: Err(error) } =>
            CommandAction::Done(Err(Error::Libp2pOpenStreamError(error))),
        ConnectTunnelEvent::StreamOpened { tunnel_id, outcome: Ok(remote_stream) } =>
            CommandAction::WriteRequest {
            remote_stream,
            header: TunnelRequestHeader { command: TunnelCommand::TcpConnect, id: tunnel_id },
        },
        ConnectTunnelEvent::RequestWritten { remote_stream, outcome: Err(kind) } =>
            CommandAction::Done(Err(Error::Io(kind))),
        ConnectTunnelEvent::RequestWritten { remote_stream, outcome: Ok(()) } =>
            CommandAction::ReadResponse { remote_stream },
        ConnectTunnelEvent::ResponseRead { remote_stream, outcome } =>
            match TcpResponseHeader::decoded(outcome) {
            Err(error) => CommandAction::Done(Err(Error::TunnelProtocolError(error))),
            Ok(header) => if header.reply is Succeeded {
                CommandAction::Answer(Ok(PProxyCommandResponse::ConnectTunnel { remote_stream }))
            } else {
                CommandAction::CloseStream { remote_stream, reply: header.reply }
            },
        },
        ConnectTunnelEvent::StreamClosed { reply, outcome: Err(kind) } =>
            CommandAction::Done(Err(Error::Io(kind))),
        ConnectTunnelEvent::StreamClosed { reply, outcome: Ok(()) } => CommandAction::Answer(
            Err(Error::TunnelProtocolError(TunnelProtocolError::TunnelReply(reply))),
        ),
    }
}

/// The step of a proxy that carries out a command.
pub open spec fn command_step<S, A, H>(
    proxy: PProxyView<A, H>,
    event: CommandEventView<S>,
) -> (PProxyView<A, H>, CommandActionView<S>) {
    match event {
        CommandEvent::Received(PProxyCommand::AddPeer { multiaddr, peer_id }) => add_peer_step(
            proxy,
            AddPeerEvent::Requested { multiaddr, peer_id },
        ),
        CommandEvent::Received(PProxyCommand::ConnectRelay { multiaddr }) => (
            proxy,
            connect_relay_action(proxy.local_peer_id, ConnectRelayEvent::Requested { multiaddr }),
        ),
        CommandEvent::Received(PProxyCommand::ConnectTunnel { peer_id, tunnel_id }) => (
            proxy,
            connect_tunnel_action(
                proxy.known_peers,
                ConnectTunnelEvent::Requested { peer_id, tunnel_id },
            ),
        ),
        CommandEvent::Received(PProxyCommand::CleanTunnel { peer_id, tunnel_id }) => (
            PProxyView {
                inbound_tunnels: proxy.inbound_tunnels.remove((peer_id, tunnel_id@)),
                ..proxy
            },
            CommandAction::Answer(Ok(PProxyCommandResponse::CleanTunnel {  })),
        ),
        CommandEvent::Received(PProxyCommand::ExpirePeerAccess { peer_id }) => (
            proxy,
            if proxy.access_control {
                CommandAction::ExpireAccess { peer_id }
            } else {
                CommandAction::Answer(Ok(PProxyCommandResponse::ExpirePeerAccess {  }))
            },
        ),
        CommandEvent::AddPeer(event) => add_peer_step(proxy, event),
        CommandEvent::ConnectRelay(event) => (
            proxy,
            connect_relay_action(proxy.local_peer_id, event),
        ),
        CommandEvent::ConnectTunnel(event) => (
            proxy,
            connect_tunnel_action(proxy.known_peers, event),
        ),
        CommandEvent::AccessExpired => (
            proxy,
            CommandAction::Answer(Ok(PProxyCommandResponse::ExpirePeerAccess {  })),
        ),
        CommandEvent::Answered { delivered } => (
            proxy,
            CommandAction::Done(
                if delivered {
                    Ok(())
                } else {
                    Err(Error::EssentialTaskClosed)
                },
            ),
        ),
    }
}

/// How the work that a command can call for turns out.
pub struct CommandOutcomes<S> {
    /// Whether an address can be dialed.
    pub dialed: Result<(), Seq<char>>,
    /// Whether an address can be listened on.
    pub listened: Result<(), Seq<char>>,
    /// What comes of opening a stream.
    pub opened: Result<S, Seq<char>>,
    /// Whether the request can be written.
    pub written: Result<(), IOErrorKind>,
    /// What is read of the response.
    pub response: Result<[u8; 10], IOErrorKind>,
    /// Whether the stream can be closed.
    pub closed: Result<(), IOErrorKind>,
    /// Whether the answer reaches the one who gave the command.
    pub delivered: bool,
}

/// What happens when an action is carried out; nothing more once the command is dealt with.
pub open spec fn command_event<S>(
    action: CommandActionView<S>,
    outcomes: CommandOutcomes<S>,
) -> Option<CommandEventView<S>> {
    match action {
        CommandAction::DialPeer { multiaddr, peer_id } => Some(
            CommandEvent::AddPeer(
                AddPeerEvent::Dialed { multiaddr, peer_id, outcome: outcomes.dialed },
            ),
        ),
        CommandAction::ListenOn { relaied_multiaddr } => Some(
            CommandEvent::ConnectRelay(
                ConnectRelayEvent::Listened { relaied_multiaddr, outcome: outcomes.listened },
            ),
        ),
        CommandAction::DialKnownPeer { multiaddr, peer_id, tunnel_id } => Some(
            CommandEvent::ConnectTunnel(
                ConnectTunnelEvent::Dialed { peer_id, tunnel_id, outcome: outcomes.dialed },
            ),
        ),
        CommandAction::OpenStream { peer_id, tunnel_id } => Some(
            CommandEvent::ConnectTunnel(
                ConnectTunnelEvent::StreamOpened { tunnel_id, outcome: outcomes.opened },
            ),
        ),
        CommandAction::WriteRequest { remote_stream, header } => Some(
            CommandEvent::ConnectTunnel(
                ConnectTunnelEvent::RequestWritten { remote_stream, outcome: outcomes.written },
            ),
        ),
        CommandAction::ReadResponse { remote_stream } => Some(
            CommandEvent::ConnectTunnel(
                ConnectTunnelEvent::ResponseRead { remote_stream, outcome: outcomes.response },
            ),
        ),
        CommandAction::CloseStream { remote_stream, reply } => Some(
            CommandEvent::ConnectTunnel(
                ConnectTunnelEvent::StreamClosed { reply, outcome: outcomes.closed },
            ),
        ),
        CommandAction::ExpireAccess { peer_id } => Some(CommandEvent::AccessExpired),
        CommandAction::Answer(answer) => Some(
            CommandEvent::Answered { delivered: outcomes.delivered },
        ),
        CommandAction::Done(outcome) => None,
    }
}

/// The proxy and the actions that come of an event, through at most `steps` steps.
pub open spec fn command_run<S, A, H>(
    proxy: PProxyView<A, H>,
    event: CommandEventView<S>,
    outcomes: CommandOutcomes<S>,
    steps: nat,
) -> (PProxyView<A, H>, Seq<CommandActionView<S>>)
    decreases steps,
{
    if steps == 0 {
        (proxy, seq![])
    } else {
        let (next, action) = command_step(proxy, event);
        match command_event(action, outcomes) {
            None => (next, seq![action]),
            Some(following) => {
                let (last, actions) = command_run(next, following, outcomes, (steps - 1) as nat);
                (last, seq![action] + actions)
            },
        }
    }
}

/// The proxy and the actions that come of a command. Seven steps suffice for any.
pub open spec fn carried_out<S, A, H>(
    proxy: PProxyView<A, H>,
    command: CommandView,
    outcomes: CommandOutcomes<S>,
) -> (PProxyView<A, H>, Seq<CommandActionView<S>>) {
    command_run(proxy, CommandEvent::Received(command), outcomes, 7)
}

/// What a command that was answered ends with.
pub open spec fn answered<S>(outcomes: CommandOutcomes<S>) -> CommandActionView<S> {
    CommandAction::Done(
        if outcomes.delivered {
            Ok(())
        } else {
            Err(Error::EssentialTaskClosed)
        },
    )
}

/// A peer that could be dialed is known from then on under the address that was given last, and
/// the answer names it. A peer that could not be dialed is not added, and nobody is answered.
pub proof fn law_add_peer<S, A, H>(
    proxy: PProxyView<A, H>,
    multiaddr: Seq<Seq<char>>,
    peer_id: Seq<char>,
    outcomes: CommandOutcomes<S>,
)
    ensures
        ({
            let (after, actions) = carried_out(
                proxy,
                PProxyCommand::AddPeer { multiaddr, peer_id },
                outcomes,
            );
            let dialing = CommandAction::DialPeer { multiaddr, peer_id };
            match outcomes.dialed {
                Ok(()) => {
                    &&& after == PProxyView {
                        known_peers: proxy.known_peers.insert(peer_id, multiaddr),
                        ..proxy
                    }
                    &&& actions == seq![
                        dialing,
                        CommandAction::Answer(Ok(PProxyCommandResponse::AddPeer { peer_id })),
                        answered(outcomes),
                    ]
                },
                Err(error) => {
                    &&& after == proxy
                    &&& actions == seq![
                        dialing,
                        CommandAction::Done(Err(Error::Libp2pDialError(error))),
                    ]
                },
            }
        }),
{
    reveal_with_fuel(command_run, 3);
}

/// Connecting a relay has the node listen on its own address behind the relay, and the answer is
/// that address. Where it cannot be listened on, nobody is answered.
pub proof fn law_connect_relay<S, A, H>(
    proxy: PProxyView<A, H>,
    multiaddr: Seq<Seq<char>>,
    outcomes: CommandOutcomes<S>,
)
    ensures
        ({
            let (after, actions) = carried_out(
                proxy,
                PProxyCommand::ConnectRelay { multiaddr },
                outcomes,
            );
            let relaied_multiaddr = crate::multiaddr::relayed(multiaddr, proxy.local_peer_id);
            let listening = CommandAction::ListenOn { relaied_multiaddr };
            &&& after == proxy
            &&& match outcomes.listened {
                Ok(()) => actions == seq![
                    listening,
                    CommandAction::Answer(
                        Ok(PProxyCommandResponse::ConnectRelay { relaied_multiaddr }),
                    ),
                    answered(outcomes),
                ],
                Err(error) => actions == seq![
                    listening,
                    CommandAction::Done(Err(Error::Libp2pTransportError(error))),
                ],
            }
        }),
{
    reveal_with_fuel(command_run, 3);
}

/// A tunnel to a peer that no address is known of is refused before anything is done.
pub proof fn law_unknown_peer<S, A, H>(
    proxy: PProxyView<A, H>,
    peer_id: Seq<char>,
    tunnel_id: TunnelId,
    outcomes: CommandOutcomes<S>,
)
    requires
        !proxy.known_peers.contains_key(peer_id),
    ensures
        carried_out(proxy, PProxyCommand::ConnectTunnel { peer_id, tunnel_id }, outcomes) == (
            proxy,
            seq![CommandActionView::<S>::Done(Err(Error::UnknownPeer(peer_id)))],
        ),
{
}

/// A tunnel to a known peer is asked for on a stream to that peer, by a request that names the
/// tunnel. Where the peer replies that it succeeded, the answer is that very stream. Where the
/// peer replies anything else, the stream is closed and the answer is the reply. In every other
/// case nobody is answered. Whether the peer could be dialed plays no part, and the proxy does not
/// change.
pub proof fn law_connect_tunnel<S, A, H>(
    proxy: PProxyView<A, H>,
    peer_id: Seq<char>,
    tunnel_id: TunnelId,
    outcomes: CommandOutcomes<S>,
)
    requires
        proxy.known_peers.contains_key(peer_id),
    ensures
        ({
            let (after, actions) = carried_out(
                proxy,
                PProxyCommand::ConnectTunnel { peer_id, tunnel_id },
                outcomes,
            );
            let opening = seq![
                CommandActionView::<S>::DialKnownPeer {
                    multiaddr: proxy.known_peers[peer_id],
                    peer_id,
                    tunnel_id,
                },
                CommandAction::OpenStream { peer_id, tunnel_id },
            ];
            &&& after == proxy
            &&& match outcomes.opened {
                Err(error) => actions == opening.push(
                    CommandAction::Done(Err(Error::Libp2pOpenStreamError(error))),
                ),
                Ok(remote_stream) => {
                    let header = TunnelRequestHeader {
                        command: TunnelCommand::TcpConnect,
                        id: tunnel_id,
                    };
                    let writing = opening.push(
                        CommandAction::WriteRequest { remote_stream, header },
                    );
                    match outcomes.written {
                        Err(kind) => actions == writing.push(
                            CommandAction::Done(Err(Error::Io(kind))),
                        ),
                        Ok(()) => connect_tunnel_reply(
                            remote_stream,
                            outcomes,
                            writing.push(CommandAction::ReadResponse { remote_stream }),
                            actions,
                        ),
                    }
                },
            }
        }),
{
    reveal_with_fuel(command_run, 7);
}

/// How a tunnel whose request was written on `remote_stream` goes on after the actions `asking`.
pub open spec fn connect_tunnel_reply<S>(
    remote_stream: S,
    outcomes: CommandOutcomes<S>,
    asking: Seq<CommandActionView<S>>,
    actions: Seq<CommandActionView<S>>,
) -> bool {
    match TcpResponseHeader::decoded(outcomes.response) {
        Err(error) => actions =~= asking.push(
            CommandAction::Done(Err(Error::TunnelProtocolError(error))),
        ),
        Ok(header) => if header.reply is Succeeded {
            actions =~= asking.push(
                CommandAction::Answer(Ok(PProxyCommandResponse::ConnectTunnel { remote_stream })),
            ).push(answered(outcomes))
        } else {
            let reply = header.reply;
            let closing = asking.push(CommandAction::CloseStream { remote_stream, reply });
            match outcomes.closed {
                Err(kind) => actions =~= closing.push(CommandAction::Done(Err(Error::Io(kind)))),
                Ok(()) => actions =~= closing.push(
                    CommandAction::Answer(
                        Err(Error::TunnelProtocolError(TunnelProtocolError::TunnelReply(reply))),
                    ),
                ).push(answered(outcomes)),
            }
        },
    }
}

/// Cleaning a tunnel takes out that tunnel and no other, whether or not it was there.
pub proof fn law_clean_tunnel<S, A, H>(
    proxy: PProxyView<A, H>,
    peer_id: Seq<char>,
    tunnel_id: TunnelId,
    outcomes: CommandOutcomes<S>,
)
    ensures
        ({
            let (after, actions) = carried_out(
                proxy,
                PProxyCommand::CleanTunnel { peer_id, tunnel_id },
                outcomes,
            );
            &&& after == PProxyView { inbound_tunnels: after.inbound_tunnels, ..proxy }
            &&& !after.inbound_tunnels.contains_key((peer_id, tunnel_id@))
            &&& forall|key: (Seq<char>, u64)|
                key != (peer_id, tunnel_id@) ==> (#[trigger] after.inbound_tunnels.contains_key(key)
                    <==> proxy.inbound_tunnels.contains_key(key)) && (
                after.inbound_tunnels.contains_key(key) ==> after.inbound_tunnels[key]
                    == proxy.inbound_tunnels[key])
            &&& actions == seq![
                CommandAction::Answer(Ok(PProxyCommandResponse::CleanTunnel {  })),
                answered(outcomes),
            ]
        }),
{
    reveal_with_fuel(command_run, 2);
}

/// Letting the access of a peer expire changes nothing about the proxy. The access server's client
/// is told where there is one, and either way the answer is the same.
pub proof fn law_expire_peer_access<S, A, H>(
    proxy: PProxyView<A, H>,
    peer_id: Seq<char>,
    outcomes: CommandOutcomes<S>,
)
    ensures
        ({
            let (after, actions) = carried_out(
                proxy,
                PProxyCommand::ExpirePeerAccess { peer_id },
                outcomes,
            );
            let answering = seq![
                CommandAction::Answer(Ok(PProxyCommandResponse::ExpirePeerAccess {  })),
                answered(outcomes),
            ];
            &&& after == proxy
            &&& actions == if proxy.access_control {
                seq![CommandAction::ExpireAccess { peer_id }] + answering
            } else {
                answering
            }
        }),
{
    reveal_with_fuel(command_run, 3);
}

/// Whether the response is of the kind that the command calls for.
pub open spec fn responds_to<S>(response: ResponseView<S>, command: CommandView) -> bool {
    match command {
        PProxyCommand::AddPeer { .. } => response is AddPeer,
        PProxyCommand::ConnectRelay { .. } => response is ConnectRelay,
        PProxyCommand::ConnectTunnel { .. } => response is ConnectTunnel,
        PProxyCommand::CleanTunnel { .. } => response is CleanTunnel,
        PProxyCommand::ExpirePeerAccess { .. } => response is ExpirePeerAccess,
    }
}

/// Every command comes to an end. Only the last action but one can be an answer, so that no
/// command is answered twice. A command ends well if and only if it was answered and the answer
/// was delivered, and a response is of the kind that the command calls for.
pub proof fn law_command_is_answered_once<S, A, H>(
    proxy: PProxyView<A, H>,
    command: CommandView,
    outcomes: CommandOutcomes<S>,
)
    ensures
        ({
            let actions = carried_out(proxy, command, outcomes).1;
            let count = actions.len();
            let is_answered = count >= 2 && actions[count - 2] is Answer;
            &&& count >= 1
            &&& actions.last() is Done
            &&& forall|i: int|
                0 <= i < count && i != count - 2 ==> !((#[trigger] actions[i]) is Answer)
            &&& actions.last() == CommandActionView::<S>::Done(Ok(())) <==> is_answered
                && outcomes.delivered
            &&& is_answered ==> match actions[count - 2] {
                CommandAction::Answer(Ok(response)) => responds_to(response, command),
                _ => true,
            }
        }),
{
    reveal_with_fuel(command_run, 7);
}

/// A peer that was added can be tunneled to, through the address that it was added with, whatever
/// was known of it before.
pub proof fn law_added_peer_is_known<S, A, H>(
    proxy: PProxyView<A, H>,
    multiaddr: Seq<Seq<char>>,
    peer_id: Seq<char>,
    tunnel_id: TunnelId,
    adding: CommandOutcomes<S>,
    connecting: CommandOutcomes<S>,
)
    requires
        adding.dialed is Ok,
    ensures
        ({
            let added = carried_out(
                proxy,
                PProxyCommand::AddPeer { multiaddr, peer_id },
                adding,
            ).0;
            let actions = carried_out(
                added,
                PProxyCommand::ConnectTunnel { peer_id, tunnel_id },
                connecting,
            ).1;
            &&& actions.len() > 1
            &&& actions[0] == CommandActionView::<S>::DialKnownPeer {
                multiaddr,
                peer_id,
                tunnel_id,
            }
            &&& actions[1] == CommandActionView::<S>::OpenStream { peer_id, tunnel_id }
        }),
{
    law_add_peer(proxy, multiaddr, peer_id, adding);
    reveal_with_fuel(command_run, 2);
}

/// A tunnel to a known peer whose response has arrived, in ten bytes of this version: the second
/// byte decides. Where it is 0, and only there, the answer is a stream, and it is the stream that
/// was opened, left open. Any other byte has the stream closed, and once it is closed the answer is
/// an error that holds the reply with that byte, under its name where it has one.
pub proof fn law_tunnel_reply_decides<S, A, H>(
    proxy: PProxyView<A, H>,
    peer_id: Seq<char>,
    tunnel_id: TunnelId,
    remote_stream: S,
    response: [u8; 10],
    outcomes: CommandOutcomes<S>,
)
    requires
        proxy.known_peers.contains_key(peer_id),
        outcomes.opened == Ok::<S, Seq<char>>(remote_stream),
        outcomes.written is Ok,
        outcomes.response == Ok::<_, IOErrorKind>(response),
        response[0] == 1,
    ensures
        ({
            let actions = carried_out(
                proxy,
                PProxyCommand::ConnectTunnel { peer_id, tunnel_id },
                outcomes,
            ).1;
            &&& response[1] == 0 <==> exists|i: int|
                0 <= i < actions.len() && #[trigger] actions[i] == CommandActionView::<S>::Answer(
                    Ok(PProxyCommandResponse::ConnectTunnel { remote_stream }),
                )
            &&& response[1] == 0 <==> forall|i: int|
                0 <= i < actions.len() ==> !((#[trigger] actions[i]) is CloseStream)
            &&& forall|i: int|
                0 <= i < actions.len() ==> match #[trigger] actions[i] {
                    CommandAction::Answer(Ok(_)) => response[1] == 0,
                    _ => true,
                }
            &&& response[1] != 0 ==> {
                &&& actions.len() >= 6
                &&& actions[4] matches CommandAction::CloseStream { remote_stream: closed, reply }
                &&& closed == remote_stream
                &&& reply.code() == response[1]
                &&& reply is OtherReply <==> response[1] > 8
                &&& match outcomes.closed {
                    Ok(()) => actions.len() == 7 && actions[5] == CommandActionView::<S>::Answer(
                        Err(Error::TunnelProtocolError(TunnelProtocolError::TunnelReply(reply))),
                    ),
                    Err(kind) => actions.len() == 6 && actions[5] == CommandActionView::<S>::Done(
                        Err(Error::Io(kind)),
                    ),
                }
            }
        }),
{
    law_connect_tunnel(proxy, peer_id, tunnel_id, outcomes);
    crate::tunnel::protocol::law_response_of_bytes(response);
    let actions = carried_out(
        proxy,
        PProxyCommand::ConnectTunnel { peer_id, tunnel_id },
        outcomes,
    ).1;
    assert(actions.len() > 4);
    assert(actions[0] is DialKnownPeer);
    assert(actions[1] is OpenStream);
    assert(actions[2] is WriteRequest);
    assert(actions[3] is ReadResponse);
    if response[1] == 0 {
        assert(actions[4] == CommandActionView::<S>::Answer(
            Ok(PProxyCommandResponse::ConnectTunnel { remote_stream }),
        ));
    } else {
        assert(actions[4] is CloseStream);
    }
}

/// A command to connect a tunnel is answered with a stream if and only if an address of the peer is
/// known, a stream was opened to it, the request was written, and ten bytes came back of which the
/// first is the version 1 and the second is 0, a success. The stream is then the one that was
/// opened.
pub proof fn law_stream_is_answered<S, A, H>(
    proxy: PProxyView<A, H>,
    peer_id: Seq<char>,
    tunnel_id: TunnelId,
    outcomes: CommandOutcomes<S>,
)
    ensures
        ({
            let actions = carried_out(
                proxy,
                PProxyCommand::ConnectTunnel { peer_id, tunnel_id },
                outcomes,
            ).1;
            let is_connected = {
                &&& proxy.known_peers.contains_key(peer_id)
                &&& outcomes.opened is Ok
                &&& outcomes.written is Ok
                &&& outcomes.response matches Ok(bytes)
                &&& bytes[0] == 1
                &&& bytes[1] == 0
            };
            &&& is_connected <==> exists|i: int|
                0 <= i < actions.len() && match #[trigger] actions[i] {
                    CommandAction::Answer(Ok(_)) => true,
                    _ => false,
                }
            &&& forall|i: int|
                0 <= i < actions.len() ==> match #[trigger] actions[i] {
                    CommandAction::Answer(Ok(response)) => response == (
                    PProxyCommandResponse::<S, Seq<char>, Seq<Seq<char>>>::ConnectTunnel {
                        remote_stream: outcomes.opened->Ok_0,
                    }),
                    _ => true,
                }
        }),
{
    let actions = carried_out(
        proxy,
        PProxyCommand::ConnectTunnel { peer_id, tunnel_id },
        outcomes,
    ).1;
    if proxy.known_peers.contains_key(peer_id) {
        law_connect_tunnel(proxy, peer_id, tunnel_id, outcomes);
        if outcomes.opened is Ok && outcomes.written is Ok && outcomes.response is Ok {
            crate::tunnel::protocol::law_response_of_bytes(outcomes.response->Ok_0);
            if outcomes.response->Ok_0[0] == 1 && outcomes.response->Ok_0[1] == 0 {
                assert(actions[4] == CommandActionView::<S>::Answer(
                    Ok(
                        PProxyCommandResponse::ConnectTunnel {
                            remote_stream: outcomes.opened->Ok_0,
                        },
                    ),
                ));
            }
        }
    } else {
        law_unknown_peer(proxy, peer_id, tunnel_id, outcomes);
    }
}

/// A tunnel whose response cannot be read, or is of another version, comes to its end with that
/// error, right after the attempt to read it, and nobody is answered.
pub proof fn law_unreadable_response<S, A, H>(
    proxy: PProxyView<A, H>,
    peer_id: Seq<char>,
    tunnel_id: TunnelId,
    outcomes: CommandOutcomes<S>,
)
    requires
        proxy.known_peers.contains_key(peer_id),
        outcomes.opened is Ok,
        outcomes.written is Ok,
        outcomes.response matches Ok(bytes) ==> bytes[0] != 1,
    ensures
        ({
            let actions = carried_out(
                proxy,
                PProxyCommand::ConnectTunnel { peer_id, tunnel_id },
                outcomes,
            ).1;
            &&& actions.len() == 5
            &&& actions[3] == (CommandActionView::<S>::ReadResponse {
                remote_stream: outcomes.opened->Ok_0,
            })
            &&& actions[4] == CommandActionView::<S>::Done(
                Err(
                    Error::TunnelProtocolError(
                        match outcomes.response {
                            Err(kind) => TunnelProtocolError::IoError(kind),
                            Ok(bytes) => TunnelProtocolError::UnsupportedTunnelVersion(bytes[0]),
                        },
                    ),
                ),
            )
        }),
{
    law_connect_tunnel(proxy, peer_id, tunnel_id, outcomes);
    if let Ok(bytes) = outcomes.response {
        crate::tunnel::protocol::law_response_of_bytes(bytes);
    }
}

/// Connecting a relay, whatever its address ends in, has the node listen on an address with exactly
/// two components more than that of the relay, which it starts with: right behind it the circuit,
/// and at the end the peer id of the node. That same address is the answer.
pub proof fn law_relay_is_listened_behind<S, A, H>(
    proxy: PProxyView<A, H>,
    multiaddr: Seq<Seq<char>>,
    outcomes: CommandOutcomes<S>,
)
    ensures
        ({
            let actions = carried_out(
                proxy,
                PProxyCommand::ConnectRelay { multiaddr },
                outcomes,
            ).1;
            &&& actions.len() >= 2
            &&& actions[0] matches CommandAction::ListenOn { relaied_multiaddr }
            &&& relaied_multiaddr.len() == multiaddr.len() + 2
            &&& forall|i: int|
                0 <= i < multiaddr.len() ==> #[trigger] relaied_multiaddr[i] == multiaddr[i]
            &&& relaied_multiaddr[multiaddr.len() as int] == "/p2p-circuit"@
            &&& relaied_multiaddr.last() == "/p2p/"@ + proxy.local_peer_id
            &&& outcomes.listened is Ok ==> actions[1] == CommandActionView::<S>::Answer(
                Ok(PProxyCommandResponse::ConnectRelay { relaied_multiaddr }),
            )
        }),
{
    law_connect_relay(proxy, multiaddr, outcomes);
    crate::multiaddr::law_relayed_components(multiaddr, proxy.local_peer_id);
}

/// A command that was answered ends well where the answer was delivered, and else with the error
/// that the one who gave the command is gone.
pub proof fn law_end_of_an_answered_command<S, A, H>(
    proxy: PProxyView<A, H>,
    command: CommandView,
    outcomes: CommandOutcomes<S>,
)
    ensures
        ({
            let actions = carried_out(proxy, command, outcomes).1;
            forall|i: int|
                0 <= i < actions.len() && (#[trigger] actions[i]) is Answer ==> {
                    &&& i == actions.len() - 2
                    &&& actions.last() == if outcomes.delivered {
                        CommandActionView::<S>::Done(Ok(()))
                    } else {
                        CommandActionView::<S>::Done(Err(Error::EssentialTaskClosed))
                    }
                }
        }),
{
    law_command_is_answered_once(proxy, command, outcomes);
    match command {
        PProxyCommand::AddPeer { multiaddr, peer_id } => {
            law_add_peer(proxy, multiaddr, peer_id, outcomes);
        },
        PProxyCommand::ConnectRelay { multiaddr } => {
            law_connect_relay(proxy, multiaddr, outcomes);
        },
        PProxyCommand::ConnectTunnel { peer_id, tunnel_id } => {
            if proxy.known_peers.contains_key(peer_id) {
                law_connect_tunnel(proxy, peer_id, tunnel_id, outcomes);
            } else {
                law_unknown_peer(proxy, peer_id, tunnel_id, outcomes);
            }
        },
        PProxyCommand::CleanTunnel { peer_id, tunnel_id } => {
            law_clean_tunnel(proxy, peer_id, tunnel_id, outcomes);
        },
        PProxyCommand::ExpirePeerAccess { peer_id } => {
            law_expire_peer_access(proxy, peer_id, outcomes);
        },
    }
}

/// The view of an action is the same action, with the views of its parts.
pub proof fn law_command_action_view<S>(action: CommandAction<S>)
    ensures
        action matches CommandAction::DialPeer { multiaddr, peer_id } ==> action@ == (
        CommandActionView::<S>::DialPeer { multiaddr: multiaddr@, peer_id: peer_id@ }),
        action matches CommandAction::ListenOn { relaied_multiaddr } ==> action@ == (
        CommandActionView::<S>::ListenOn { relaied_multiaddr: relaied_multiaddr@ }),
        action matches CommandAction::DialKnownPeer { multiaddr, peer_id, tunnel_id } ==> action@
            == (CommandActionView::<S>::DialKnownPeer {
            multiaddr: multiaddr@,
            peer_id: peer_id@,
            tunnel_id,
        }),
        action matches CommandAction::OpenStream { peer_id, tunnel_id } ==> action@ == (
        CommandActionView::<S>::OpenStream { peer_id: peer_id@, tunnel_id }),
        action matches CommandAction::WriteRequest { remote_stream, header } ==> action@ == (
        CommandActionView::<S>::WriteRequest { remote_stream, header }),
        action matches CommandAction::ReadResponse { remote_stream } ==> action@ == (
        CommandActionView::<S>::ReadResponse { remote_stream }),
        action matches CommandAction::CloseStream { remote_stream, reply } ==> action@ == (
        CommandActionView::<S>::CloseStream { remote_stream, reply }),
        action matches CommandAction::ExpireAccess { peer_id } ==> action@ == (
        CommandActionView::<S>::ExpireAccess { peer_id: peer_id@ }),
        action matches CommandAction::Answer(Ok(response)) ==> action@
            == CommandActionView::<S>::Answer(Ok(response@)),
        action matches CommandAction::Answer(Err(error)) ==> action@
            == CommandActionView::<S>::Answer(Err(error@)),
        action matches CommandAction::Done(Ok(())) ==> action@ == CommandActionView::<S>::Done(
            Ok(()),
        ),
        action matches CommandAction::Done(Err(error)) ==> action@ == CommandActionView::<
            S,
        >::Done(Err(error@)),
{
}

/// The view of an event is the same event, with the views of its parts: what was asked for.
pub proof fn law_command_request_view<S>(
    command: PProxyCommand,
    add_peer: AddPeerEvent,
    connect_relay: ConnectRelayEvent,
    connect_tunnel: ConnectTunnelEvent<S>,
    delivered: bool,
)
    ensures
        CommandEvent::<S>::Received(command)@ == CommandEventView::<S>::Received(command@),
        CommandEvent::<S>::AddPeer(add_peer)@ == CommandEventView::<S>::AddPeer(add_peer@),
        CommandEvent::<S>::ConnectRelay(connect_relay)@ == CommandEventView::<S>::ConnectRelay(
            connect_relay@,
        ),
        CommandEvent::<S>::ConnectTunnel(connect_tunnel)@ == CommandEventView::<S>::ConnectTunnel(
            connect_tunnel@,
        ),
        CommandEvent::<S>::AccessExpired@ == CommandEventView::<S>::AccessExpired,
        (CommandEvent::<S>::Answered { delivered })@ == (CommandEventView::<S>::Answered {
            delivered,
        }),
        add_peer matches AddPeerEvent::Requested { multiaddr, peer_id } ==> add_peer@ == (
        AddPeerEvent::<Seq<char>, Seq<Seq<char>>, Seq<char>>::Requested {
            multiaddr: multiaddr@,
            peer_id: peer_id@,
        }),
        connect_relay matches ConnectRelayEvent::Requested { multiaddr } ==> connect_relay@ == (
        ConnectRelayEvent::<Seq<Seq<char>>, Seq<char>>::Requested { multiaddr: multiaddr@ }),
        connect_tunnel matches ConnectTunnelEvent::Requested { peer_id, tunnel_id }
            ==> connect_tunnel@ == (ConnectTunnelEvent::<S, Seq<char>, Seq<char>>::Requested {
            peer_id: peer_id@,
            tunnel_id,
        }),
{
}

/// The view of an event is the same event, with the views of its parts: how the work turned out.
pub proof fn law_command_outcome_view<S>(
    multiaddr: Multiaddress,
    peer_id: PeerId,
    tunnel_id: TunnelId,
    remote_stream: S,
    reply: TunnelReply,
    text: String,
    outcome: Result<(), IOErrorKind>,
    response: Result<[u8; 10], IOErrorKind>,
)
    ensures
        (AddPeerEvent::<PeerId, Multiaddress, String>::Dialed {
            multiaddr,
            peer_id,
            outcome: Ok(()),
        })@ == (AddPeerEvent::<Seq<char>, Seq<Seq<char>>, Seq<char>>::Dialed {
            multiaddr: multiaddr@,
            peer_id: peer_id@,
            outcome: Ok(()),
        }),
        (AddPeerEvent::<PeerId, Multiaddress, String>::Dialed {
            multiaddr,
            peer_id,
            outcome: Err(text),
        })@ == (AddPeerEvent::<Seq<char>, Seq<Seq<char>>, Seq<char>>::Dialed {
            multiaddr: multiaddr@,
            peer_id: peer_id@,
            outcome: Err(text@),
        }),
        (ConnectRelayEvent::<Multiaddress, String>::Listened {
            relaied_multiaddr: multiaddr,
            outcome: Ok(()),
        })@ == (ConnectRelayEvent::<Seq<Seq<char>>, Seq<char>>::Listened {
            relaied_multiaddr: multiaddr@,
            outcome: Ok(()),
        }),
        (ConnectRelayEvent::<Multiaddress, String>::Listened {
            relaied_multiaddr: multiaddr,
            outcome: Err(text),
        })@ == (ConnectRelayEvent::<Seq<Seq<char>>, Seq<char>>::Listened {
            relaied_multiaddr: multiaddr@,
            outcome: Err(text@),
        }),
        (ConnectTunnelEvent::<S, PeerId, String>::Dialed {
            peer_id,
            tunnel_id,
            outcome: Err(text),
        })@ == (ConnectTunnelEvent::<S, Seq<char>, Seq<char>>::Dialed {
            peer_id: peer_id@,
            tunnel_id,
            outcome: Err(text@),
        }),
        (ConnectTunnelEvent::<S, PeerId, String>::Dialed {
            peer_id,
            tunnel_id,
            outcome: Ok(()),
        })@ == (ConnectTunnelEvent::<S, Seq<char>, Seq<char>>::Dialed {
            peer_id: peer_id@,
            tunnel_id,
            outcome: Ok(()),
        }),
        (ConnectTunnelEvent::<S, PeerId, String>::StreamOpened {
            tunnel_id,
            outcome: Ok(remote_stream),
        })@ == (ConnectTunnelEvent::<S, Seq<char>, Seq<char>>::StreamOpened {
            tunnel_id,
            outcome: Ok(remote_stream),
        }),
        (ConnectTunnelEvent::<S, PeerId, String>::StreamOpened {
            tunnel_id,
            outcome: Err(text),
        })@ == (ConnectTunnelEvent::<S, Seq<char>, Seq<char>>::StreamOpened {
            tunnel_id,
            outcome: Err(text@),
        }),
        (ConnectTunnelEvent::<S, PeerId, String>::RequestWritten { remote_stream, outcome })@ == (
        ConnectTunnelEvent::<S, Seq<char>, Seq<char>>::RequestWritten { remote_stream, outcome }),
        (ConnectTunnelEvent::<S, PeerId, String>::ResponseRead {
            remote_stream,
            outcome: response,
        })@ == (ConnectTunnelEvent::<S, Seq<char>, Seq<char>>::ResponseRead {
            remote_stream,
            outcome: response,
        }),
        (ConnectTunnelEvent::<S, PeerId, String>::StreamClosed { reply, outcome })@ == (
        ConnectTunnelEvent::<S, Seq<char>, Seq<char>>::StreamClosed { reply, outcome }),
{
}

/// What happens after an action is how that piece of work turned out, about the same peer, address,
/// tunnel and stream, and about no other piece of work. After the last action nothing happens.
pub proof fn law_what_follows_an_action<S>(
    multiaddr: Seq<Seq<char>>,
    peer_id: Seq<char>,
    tunnel_id: TunnelId,
    remote_stream: S,
    header: TunnelRequestHeader,
    reply: TunnelReply,
    answer: Result<ResponseView<S>, Error<Seq<char>>>,
    result: Result<(), Error<Seq<char>>>,
    outcomes: CommandOutcomes<S>,
)
    ensures
        command_event(CommandActionView::<S>::DialPeer { multiaddr, peer_id }, outcomes) == Some(
            CommandEventView::<S>::AddPeer(
                AddPeerEvent::Dialed { multiaddr, peer_id, outcome: outcomes.dialed },
            ),
        ),
        command_event(
            CommandActionView::<S>::ListenOn { relaied_multiaddr: multiaddr },
            outcomes,
        ) == Some(
            CommandEventView::<S>::ConnectRelay(
                ConnectRelayEvent::Listened {
                    relaied_multiaddr: multiaddr,
                    outcome: outcomes.listened,
                },
            ),
        ),
        command_event(
            CommandActionView::<S>::DialKnownPeer { multiaddr, peer_id, tunnel_id },
            outcomes,
        ) == Some(
            CommandEventView::<S>::ConnectTunnel(
                ConnectTunnelEvent::Dialed { peer_id, tunnel_id, outcome: outcomes.dialed },
            ),
        ),
        command_event(CommandActionView::<S>::OpenStream { peer_id, tunnel_id }, outcomes) == Some(
            CommandEventView::<S>::ConnectTunnel(
                ConnectTunnelEvent::StreamOpened { tunnel_id, outcome: outcomes.opened },
            ),
        ),
        command_event(CommandActionView::<S>::WriteRequest { remote_stream, header }, outcomes)
            == Some(
            CommandEventView::<S>::ConnectTunnel(
                ConnectTunnelEvent::RequestWritten { remote_stream, outcome: outcomes.written },
            ),
        ),
        command_event(CommandActionView::<S>::ReadResponse { remote_stream }, outcomes) == Some(
            CommandEventView::<S>::ConnectTunnel(
                ConnectTunnelEvent::ResponseRead { remote_stream, outcome: outcomes.response },
            ),
        ),
        command_event(CommandActionView::<S>::CloseStream { remote_stream, reply }, outcomes)
            == Some(
            CommandEventView::<S>::ConnectTunnel(
                ConnectTunnelEvent::StreamClosed { reply, outcome: outcomes.closed },
            ),
        ),
        command_event(CommandActionView::<S>::ExpireAccess { peer_id }, outcomes) == Some(
            CommandEventView::<S>::AccessExpired,
        ),
        command_event(CommandActionView::<S>::Answer(answer), outcomes) == Some(
            CommandEventView::<S>::Answered { delivered: outcomes.delivered },
        ),
        command_event(CommandActionView::<S>::Done(result), outcomes) is None,
{
}

/// A run is one step after another: its first action is that of the step on its first event, and
/// what follows is the run of what happens after that action, from the proxy that the step left.
/// Carrying out a command is the run that starts with its arrival.
pub proof fn law_run_of_a_command<S, A, H>(
    proxy: PProxyView<A, H>,
    command: CommandView,
    event: CommandEventView<S>,
    outcomes: CommandOutcomes<S>,
    steps: nat,
)
    ensures
        ({
            let (next, action) = command_step(proxy, event);
            let (last, actions) = command_run(proxy, event, outcomes, steps + 1);
            &&& actions.len() > 0
            &&& actions[0] == action
            &&& match command_event(action, outcomes) {
                Some(following) => {
                    let rest = command_run(next, following, outcomes, steps);
                    last == rest.0 && actions.skip(1) == rest.1
                },
                None => last == next && actions.len() == 1,
            }
        }),
        carried_out(proxy, command, outcomes) == command_run(
            proxy,
            CommandEvent::Received(command),
            outcomes,
            7,
        ),
{
    let action = command_step(proxy, event).1;
    if let Some(following) = command_event(action, outcomes) {
        let rest = command_run(command_step(proxy, event).0, following, outcomes, steps).1;
        assert((seq![action] + rest).skip(1) =~= rest);
    }
}

/// A command is carried out by the handler of its kind, from its arrival on, and each event of a
/// kind goes to that handler.
pub proof fn law_handlers_of_commands<S, A, H>(
    proxy: PProxyView<A, H>,
    multiaddr: Seq<Seq<char>>,
    peer_id: Seq<char>,
    tunnel_id: TunnelId,
    add_peer: AddPeerEvent<Seq<char>, Seq<Seq<char>>, Seq<char>>,
    connect_relay: ConnectRelayEvent<Seq<Seq<char>>, Seq<char>>,
    connect_tunnel: ConnectTunnelEvent<S, Seq<char>, Seq<char>>,
)
    ensures
        command_step(proxy, CommandEventView::<S>::AddPeer(add_peer)) == add_peer_step::<S, A, H>(
            proxy,
            add_peer,
        ),
        command_step(
            proxy,
            CommandEventView::<S>::Received(PProxyCommand::AddPeer { multiaddr, peer_id }),
        ) == add_peer_step::<S, A, H>(proxy, AddPeerEvent::Requested { multiaddr, peer_id }),
        command_step(proxy, CommandEventView::<S>::ConnectRelay(connect_relay)) == (
            proxy,
            connect_relay_action::<S>(proxy.local_peer_id, connect_relay),
        ),
        command_step(
            proxy,
            CommandEventView::<S>::Received(PProxyCommand::ConnectRelay { multiaddr }),
        ) == (
            proxy,
            connect_relay_action::<S>(
                proxy.local_peer_id,
                ConnectRelayEvent::Requested { multiaddr },
            ),
        ),
        command_step(proxy, CommandEventView::<S>::ConnectTunnel(connect_tunnel)) == (
            proxy,
            connect_tunnel_action(proxy.known_peers, connect_tunnel),
        ),
        command_step(
            proxy,
            CommandEventView::<S>::Received(PProxyCommand::ConnectTunnel { peer_id, tunnel_id }),
        ) == (
            proxy,
            connect_tunnel_action::<S>(
                proxy.known_peers,
                ConnectTunnelEvent::Requested { peer_id, tunnel_id },
            ),
        ),
{
}

/// The handler of tunnels, given ten bytes of a response on a stream: it answers with that stream
/// if and only if the first byte is 1 and the second is 0. A first byte other than 1 ends the
/// command, and any other second byte has it close that stream on account of the reply with that
/// byte, which is then the answer.
pub proof fn law_handler_of_responses<S>(
    known_peers: Map<Seq<char>, Seq<Seq<char>>>,
    remote_stream: S,
    response: [u8; 10],
    reply: TunnelReply,
)
    ensures
        ({
            let action = connect_tunnel_action(
                known_peers,
                ConnectTunnelEvent::ResponseRead { remote_stream, outcome: Ok(response) },
            );
            &&& response[0] == 1 && response[1] == 0 <==> action == CommandActionView::<S>::Answer(
                Ok(PProxyCommandResponse::ConnectTunnel { remote_stream }),
            )
            &&& response[0] != 1 ==> action == CommandActionView::<S>::Done(
                Err(
                    Error::TunnelProtocolError(
                        TunnelProtocolError::UnsupportedTunnelVersion(response[0]),
                    ),
                ),
            )
            &&& response[0] == 1 && response[1] != 0 ==> {
                &&& action matches CommandAction::CloseStream { remote_stream: closed, reply: said }
                &&& closed == remote_stream
                &&& said.code() == response[1]
                &&& said is OtherReply <==> response[1] > 8
            }
        }),
        connect_tunnel_action::<S>(
            known_peers,
            ConnectTunnelEvent::StreamClosed { reply, outcome: Ok(()) },
        ) == CommandActionView::<S>::Answer(
            Err(Error::TunnelProtocolError(TunnelProtocolError::TunnelReply(reply))),
        ),
{
    crate::tunnel::protocol::law_response_of_bytes(response);
}

} // verus!

//! Streams that peers open to this node.
use std::io::ErrorKind as IOErrorKind;

use vstd::prelude::*;

use crate::error::Error;
use crate::error::TunnelError;
use crate::error::TunnelProtocolError;
use crate::peer_id::PeerId;
use crate::pproxy::PProxyView;
use crate::tunnel::protocol::TcpResponseHeader;
use crate::tunnel::protocol::TunnelRequestHeader;
use crate::tunnel::TunnelView;
use crate::types::TunnelCommand;
use crate::types::TunnelId;
use crate::types::TunnelReply;
use crate::LOCAL_TCP_TIMEOUT;

verus! {

/// What happens while a stream that a peer has opened is handled.
#[derive(Debug)]
#[allow(inconsistent_fields)]
pub enum IncomingEvent<S, L, A, H, Text = String> {
    /// The peer has opened the stream.
    Arrived { stream: S },
    /// The bytes of a header were read from the stream, or could not be.
    HeaderRead { stream: S, proxy_addr: A, outcome: Result<[u8; 10], IOErrorKind> },
    /// The access server says whether the peer may open a tunnel.
    AccessChecked { stream: S, proxy_addr: A, tunnel_id: TunnelId, valid: bool },
    /// The local server was connected to, or could not be.
    Connected { stream: S, tunnel_id: TunnelId, outcome: Result<L, TunnelError> },
    /// The reply was written to the stream, or could not be.
    ReplyWritten {
        stream: S,
        local_stream: L,
        tunnel_id: TunnelId,
        outcome: Result<(), IOErrorKind>,
    },
    /// The task that serves the tunnel runs.
    Spawned { tunnel_id: TunnelId, listener: H },
    /// The stream was closed on account of the error, or could not be.
    Closed { error: Error<Text>, outcome: Result<(), IOErrorKind> },
}

impl<S, L, A, H> View for IncomingEvent<S, L, A, H> {
    type V = IncomingEvent<S, L, A, H, Seq<char>>;

    open spec fn view(&self) -> IncomingEvent<S, L, A, H, Seq<char>> {
        match *self {
            IncomingEvent::Arrived { stream } => IncomingEvent::Arrived { stream },
            IncomingEvent::HeaderRead { stream, proxy_addr, outcome } =>
                IncomingEvent::HeaderRead { stream, proxy_addr, outcome },
            IncomingEvent::AccessChecked { stream, proxy_addr, tunnel_id, valid } =>
                IncomingEvent::AccessChecked { stream, proxy_addr, tunnel_id, valid },
            IncomingEvent::Connected { stream, tunnel_id, outcome } => IncomingEvent::Connected {
                stream,
                tunnel_id,
                outcome,
            },
            IncomingEvent::ReplyWritten { stream, local_stream, tunnel_id, outcome } =>
                IncomingEvent::ReplyWritten { stream, local_stream, tunnel_id, outcome },
            IncomingEvent::Spawned { tunnel_id, listener } => IncomingEvent::Spawned {
                tunnel_id,
                listener,
            },
            IncomingEvent::Closed { error, outcome } => IncomingEvent::Closed {
                error: error@,
                outcome,
            },
        }
    }
}

/// What is to be done while a stream that a peer has opened is handled.
#[derive(Debug)]
pub enum IncomingAction<S, L, A, Peer = PeerId, Text = String> {
    /// Read the bytes of a header from the stream.
    ReadHeader { stream: S, proxy_addr: A },
    /// Ask the access server whether the peer may open a tunnel.
    CheckAccess { peer_id: Peer, stream: S, proxy_addr: A, tunnel_id: TunnelId },
    /// Connect to the local server within the given seconds.
    Connect { stream: S, proxy_addr: A, tunnel_id: TunnelId, timeout: u64 },
    /// Write the header to the stream.
    WriteReply { stream: S, local_stream: L, header: TcpResponseHeader },
    /// Start the task that serves the tunnel.
    Spawn { tunnel_id: TunnelId, local_stream: L, remote_stream: S },
    /// Close the stream on account of the error.
    Close { stream: S, error: Error<Text> },
    /// Nothing more: the tunnel is served, or it is not.
    Done(Result<(), Error<Text>>),
}

/// The view of an action.
pub type IncomingActionView<S, L, A> = IncomingAction<S, L, A, Seq<char>, Seq<char>>;

impl<S, L, A> View for IncomingAction<S, L, A> {
    type V = IncomingActionView<S, L, A>;

    open spec fn view(&self) -> IncomingActionView<S, L, A> {
        match *self {
            IncomingAction::ReadHeader { stream, proxy_addr } => IncomingAction::ReadHeader {
                stream,
                proxy_addr,
            },
            IncomingAction::CheckAccess { peer_id, stream, proxy_addr, tunnel_id } =>
                IncomingAction::CheckAccess { peer_id: peer_id@, stream, proxy_addr, tunnel_id },
            IncomingAction::Connect { stream, proxy_addr, tunnel_id, timeout } =>
                IncomingAction::Connect { stream, proxy_addr, tunnel_id, timeout },
            IncomingAction::WriteReply { stream, local_stream, header } =>
                IncomingAction::WriteReply { stream, local_stream, header },
            IncomingAction::Spawn { tunnel_id, local_stream, remote_stream } =>
                IncomingAction::Spawn { tunnel_id, local_stream, remote_stream },
            IncomingAction::Close { stream, error } => IncomingAction::Close {
                stream,
                error: error@,
            },
            IncomingAction::Done(outcome) => IncomingAction::Done(
                crate::command::outcome_view(outcome),
            ),
        }
    }
}

/// The step of a proxy that handles a stream which the peer `peer_id` has opened.
pub open spec fn incoming_step<S, L, A, H>(
    proxy: PProxyView<A, H>,
    peer_id: Seq<char>,
    event: IncomingEvent<S, L, A, H, Seq<char>>,
) -> (PProxyView<A, H>, IncomingActionView<S, L, A>) {
    match event {
        IncomingEvent::Arrived { stream } => (
            proxy,
            match proxy.proxy_addr {
                Some(proxy_addr) => IncomingAction::ReadHeader { stream, proxy_addr },
                None => IncomingAction::Close {
                    stream,
                    error: Error::ProtocolNotSupport("No proxy_addr"@),
                },
            },
        ),
        IncomingEvent::HeaderRead { stream, proxy_addr, outcome } => (
            proxy,
            match TunnelRequestHeader::decoded(outcome) {
                Err(error) => IncomingAction::Close {
                    stream,
                    error: Error::TunnelProtocolError(error),
                },
                Ok(header) => if header.command is UdpConnect {
                    IncomingAction::Close {
                        stream,
                        error: Error::TunnelProtocolError(
                            TunnelProtocolError::UnsupportedCommand(header.command.code()),
                        ),
                    }
                } else if proxy.access_control {
                    IncomingAction::CheckAccess {
                        peer_id,
                        stream,
                        proxy_addr,
                        tunnel_id: header.id,
                    }
                } else {
                    IncomingAction::Connect {
                        stream,
                        proxy_addr,
                        tunnel_id: header.id,
                        timeout: LOCAL_TCP_TIMEOUT,
                    }
                },
            },
        ),
        IncomingEvent::AccessChecked { stream, proxy_addr, tunnel_id, valid } => (
            proxy,
            if proxy.access_control && !valid {
                IncomingAction::Close { stream, error: Error::AccessDenied(peer_id) }
            } else {
                IncomingAction::Connect {
                    stream,
                    proxy_addr,
                    tunnel_id,
                    timeout: LOCAL_TCP_TIMEOUT,
                }
            },
        ),
        IncomingEvent::Connected { stream, tunnel_id, outcome } => (
            proxy,
            match outcome {
                Err(error) => IncomingAction::Done(Err(Error::Tunnel(error))),
                Ok(local_stream) => IncomingAction::WriteReply {
                    stream,
                    local_stream,
                    header: TcpResponseHeader { reply: TunnelReply::Succeeded, id: tunnel_id },
                },
            },
        ),
        IncomingEvent::ReplyWritten { stream, local_stream, tunnel_id, outcome } => (
            proxy,
            match outcome {
                Err(kind) => IncomingAction::Done(Err(Error::Io(kind))),
                Ok(()) => IncomingAction::Spawn { tunnel_id, local_stream, remote_stream: stream },
            },
        ),
        IncomingEvent::Spawned { tunnel_id, listener } => (
            PProxyView {
                inbound_tunnels: proxy.inbound_tunnels.insert(
                    (peer_id, tunnel_id@),
                    TunnelView { peer_id, tunnel_id, listener: Some(listener) },
                ),
                ..proxy
            },
            IncomingAction::Done(Ok(())),
        ),
        IncomingEvent::Closed { error, outcome } => (
            proxy,
            match outcome {
                Err(kind) => IncomingAction::Done(Err(Error::Io(kind))),
                Ok(()) => IncomingAction::Done(Err(error)),
            },
        ),
    }
}

/// How the work that an incoming stream can call for turns out.
pub struct IncomingOutcomes<L, H> {
    /// What is read of the header.
    pub header: Result<[u8; 10], IOErrorKind>,
    /// What the access server says.
    pub valid: bool,
    /// What comes of the connection to the local server.
    pub connected: Result<L, TunnelError>,
    /// Whether the reply can be written.
    pub replied: Result<(), IOErrorKind>,
    /// The task that serves the tunnel.
    pub listener: H,
    /// Whether the stream can be closed.
    pub closed: Result<(), IOErrorKind>,
}

/// What happens when an action is carried out; nothing more once the stream is dealt with.
pub open spec fn incoming_event<S, L, A, H>(
    action: IncomingActionView<S, L, A>,
    outcomes: IncomingOutcomes<L, H>,
) -> Option<IncomingEvent<S, L, A, H, Seq<char>>> {
    match action {
        IncomingAction::ReadHeader { stream, proxy_addr } => Some(
            IncomingEvent::HeaderRead { stream, proxy_addr, outcome: outcomes.header },
        ),
        IncomingAction::CheckAccess { peer_id, stream, proxy_addr, tunnel_id } => Some(
            IncomingEvent::AccessChecked { stream, proxy_addr, tunnel_id, valid: outcomes.valid },
        ),
        IncomingAction::Connect { stream, proxy_addr, tunnel_id, timeout } => Some(
            IncomingEvent::Connected { stream, tunnel_id, outcome: outcomes.connected },
        ),
        IncomingAction::WriteReply { stream, local_stream, header } => Some(
            IncomingEvent::ReplyWritten {
                stream,
                local_stream,
                tunnel_id: header.id,
                outcome: outcomes.replied,
            },
        ),
        IncomingAction::Spawn { tunnel_id, local_stream, remote_stream } => Some(
            IncomingEvent::Spawned { tunnel_id, listener: outcomes.listener },
        ),
        IncomingAction::Close { stream, error } => Some(
            IncomingEvent::Closed { error, outcome: outcomes.closed },
        ),
        IncomingAction::Done(outcome) => None,
    }
}

/// The proxy and the actions that come of an event, through at most `steps` steps.
pub open spec fn incoming_run<S, L, A, H>(
    proxy: PProxyView<A, H>,
    peer_id: Seq<char>,
    event: IncomingEvent<S, L, A, H, Seq<char>>,
    outcomes: IncomingOutcomes<L, H>,
    steps: nat,
) -> (PProxyView<A, H>, Seq<IncomingActionView<S, L, A>>)
    decreases steps,
{
    if steps == 0 {
        (proxy, seq![])
    } else {
        let (next, action) = incoming_step(proxy, peer_id, event);
        match incoming_event(action, outcomes) {
            None => (next, seq![action]),
            Some(following) => {
                let (last, actions) = incoming_run(
                    next,
                    peer_id,
                    following,
                    outcomes,
                    (steps - 1) as nat,
                );
                (last, seq![action] + actions)
            },
        }
    }
}

/// Steps that suffice to deal with any stream.
pub open spec fn incoming_steps() -> nat {
    6
}

/// Why the stream of a peer is refused before anything is connected, if it is.
pub open spec fn refusal<L, A, H>(
    proxy: PProxyView<A, H>,
    peer_id: Seq<char>,
    outcomes: IncomingOutcomes<L, H>,
) -> Option<Error<Seq<char>>> {
    match (proxy.proxy_addr, TunnelRequestHeader::decoded(outcomes.header)) {
        (None, _) => Some(Error::ProtocolNotSupport("No proxy_addr"@)),
        (Some(_), Err(error)) => Some(Error::TunnelProtocolError(error)),
        (Some(_), Ok(header)) => if header.command is UdpConnect {
            Some(
                Error::TunnelProtocolError(
                    TunnelProtocolError::UnsupportedCommand(header.command.code()),
                ),
            )
        } else if proxy.access_control && !outcomes.valid {
            Some(Error::AccessDenied(peer_id))
        } else {
            None
        },
    }
}

/// What comes of the stream of a peer.
pub open spec fn incoming_result<L, A, H>(
    proxy: PProxyView<A, H>,
    peer_id: Seq<char>,
    outcomes: IncomingOutcomes<L, H>,
) -> Result<(), Error<Seq<char>>> {
    match refusal(proxy, peer_id, outcomes) {
        Some(error) => match outcomes.closed {
            Err(kind) => Err(Error::Io(kind)),
            Ok(()) => Err(error),
        },
        None => match (outcomes.connected, outcomes.replied) {
            (Err(error), _) => Err(Error::Tunnel(error)),
            (Ok(_), Err(kind)) => Err(Error::Io(kind)),
            (Ok(_), Ok(())) => Ok(()),
        },
    }
}

/// A stream that a peer opens is dealt with in a bounded number of steps, and the result is the
/// one that the outcomes of the work call for. A tunnel is registered if and only if the result is
/// a success, under the peer and the id that its header names; nothing else about the proxy
/// changes.
pub proof fn law_incoming_stream<S, L, A, H>(
    proxy: PProxyView<A, H>,
    peer_id: Seq<char>,
    stream: S,
    outcomes: IncomingOutcomes<L, H>,
)
    ensures
        ({
            let (after, actions) = incoming_run(
                proxy,
                peer_id,
                IncomingEvent::<S, L, A, H, Seq<char>>::Arrived { stream },
                outcomes,
                incoming_steps(),
            );
            let result = incoming_result(proxy, peer_id, outcomes);
            let id = TunnelRequestHeader::decoded(outcomes.header)->Ok_0.id;
            &&& actions.len() > 0
            &&& actions.last() == IncomingActionView::<S, L, A>::Done(result)
            &&& after == if result is Ok {
                PProxyView {
                    inbound_tunnels: proxy.inbound_tunnels.insert(
                        (peer_id, id@),
                        TunnelView { peer_id, tunnel_id: id, listener: Some(outcomes.listener) },
                    ),
                    ..proxy
                }
            } else {
                proxy
            }
        }),
{
    reveal_with_fuel(incoming_run, 6);
}

/// A stream that is refused is closed, and no more is done about it than its header read and the
/// access server asked: nothing is connected, no reply is written and no task is started.
pub proof fn law_refused_stream<S, L, A, H>(
    proxy: PProxyView<A, H>,
    peer_id: Seq<char>,
    stream: S,
    outcomes: IncomingOutcomes<L, H>,
)
    requires
        refusal(proxy, peer_id, outcomes) is Some,
    ensures
        ({
            let actions = incoming_run(
                proxy,
                peer_id,
                IncomingEvent::<S, L, A, H, Seq<char>>::Arrived { stream },
                outcomes,
                incoming_steps(),
            ).1;
            let error = refusal(proxy, peer_id, outcomes)->Some_0;
            &&& actions.len() >= 2
            &&& actions[actions.len() - 2] == IncomingActionView::<S, L, A>::Close {
                stream,
                error,
            }
            &&& forall|i: int|
                0 <= i < actions.len() - 2 ==> (#[trigger] actions[i]) is ReadHeader
                    || actions[i] is CheckAccess
        }),
{
    reveal_with_fuel(incoming_run, 6);
}

/// A stream that is not refused leads to a connection to the local server, within the time for
/// it. Once connected, the peer is told that its tunnel of that id has succeeded, and once told,
/// a task joins exactly that connection and that stream.
pub proof fn law_accepted_stream<S, L, A, H>(
    proxy: PProxyView<A, H>,
    peer_id: Seq<char>,
    stream: S,
    outcomes: IncomingOutcomes<L, H>,
)
    requires
        refusal(proxy, peer_id, outcomes) is None,
    ensures
        ({
            let actions = incoming_run(
                proxy,
                peer_id,
                IncomingEvent::<S, L, A, H, Seq<char>>::Arrived { stream },
                outcomes,
                incoming_steps(),
            ).1;
            let tunnel_id = TunnelRequestHeader::decoded(outcomes.header)->Ok_0.id;
            let proxy_addr = proxy.proxy_addr->Some_0;
            let read = seq![
                IncomingActionView::<S, L, A>::ReadHeader { stream, proxy_addr },
            ];
            let asked = if proxy.access_control {
                read.push(IncomingAction::CheckAccess { peer_id, stream, proxy_addr, tunnel_id })
            } else {
                read
            };
            let connected = asked.push(
                IncomingAction::Connect {
                    stream,
                    proxy_addr,
                    tunnel_id,
                    timeout: LOCAL_TCP_TIMEOUT,
                },
            );
            let result = IncomingAction::Done(incoming_result(proxy, peer_id, outcomes));
            match outcomes.connected {
                Err(_) => actions == connected.push(result),
                Ok(local_stream) => {
                    let replied = connected.push(
                        IncomingAction::WriteReply {
                            stream,
                            local_stream,
                            header: TcpResponseHeader {
                                reply: TunnelReply::Succeeded,
                                id: tunnel_id,
                            },
                        },
                    );
                    match outcomes.replied {
                        Err(_) => actions == replied.push(result),
                        Ok(()) => actions == replied.push(
                            IncomingAction::Spawn {
                                tunnel_id,
                                local_stream,
                                remote_stream: stream,
                            },
                        ).push(result),
                    }
                },
            }
        }),
{
    reveal_with_fuel(incoming_run, 6);
}

/// A request for anything but a TCP connection is not served, whatever the access server says:
/// nothing is connected, no reply is written, and the proxy does not change.
pub proof fn law_unsupported_command<S, L, A, H>(
    proxy: PProxyView<A, H>,
    peer_id: Seq<char>,
    stream: S,
    outcomes: IncomingOutcomes<L, H>,
)
    requires
        TunnelRequestHeader::decoded(outcomes.header) matches Ok(header)
            && header.command != TunnelCommand::TcpConnect,
    ensures
        ({
            let (after, actions) = incoming_run(
                proxy,
                peer_id,
                IncomingEvent::<S, L, A, H, Seq<char>>::Arrived { stream },
                outcomes,
                incoming_steps(),
            );
            &&& after == proxy
            &&& incoming_result(proxy, peer_id, outcomes) is Err
            &&& forall|i: int|
                0 <= i < actions.len() ==> !((#[trigger] actions[i]) is Connect)
                    && !(actions[i] is WriteReply) && !(actions[i] is Spawn)
        }),
{
    law_incoming_stream(proxy, peer_id, stream, outcomes);
    law_refused_stream(proxy, peer_id, stream, outcomes);
}

/// Without an access server no peer is denied access.
pub proof fn law_open_access<L, A, H>(
    proxy: PProxyView<A, H>,
    peer_id: Seq<char>,
    outcomes: IncomingOutcomes<L, H>,
)
    requires
        !proxy.access_control,
    ensures
        incoming_result(proxy, peer_id, outcomes) != Err::<(), _>(Error::AccessDenied(peer_id)),
{
}

/// A stream is served if and only if there is a local server, ten bytes were read of which the
/// first is the version 1 and the second is 1, a TCP connection, the peer has access where that is
/// controlled, the local server was connected to, and the reply was written. Only then does the
/// proxy change.
pub proof fn law_stream_is_served<S, L, A, H>(
    proxy: PProxyView<A, H>,
    peer_id: Seq<char>,
    stream: S,
    outcomes: IncomingOutcomes<L, H>,
)
    ensures
        ({
            let (after, actions) = incoming_run(
                proxy,
                peer_id,
                IncomingEvent::<S, L, A, H, Seq<char>>::Arrived { stream },
                outcomes,
                incoming_steps(),
            );
            let is_served = {
                &&& proxy.proxy_addr is Some
                &&& outcomes.header matches Ok(bytes)
                &&& bytes[0] == 1
                &&& bytes[1] == 1
                &&& proxy.access_control ==> outcomes.valid
                &&& outcomes.connected is Ok
                &&& outcomes.replied is Ok
            };
            &&& actions.len() > 0
            &&& is_served <==> actions.last() == IncomingActionView::<S, L, A>::Done(Ok(()))
            &&& is_served <==> exists|i: int|
                0 <= i < actions.len() && (#[trigger] actions[i]) is Spawn
            &&& !is_served ==> after == proxy
        }),
{
    if let Ok(bytes) = outcomes.header {
        crate::tunnel::protocol::law_request_of_bytes(bytes);
    }
    law_incoming_stream(proxy, peer_id, stream, outcomes);
    let actions = incoming_run(
            proxy,
            peer_id,
            IncomingEvent::<S, L, A, H, Seq<char>>::Arrived { stream },
            outcomes,
            incoming_steps(),
        ).1;
    if refusal(proxy, peer_id, outcomes) is Some {
        law_refused_stream(proxy, peer_id, stream, outcomes);
    } else {
        law_accepted_stream(proxy, peer_id, stream, outcomes);
        if outcomes.connected is Ok && outcomes.replied is Ok {
            assert(actions[actions.len() - 2] is Spawn);
        }
    }
}

/// The tunnel that a served stream leaves behind is kept under the peer that opened the stream and
/// the id that the last eight bytes of its header add up to, each weighted by its place, the first
/// one most. It is kept with the task that serves it, and all other tunnels stay as they were.
pub proof fn law_served_tunnel_is_kept<S, L, A, H>(
    proxy: PProxyView<A, H>,
    peer_id: Seq<char>,
    stream: S,
    header: [u8; 10],
    tunnel_id: TunnelId,
    outcomes: IncomingOutcomes<L, H>,
)
    requires
        proxy.proxy_addr is Some,
        outcomes.header == Ok::<_, IOErrorKind>(header),
        header[0] == 1,
        header[1] == 1,
        proxy.access_control ==> outcomes.valid,
        outcomes.connected is Ok,
        outcomes.replied is Ok,
        tunnel_id@ == header[2] * 0x100_0000_0000_0000
            + header[3] * 0x1_0000_0000_0000
            + header[4] * 0x100_0000_0000
            + header[5] * 0x1_0000_0000
            + header[6] * 0x100_0000
            + header[7] * 0x1_0000
            + header[8] * 0x100
            + header[9],
    ensures
        ({
            let after = incoming_run(
                proxy,
                peer_id,
                IncomingEvent::<S, L, A, H, Seq<char>>::Arrived { stream },
                outcomes,
                incoming_steps(),
            ).0;
            let key = (peer_id, tunnel_id@);
            &&& after.inbound_tunnels.contains_key(key)
            &&& after.inbound_tunnels[key].peer_id == peer_id
            &&& after.inbound_tunnels[key].tunnel_id == tunnel_id
            &&& after.inbound_tunnels[key].listener == Some(outcomes.listener)
            &&& after.inbound_tunnels.remove(key) == proxy.inbound_tunnels.remove(key)
            &&& after == PProxyView { inbound_tunnels: after.inbound_tunnels, ..proxy }
        }),
{
    broadcast use crate::types::lemma_tunnel_id_number;

    crate::tunnel::protocol::law_request_of_bytes(header);
    law_incoming_stream(proxy, peer_id, stream, outcomes);
    let read = TunnelRequestHeader::decoded(outcomes.header)->Ok_0.id;
    assert(TunnelId::numbered(read@) == read);
    assert(TunnelId::numbered(tunnel_id@) == tunnel_id);
}

/// Where the peer may open a tunnel and asks for a TCP connection under an id, the work goes from
/// one stage to the next as long as each succeeds: the header is read, the access server is asked
/// about that peer where access is controlled, the local server is connected to within five
/// seconds, the peer is told that the tunnel with that id has succeeded, and a task joins the
/// connection with the stream. The first failure is the result.
pub proof fn law_stages_of_a_stream<S, L, A, H>(
    proxy: PProxyView<A, H>,
    peer_id: Seq<char>,
    stream: S,
    proxy_addr: A,
    header: [u8; 10],
    tunnel_id: TunnelId,
    outcomes: IncomingOutcomes<L, H>,
)
    requires
        proxy.proxy_addr == Some(proxy_addr),
        outcomes.header == Ok::<_, IOErrorKind>(header),
        header[0] == 1,
        header[1] == 1,
        proxy.access_control ==> outcomes.valid,
        tunnel_id@ == header[2] * 0x100_0000_0000_0000
            + header[3] * 0x1_0000_0000_0000
            + header[4] * 0x100_0000_0000
            + header[5] * 0x1_0000_0000
            + header[6] * 0x100_0000
            + header[7] * 0x1_0000
            + header[8] * 0x100
            + header[9],
    ensures
        ({
            let actions = incoming_run(
                proxy,
                peer_id,
                IncomingEvent::<S, L, A, H, Seq<char>>::Arrived { stream },
                outcomes,
                incoming_steps(),
            ).1;
            let at = if proxy.access_control {
                2int
            } else {
                1int
            };
            &&& actions.len() >= at + 2
            &&& actions[0] == (IncomingActionView::<S, L, A>::ReadHeader { stream, proxy_addr })
            &&& proxy.access_control ==> actions[1] == (IncomingActionView::<
                S,
                L,
                A,
            >::CheckAccess { peer_id, stream, proxy_addr, tunnel_id })
            &&& actions[at] == (IncomingActionView::<S, L, A>::Connect {
                stream,
                proxy_addr,
                tunnel_id,
                timeout: 5,
            })
            &&& outcomes.connected matches Err(error) ==> actions.len() == at + 2 && actions.last()
                == IncomingActionView::<S, L, A>::Done(Err(Error::Tunnel(error)))
            &&& outcomes.connected matches Ok(local_stream) ==> {
                &&& actions.len() >= at + 3
                &&& actions[at + 1] == (IncomingActionView::<S, L, A>::WriteReply {
                    stream,
                    local_stream,
                    header: TcpResponseHeader { reply: TunnelReply::Succeeded, id: tunnel_id },
                })
                &&& outcomes.replied matches Err(kind) ==> actions.len() == at + 3
                    && actions.last() == IncomingActionView::<S, L, A>::Done(Err(Error::Io(kind)))
                &&& outcomes.replied is Ok ==> {
                    &&& actions.len() == at + 4
                    &&& actions[at + 2] == (IncomingActionView::<S, L, A>::Spawn {
                        tunnel_id,
                        local_stream,
                        remote_stream: stream,
                    })
                    &&& actions.last() == IncomingActionView::<S, L, A>::Done(Ok(()))
                }
            }
        }),
{
    broadcast use crate::types::lemma_tunnel_id_number;

    crate::tunnel::protocol::law_request_of_bytes(header);
    law_accepted_stream(proxy, peer_id, stream, outcomes);
    let read = TunnelRequestHeader::decoded(outcomes.header)->Ok_0.id;
    assert(TunnelId::numbered(read@) == read);
    assert(TunnelId::numbered(tunnel_id@) == tunnel_id);
}

/// Without a local server, every stream is closed before anything is read, because nothing is
/// offered.
pub proof fn law_stream_without_local_server<S, L, A, H>(
    proxy: PProxyView<A, H>,
    peer_id: Seq<char>,
    stream: S,
    outcomes: IncomingOutcomes<L, H>,
)
    requires
        proxy.proxy_addr is None,
    ensures
        ({
            let (after, actions) = incoming_run(
                proxy,
                peer_id,
                IncomingEvent::<S, L, A, H, Seq<char>>::Arrived { stream },
                outcomes,
                incoming_steps(),
            );
            let error = Error::ProtocolNotSupport("No proxy_addr"@);
            &&& after == proxy
            &&& actions == seq![
                IncomingActionView::<S, L, A>::Close { stream, error },
                match outcomes.closed {
                    Ok(()) => IncomingAction::Done(Err(error)),
                    Err(kind) => IncomingAction::Done(Err(Error::Io(kind))),
                },
            ]
        }),
{
    reveal_with_fuel(incoming_run, 2);
}

/// A stream whose header cannot be read, is of another version, or asks for anything but a TCP
/// connection, is closed right after the header, whoever opened it. The error says what the bytes
/// are.
pub proof fn law_stream_with_a_bad_header<S, L, A, H>(
    proxy: PProxyView<A, H>,
    peer_id: Seq<char>,
    stream: S,
    proxy_addr: A,
    outcomes: IncomingOutcomes<L, H>,
)
    requires
        proxy.proxy_addr == Some(proxy_addr),
        outcomes.header matches Ok(bytes) ==> bytes[0] != 1 || bytes[1] != 1,
    ensures
        ({
            let (after, actions) = incoming_run(
                proxy,
                peer_id,
                IncomingEvent::<S, L, A, H, Seq<char>>::Arrived { stream },
                outcomes,
                incoming_steps(),
            );
            let error = Error::TunnelProtocolError(
                match outcomes.header {
                    Err(kind) => TunnelProtocolError::IoError(kind),
                    Ok(bytes) => if bytes[0] != 1 {
                        TunnelProtocolError::UnsupportedTunnelVersion(bytes[0])
                    } else {
                        TunnelProtocolError::UnsupportedCommand(bytes[1])
                    },
                },
            );
            &&& after == proxy
            &&& actions == seq![
                IncomingActionView::<S, L, A>::ReadHeader { stream, proxy_addr },
                IncomingAction::Close { stream, error },
                match outcomes.closed {
                    Ok(()) => IncomingAction::Done(Err(error)),
                    Err(kind) => IncomingAction::Done(Err(Error::Io(kind))),
                },
            ]
        }),
{
    if let Ok(bytes) = outcomes.header {
        crate::tunnel::protocol::law_request_of_bytes(bytes);
        crate::types::law_command_bytes(bytes[1]);
    } else {
        crate::tunnel::protocol::law_headers_that_could_not_be_read(outcomes.header->Err_0);
    }
    reveal_with_fuel(incoming_run, 3);
}

/// A peer that asks for a TCP connection and that the access server denies gets nothing: its stream
/// is closed as soon as the access server has said so, and the error names the peer.
pub proof fn law_denied_peer<S, L, A, H>(
    proxy: PProxyView<A, H>,
    peer_id: Seq<char>,
    stream: S,
    header: [u8; 10],
    outcomes: IncomingOutcomes<L, H>,
)
    requires
        proxy.proxy_addr is Some,
        proxy.access_control,
        !outcomes.valid,
        outcomes.header == Ok::<_, IOErrorKind>(header),
        header[0] == 1,
        header[1] == 1,
    ensures
        ({
            let (after, actions) = incoming_run(
                proxy,
                peer_id,
                IncomingEvent::<S, L, A, H, Seq<char>>::Arrived { stream },
                outcomes,
                incoming_steps(),
            );
            let error = Error::AccessDenied(peer_id);
            &&& after == proxy
            &&& actions.len() == 4
            &&& actions[0] is ReadHeader
            &&& actions[1] matches IncomingAction::CheckAccess { peer_id: asked, .. }
            &&& asked == peer_id
            &&& actions[2] == (IncomingActionView::<S, L, A>::Close { stream, error })
            &&& actions[3] == match outcomes.closed {
                Ok(()) => IncomingActionView::<S, L, A>::Done(Err(error)),
                Err(kind) => IncomingActionView::<S, L, A>::Done(Err(Error::Io(kind))),
            }
        }),
{
    crate::tunnel::protocol::law_request_of_bytes(header);
    reveal_with_fuel(incoming_run, 4);
}

/// The view of an event is the same event, with the views of its parts.
pub proof fn law_incoming_event_view<S, L, A, H>(event: IncomingEvent<S, L, A, H>)
    ensures
        event matches IncomingEvent::Arrived { stream } ==> event@ == (IncomingEvent::<
            S,
            L,
            A,
            H,
            Seq<char>,
        >::Arrived { stream }),
        event matches IncomingEvent::HeaderRead { stream, proxy_addr, outcome } ==> event@ == (
        IncomingEvent::<S, L, A, H, Seq<char>>::HeaderRead { stream, proxy_addr, outcome }),
        event matches IncomingEvent::AccessChecked { stream, proxy_addr, tunnel_id, valid }
            ==> event@ == (IncomingEvent::<S, L, A, H, Seq<char>>::AccessChecked {
            stream,
            proxy_addr,
            tunnel_id,
            valid,
        }),
        event matches IncomingEvent::Connected { stream, tunnel_id, outcome } ==> event@ == (
        IncomingEvent::<S, L, A, H, Seq<char>>::Connected { stream, tunnel_id, outcome }),
        event matches IncomingEvent::ReplyWritten { stream, local_stream, tunnel_id, outcome }
            ==> event@ == (IncomingEvent::<S, L, A, H, Seq<char>>::ReplyWritten {
            stream,
            local_stream,
            tunnel_id,
            outcome,
        }),
        event matches IncomingEvent::Spawned { tunnel_id, listener } ==> event@ == (
        IncomingEvent::<S, L, A, H, Seq<char>>::Spawned { tunnel_id, listener }),
        event matches IncomingEvent::Closed { error, outcome } ==> event@ == (IncomingEvent::<
            S,
            L,
            A,
            H,
            Seq<char>,
        >::Closed { error: error@, outcome }),
{
}

/// The view of an action is the same action, with the views of its parts.
pub proof fn law_incoming_action_view<S, L, A>(action: IncomingAction<S, L, A>)
    ensures
        action matches IncomingAction::ReadHeader { stream, proxy_addr } ==> action@ == (
        IncomingActionView::<S, L, A>::ReadHeader { stream, proxy_addr }),
        action matches IncomingAction::CheckAccess { peer_id, stream, proxy_addr, tunnel_id }
            ==> action@ == (IncomingActionView::<S, L, A>::CheckAccess {
            peer_id: peer_id@,
            stream,
            proxy_addr,
            tunnel_id,
        }),
        action matches IncomingAction::Connect { stream, proxy_addr, tunnel_id, timeout }
            ==> action@ == (IncomingActionView::<S, L, A>::Connect {
            stream,
            proxy_addr,
            tunnel_id,
            timeout,
        }),
        action matches IncomingAction::WriteReply { stream, local_stream, header } ==> action@ == (
        IncomingActionView::<S, L, A>::WriteReply { stream, local_stream, header }),
        action matches IncomingAction::Spawn { tunnel_id, local_stream, remote_stream } ==> action@
            == (IncomingActionView::<S, L, A>::Spawn { tunnel_id, local_stream, remote_stream }),
        action matches IncomingAction::Close { stream, error } ==> action@ == (
        IncomingActionView::<S, L, A>::Close { stream, error: error@ }),
        action matches IncomingAction::Done(Ok(())) ==> action@ == IncomingActionView::<
            S,
            L,
            A,
        >::Done(Ok(())),
        action matches IncomingAction::Done(Err(error)) ==> action@ == IncomingActionView::<
            S,
            L,
            A,
        >::Done(Err(error@)),
{
}

/// What happens after an action is how that piece of work turned out, about the same stream, local
/// server and tunnel, and about no other piece of work. After the last action nothing happens.
pub proof fn law_what_follows_an_action<S, L, A, H>(
    peer_id: Seq<char>,
    stream: S,
    local_stream: L,
    proxy_addr: A,
    tunnel_id: TunnelId,
    timeout: u64,
    header: TcpResponseHeader,
    error: Error<Seq<char>>,
    result: Result<(), Error<Seq<char>>>,
    outcomes: IncomingOutcomes<L, H>,
)
    ensures
        incoming_event(IncomingActionView::<S, L, A>::ReadHeader { stream, proxy_addr }, outcomes)
            == Some(
            IncomingEvent::<S, L, A, H, Seq<char>>::HeaderRead {
                stream,
                proxy_addr,
                outcome: outcomes.header,
            },
        ),
        incoming_event(
            IncomingActionView::<S, L, A>::CheckAccess { peer_id, stream, proxy_addr, tunnel_id },
            outcomes,
        ) == Some(
            IncomingEvent::<S, L, A, H, Seq<char>>::AccessChecked {
                stream,
                proxy_addr,
                tunnel_id,
                valid: outcomes.valid,
            },
        ),
        incoming_event(
            IncomingActionView::<S, L, A>::Connect { stream, proxy_addr, tunnel_id, timeout },
            outcomes,
        ) == Some(
            IncomingEvent::<S, L, A, H, Seq<char>>::Connected {
                stream,
                tunnel_id,
                outcome: outcomes.connected,
            },
        ),
        incoming_event(
            IncomingActionView::<S, L, A>::WriteReply { stream, local_stream, header },
            outcomes,
        ) == Some(
            IncomingEvent::<S, L, A, H, Seq<char>>::ReplyWritten {
                stream,
                local_stream,
                tunnel_id: header.id,
                outcome: outcomes.replied,
            },
        ),
        incoming_event(
            IncomingActionView::<S, L, A>::Spawn {
                tunnel_id,
                local_stream,
                remote_stream: stream,
            },
            outcomes,
        ) == Some(
            IncomingEvent::<S, L, A, H, Seq<char>>::Spawned {
                tunnel_id,
                listener: outcomes.listener,
            },
        ),
        incoming_event(IncomingActionView::<S, L, A>::Close { stream, error }, outcomes) == Some(
            IncomingEvent::<S, L, A, H, Seq<char>>::Closed { error, outcome: outcomes.closed },
        ),
        incoming_event(IncomingActionView::<S, L, A>::Done(result), outcomes) is None,
{
}

/// A run is one step after another: its first action is that of the step on its first event, and
/// what follows is the run of what happens after that action, from the proxy that the step left.
/// Six steps suffice for any stream.
pub proof fn law_run_of_a_stream<S, L, A, H>(
    proxy: PProxyView<A, H>,
    peer_id: Seq<char>,
    event: IncomingEvent<S, L, A, H, Seq<char>>,
    outcomes: IncomingOutcomes<L, H>,
    steps: nat,
)
    ensures
        ({
            let (next, action) = incoming_step(proxy, peer_id, event);
            let (last, actions) = incoming_run(proxy, peer_id, event, outcomes, steps + 1);
            &&& actions.len() > 0
            &&& actions[0] == action
            &&& match incoming_event(action, outcomes) {
                Some(following) => {
                    let rest = incoming_run(next, peer_id, following, outcomes, steps);
                    last == rest.0 && actions.skip(1) == rest.1
                },
                None => last == next && actions.len() == 1,
            }
        }),
        incoming_steps() == 6,
{
    let (next, action) = incoming_step(proxy, peer_id, event);
    if let Some(following) = incoming_event(action, outcomes) {
        let rest = incoming_run(next, peer_id, following, outcomes, steps).1;
        assert((seq![action] + rest).skip(1) =~= rest);
    }
}

/// What the access server says decides if and only if access is controlled: a peer is denied where
/// it is controlled and not granted, and otherwise the local server is connected to.
pub proof fn law_access_server_decides<S, L, A, H>(
    proxy: PProxyView<A, H>,
    peer_id: Seq<char>,
    stream: S,
    proxy_addr: A,
    tunnel_id: TunnelId,
    valid: bool,
)
    ensures
        ({
            let (after, action) = incoming_step(
                proxy,
                peer_id,
                IncomingEvent::<S, L, A, H, Seq<char>>::AccessChecked {
                    stream,
                    proxy_addr,
                    tunnel_id,
                    valid,
                },
            );
            &&& after == proxy
            &&& proxy.access_control && !valid ==> action == (IncomingActionView::<
                S,
                L,
                A,
            >::Close { stream, error: Error::AccessDenied(peer_id) })
            &&& !proxy.access_control || valid ==> action == (IncomingActionView::<
                S,
                L,
                A,
            >::Connect { stream, proxy_addr, tunnel_id, timeout: 5 })
        }),
{
}

} // verus!

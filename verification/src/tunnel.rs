//! Tunnels between a local TCP stream and a stream to a peer.
//!
//! Opening and serving a tunnel alternates between decisions and work on sockets, channels and
//! tasks. The decisions are here: each `listen` takes what has just happened and says what is to
//! be done next. The caller does it and comes back with the outcome. `S` is the type of the
//! streams to peers, `L` that of local streams, `A` that of local addresses, and `H` that of the
//! handle of a running task, whose task ends when the handle is dropped.
use std::io::ErrorKind as IOErrorKind;

use vstd::prelude::*;

use crate::command::CommandReply;
use crate::command::CommandView;
use crate::command::PProxyCommand;
use crate::command::PProxyCommandResponse;
use crate::error::Error;
use crate::error::TunnelError;
use crate::peer_id::PeerId;
use crate::table::Table;
use crate::types::TunnelId;

pub mod protocol;

verus! {

/// Seconds that the task of a dropped tunnel server may go on before it is aborted.
pub const LISTENER_ABORT_DELAY: u64 = 3;

/// The number that follows `n` in the sequence of tunnel ids, which starts again after the
/// largest `usize`.
pub open spec fn next_number(n: nat) -> nat {
    if n == usize::MAX {
        0
    } else {
        n + 1
    }
}

/// The number that `steps` steps lead to from `n`.
pub open spec fn number_after(n: nat, steps: nat) -> nat
    decreases steps,
{
    if steps == 0 {
        n
    } else {
        next_number(number_after(n, (steps - 1) as nat))
    }
}

/// The sequence of tunnel ids that the tunnel servers of a node share.
#[derive(Debug)]
pub struct TunnelIds {
    next: usize,
}

impl View for TunnelIds {
    type V = nat;

    /// The number of the next tunnel id.
    closed spec fn view(&self) -> nat {
        self.next as nat
    }
}

impl TunnelIds {
    /// The sequence from zero.
    pub fn new() -> (ids: TunnelIds)
        ensures
            ids@ == 0,
    {
        TunnelIds { next: 0 }
    }

    /// Takes the next tunnel id.
    pub fn next_tunnel_id(&mut self) -> (id: TunnelId)
        ensures
            id@ as nat == old(self)@,
            final(self)@ == next_number(old(self)@),
    {
        let id = TunnelId::from(self.next as u64);
        self.next = self.next.wrapping_add(1);
        id
    }
}

/// The number that some steps lead to, in closed form.
proof fn lemma_number_after(n: nat, steps: nat)
    requires
        n <= usize::MAX,
        steps <= usize::MAX,
    ensures
        number_after(n, steps) == if n + steps <= usize::MAX {
            (n + steps) as int
        } else {
            n + steps - usize::MAX - 1
        },
    decreases steps,
{
    if steps > 0 {
        lemma_number_after(n, (steps - 1) as nat);
    }
}

/// No two of as many tunnel ids in a row as there are `usize` numbers are the same.
pub proof fn law_tunnel_ids_differ(first: nat, i: nat, j: nat)
    requires
        first <= usize::MAX,
        i < j <= usize::MAX,
    ensures
        number_after(first, i) != number_after(first, j),
{
    lemma_number_after(first, i);
    lemma_number_after(first, j);
}

/// A tunnel and the task that serves it.
#[derive(Debug)]
pub struct Tunnel<H> {
    peer_id: PeerId,
    tunnel_id: TunnelId,
    listener: Option<H>,
}

/// The view of a tunnel.
pub struct TunnelView<H> {
    pub peer_id: Seq<char>,
    pub tunnel_id: TunnelId,
    pub listener: Option<H>,
}

impl<H> View for Tunnel<H> {
    type V = TunnelView<H>;

    closed spec fn view(&self) -> TunnelView<H> {
        TunnelView {
            peer_id: self.peer_id@,
            tunnel_id: self.tunnel_id,
            listener: self.listener,
        }
    }
}

impl<H> Tunnel<H> {
    /// A tunnel that nothing serves yet.
    pub fn new(peer_id: PeerId, tunnel_id: TunnelId) -> (tunnel: Self)
        ensures
            tunnel@ == (TunnelView { peer_id: peer_id@, tunnel_id, listener: None::<H> }),
    {
        Tunnel { peer_id, tunnel_id, listener: None }
    }

    /// Whether a task may be started for the tunnel.
    pub fn check_listen(&self) -> (checked: Result<(), TunnelError>)
        ensures
            checked == if self@.listener is Some {
                Err(TunnelError::TunnelInUse)
            } else {
                Ok(())
            },
    {
        if self.listener.is_some() {
            return Err(TunnelError::TunnelInUse);
        }
        Ok(())
    }

    /// Takes over the task that serves the tunnel. A tunnel that has one keeps it.
    pub fn listen(&mut self, listener: H) -> (listening: Result<(), TunnelError>)
        ensures
            old(self)@.listener is Some ==> {
                &&& listening == Err::<(), _>(TunnelError::TunnelInUse)
                &&& final(self)@ == old(self)@
            },
            old(self)@.listener is None ==> {
                &&& listening == Ok::<_, TunnelError>(())
                &&& final(self)@ == (TunnelView { listener: Some(listener), ..old(self)@ })
            },
    {
        match self.check_listen() {
            Err(error) => Err(error),
            Ok(()) => {
                self.listener = Some(listener);
                Ok(())
            },
        }
    }
}

/// What happens while a tunnel server starts to listen. `B` is the type of the address that a bound
/// socket says it has.
#[derive(Debug)]
#[allow(inconsistent_fields)]
pub enum ServerListenEvent<A, B, H> {
    /// It was asked to listen at the address.
    Requested { address: A },
    /// A socket was bound and says where, or it was not.
    Bound(Result<B, IOErrorKind>),
    /// The task that accepts connections runs.
    Spawned { address: B, listener: H },
}

/// What is to be done while a tunnel server starts to listen.
#[derive(Debug)]
#[allow(inconsistent_fields)]
pub enum ServerListenAction<A, B> {
    /// Bind a socket at the address.
    Bind { address: A },
    /// Start the task that accepts connections.
    Spawn { address: B },
    /// Nothing more: the server listens at the address, or does not.
    Done(Result<B, TunnelError>),
}

/// A server for local connections that are tunneled to a peer.
#[derive(Debug)]
pub struct TunnelServer<H> {
    peer_id: PeerId,
    listener: Option<H>,
}

/// The view of a tunnel server.
pub struct TunnelServerView<H> {
    pub peer_id: Seq<char>,
    pub listener: Option<H>,
}

impl<H> View for TunnelServer<H> {
    type V = TunnelServerView<H>;

    closed spec fn view(&self) -> TunnelServerView<H> {
        TunnelServerView { peer_id: self.peer_id@, listener: self.listener }
    }
}

/// The step of a tunnel server that starts to listen.
pub open spec fn server_listen_step<A, B, H>(
    server: TunnelServerView<H>,
    event: ServerListenEvent<A, B, H>,
) -> (TunnelServerView<H>, ServerListenAction<A, B>) {
    match event {
        ServerListenEvent::Requested { address } => (
            server,
            if server.listener is Some {
                ServerListenAction::Done(Err(TunnelError::TunnelInUse))
            } else {
                ServerListenAction::Bind { address }
            },
        ),
        ServerListenEvent::Bound(Err(kind)) => (
            server,
            ServerListenAction::Done(Err(crate::error::tunnel_error_of(kind))),
        ),
        ServerListenEvent::Bound(Ok(address)) => (server, ServerListenAction::Spawn { address }),
        ServerListenEvent::Spawned { address, listener } => (
            TunnelServerView { listener: Some(listener), ..server },
            ServerListenAction::Done(Ok(address)),
        ),
    }
}

impl<H> TunnelServer<H> {
    /// A server that does not listen yet.
    pub fn new(peer_id: PeerId) -> (server: Self)
        ensures
            server@ == (TunnelServerView { peer_id: peer_id@, listener: None::<H> }),
    {
        TunnelServer { peer_id, listener: None }
    }

    /// The peer that connections are tunneled to.
    pub fn peer_id(&self) -> (peer_id: PeerId)
        ensures
            peer_id@ == self@.peer_id,
    {
        self.peer_id.clone()
    }

    /// Starts to listen, step by step.
    pub fn listen<A, B>(&mut self, event: ServerListenEvent<A, B, H>) -> (action:
        ServerListenAction<A, B>)
        ensures
            (final(self)@, action) == server_listen_step(old(self)@, event),
    {
        match event {
            ServerListenEvent::Requested { address } => {
                if self.listener.is_some() {
                    return ServerListenAction::Done(Err(TunnelError::TunnelInUse));
                }
                ServerListenAction::Bind { address }
            },
            ServerListenEvent::Bound(Err(kind)) => ServerListenAction::Done(
                Err(TunnelError::from(kind)),
            ),
            ServerListenEvent::Bound(Ok(address)) => ServerListenAction::Spawn { address },
            ServerListenEvent::Spawned { address, listener } => {
                self.listener = Some(listener);
                ServerListenAction::Done(Ok(address))
            },
        }
    }
}

/// Once a server listens, asking it again, at whatever address, changes nothing and fails: nothing
/// is bound.
pub proof fn law_server_listens_once<A, B, H>(
    server: TunnelServerView<H>,
    bound: B,
    listener: H,
    address: A,
)
    ensures
        ({
            let listening = server_listen_step(
                server,
                ServerListenEvent::<A, B, H>::Spawned { address: bound, listener },
            ).0;
            server_listen_step(
                listening,
                ServerListenEvent::<A, B, H>::Requested { address },
            ) == (
                listening,
                ServerListenAction::<A, B>::Done(Err(TunnelError::TunnelInUse)),
            )
        }),
{
}

/// A server that could not bind is as it was, so it can be asked again.
pub proof fn law_failed_bind_changes_nothing<A, B, H>(
    server: TunnelServerView<H>,
    kind: IOErrorKind,
)
    ensures
        server_listen_step(server, ServerListenEvent::<A, B, H>::Bound(Err(kind))).0 == server,
{
}

/// What happens while a tunnel server accepts connections.
#[derive(Debug)]
pub enum ListenerEvent<S, L, H> {
    /// The server was looked at: is it told to stop?
    Checked { cancelled: bool },
    /// A connection came in, or accepting one failed.
    Accepted(Result<L, IOErrorKind>),
    /// The command to connect the tunnel was given away.
    Sent { local_stream: L, tunnel_id: TunnelId },
    /// The command to connect the tunnel came to an end.
    Replied { local_stream: L, tunnel_id: TunnelId, reply: CommandReply<S> },
    /// The task that serves the tunnel runs.
    Spawned { tunnel_id: TunnelId, listener: H },
}

/// What is to be done while a tunnel server accepts connections.
#[derive(Debug)]
pub enum ListenerAction<S, L, Command = PProxyCommand> {
    /// See whether the server is told to stop.
    Check,
    /// Accept a connection.
    Accept,
    /// Give the command to the proxy.
    Send { local_stream: L, tunnel_id: TunnelId, command: Command },
    /// Wait for the answer to the command.
    AwaitReply { local_stream: L, tunnel_id: TunnelId },
    /// Start the task that serves the tunnel.
    Spawn { tunnel_id: TunnelId, local_stream: L, remote_stream: S },
    /// Nothing more.
    Stop,
}

impl<S, L> View for ListenerAction<S, L> {
    type V = ListenerAction<S, L, CommandView>;

    open spec fn view(&self) -> ListenerAction<S, L, CommandView> {
        match *self {
            ListenerAction::Check => ListenerAction::Check,
            ListenerAction::Accept => ListenerAction::Accept,
            ListenerAction::Send { local_stream, tunnel_id, command } => ListenerAction::Send {
                local_stream,
                tunnel_id,
                command: command@,
            },
            ListenerAction::AwaitReply { local_stream, tunnel_id } => ListenerAction::AwaitReply {
                local_stream,
                tunnel_id,
            },
            ListenerAction::Spawn { tunnel_id, local_stream, remote_stream } =>
                ListenerAction::Spawn { tunnel_id, local_stream, remote_stream },
            ListenerAction::Stop => ListenerAction::Stop,
        }
    }
}

/// The part of a tunnel server that accepts connections.
pub struct TunnelServerListener<H> {
    peer_id: PeerId,
    tunnels: Table<TunnelId, Tunnel<H>>,
}

/// The view of the part of a tunnel server that accepts connections.
pub struct ListenerView<H> {
    pub peer_id: Seq<char>,
    pub tunnels: Map<u64, TunnelView<H>>,
}

impl<H> View for TunnelServerListener<H> {
    type V = ListenerView<H>;

    closed spec fn view(&self) -> ListenerView<H> {
        ListenerView { peer_id: self.peer_id@, tunnels: self.tunnels@ }
    }
}

/// The step of a tunnel server that accepts connections: the server, the number of the next
/// tunnel id, and what is to be done.
pub open spec fn listener_step<S, L, H>(
    server: ListenerView<H>,
    next_id: nat,
    event: ListenerEvent<S, L, H>,
) -> (ListenerView<H>, nat, ListenerAction<S, L, CommandView>) {
    match event {
        ListenerEvent::Checked { cancelled } => (
            server,
            next_id,
            if cancelled {
                ListenerAction::Stop
            } else {
                ListenerAction::Accept
            },
        ),
        ListenerEvent::Accepted(Err(_)) => (server, next_id, ListenerAction::Check),
        ListenerEvent::Accepted(Ok(local_stream)) => {
            let tunnel_id = TunnelId::numbered(next_id as u64);
            let command = PProxyCommand::ConnectTunnel { peer_id: server.peer_id, tunnel_id };
            (
                server,
                next_number(next_id),
                ListenerAction::Send { local_stream, tunnel_id, command },
            )
        },
        ListenerEvent::Sent { local_stream, tunnel_id } => (
            server,
            next_id,
            ListenerAction::AwaitReply { local_stream, tunnel_id },
        ),
        ListenerEvent::Replied { local_stream, tunnel_id, reply } => (
            server,
            next_id,
            match crate::command::reply_answer(reply) {
                Ok(PProxyCommandResponse::ConnectTunnel { remote_stream }) =>
                    ListenerAction::Spawn { tunnel_id, local_stream, remote_stream },
                _ => ListenerAction::Check,
            },
        ),
        ListenerEvent::Spawned { tunnel_id, listener } => (
            ListenerView {
                tunnels: server.tunnels.insert(
                    tunnel_id@,
                    TunnelView { peer_id: server.peer_id, tunnel_id, listener: Some(listener) },
                ),
                ..server
            },
            next_id,
            ListenerAction::Check,
        ),
    }
}

impl<H> TunnelServerListener<H> {
    /// A server for tunnels to the given peer, without tunnels.
    pub fn new(peer_id: PeerId) -> (server: Self)
        ensures
            server@ == (ListenerView {
                peer_id: peer_id@,
                tunnels: Map::<u64, TunnelView<H>>::empty(),
            }),
    {
        TunnelServerListener { peer_id, tunnels: Table::new() }
    }

    /// Accepts connections and tunnels each to the peer, step by step.
    pub fn listen<S, L>(
        &mut self,
        ids: &mut TunnelIds,
        event: ListenerEvent<S, L, H>,
    ) -> (action: ListenerAction<S, L>)
        ensures
            (final(self)@, final(ids)@, action@) == listener_step(old(self)@, old(ids)@, event),
    {
        broadcast use crate::types::lemma_tunnel_id_number;

        match event {
            ListenerEvent::Checked { cancelled } => {
                if cancelled {
                    ListenerAction::Stop
                } else {
                    ListenerAction::Accept
                }
            },
            ListenerEvent::Accepted(Err(_)) => ListenerAction::Check,
            ListenerEvent::Accepted(Ok(local_stream)) => {
                let tunnel_id = ids.next_tunnel_id();
                let command = PProxyCommand::ConnectTunnel {
                    peer_id: self.peer_id.clone(),
                    tunnel_id,
                };
                ListenerAction::Send { local_stream, tunnel_id, command }
            },
            ListenerEvent::Sent { local_stream, tunnel_id } => ListenerAction::AwaitReply {
                local_stream,
                tunnel_id,
            },
            ListenerEvent::Replied { local_stream, tunnel_id, reply } => {
                match reply.answer() {
                    Ok(PProxyCommandResponse::ConnectTunnel { remote_stream }) =>
                        ListenerAction::Spawn { tunnel_id, local_stream, remote_stream },
                    _ => ListenerAction::Check,
                }
            },
            ListenerEvent::Spawned { tunnel_id, listener } => {
                let mut tunnel = Tunnel::new(self.peer_id.clone(), tunnel_id);
                let listening = tunnel.listen(listener);
                if listening.is_ok() {
                    self.tunnels.insert(tunnel_id, tunnel);
                }
                ListenerAction::Check
            },
        }
    }
}

/// A connection whose command is answered with a stream is tunneled through that stream, under the
/// next tunnel id, and its tunnel is kept with the task that serves it.
pub proof fn law_connection_is_tunneled<S, L, H>(
    server: ListenerView<H>,
    next_id: nat,
    local_stream: L,
    remote_stream: S,
    listener: H,
)
    ensures
        ({
            let tunnel_id = TunnelId::numbered(next_id as u64);
            let (accepted, id_after, sending) = listener_step::<S, L, H>(
                server,
                next_id,
                ListenerEvent::Accepted(Ok(local_stream)),
            );
            let (waiting, _, awaiting) = listener_step::<S, L, H>(
                accepted,
                id_after,
                ListenerEvent::Sent { local_stream, tunnel_id },
            );
            let reply = CommandReply::Answered(
                Ok(PProxyCommandResponse::ConnectTunnel { remote_stream }),
            );
            let (connected, _, spawning) = listener_step::<S, L, H>(
                waiting,
                id_after,
                ListenerEvent::Replied { local_stream, tunnel_id, reply },
            );
            let (served, id_at_end, ending) = listener_step::<S, L, H>(
                connected,
                id_after,
                ListenerEvent::Spawned { tunnel_id, listener },
            );
            let command = PProxyCommand::ConnectTunnel { peer_id: server.peer_id, tunnel_id };
            &&& sending == ListenerAction::<S, L, CommandView>::Send {
                local_stream,
                tunnel_id,
                command,
            }
            &&& awaiting == ListenerAction::<S, L, CommandView>::AwaitReply {
                local_stream,
                tunnel_id,
            }
            &&& spawning == ListenerAction::<S, L, CommandView>::Spawn {
                tunnel_id,
                local_stream,
                remote_stream,
            }
            &&& ending == ListenerAction::<S, L, CommandView>::Check
            &&& id_at_end == next_number(next_id)
            &&& served.peer_id == server.peer_id
            &&& served.tunnels == server.tunnels.insert(
                tunnel_id@,
                TunnelView { peer_id: server.peer_id, tunnel_id, listener: Some(listener) },
            )
        }),
{
}

/// A connection whose command is not answered with a stream leaves no tunnel behind, and the
/// server goes on.
pub proof fn law_unanswered_connection_is_dropped<S, L, H>(
    server: ListenerView<H>,
    next_id: nat,
    local_stream: L,
    tunnel_id: TunnelId,
    reply: CommandReply<S>,
)
    requires
        !(crate::command::reply_answer(reply) matches Ok(
            PProxyCommandResponse::ConnectTunnel { .. },
        )),
    ensures
        listener_step::<S, L, H>(
            server,
            next_id,
            ListenerEvent::Replied { local_stream, tunnel_id, reply },
        ) == (server, next_id, ListenerAction::<S, L, CommandView>::Check),
{
}

/// The server stops when it is told to, and never on account of a connection.
pub proof fn law_server_stops_when_cancelled<S, L, H>(
    server: ListenerView<H>,
    next_id: nat,
    event: ListenerEvent<S, L, H>,
)
    ensures
        listener_step(server, next_id, event).2 is Stop <==> event == (ListenerEvent::<
            S,
            L,
            H,
        >::Checked { cancelled: true }),
{
}

/// The server, the number of the next tunnel id, and the actions that come of a sequence of events.
pub open spec fn listener_run<S, L, H>(
    server: ListenerView<H>,
    next_id: nat,
    events: Seq<ListenerEvent<S, L, H>>,
) -> (ListenerView<H>, nat, Seq<ListenerAction<S, L, CommandView>>)
    decreases events.len(),
{
    if events.len() == 0 {
        (server, next_id, seq![])
    } else {
        let (before, id, actions) = listener_run(server, next_id, events.drop_last());
        let (after, id_after, action) = listener_step(before, id, events.last());
        (after, id_after, actions.push(action))
    }
}

/// How many connections came in.
pub open spec fn accepted_count<S, L, H>(events: Seq<ListenerEvent<S, L, H>>) -> nat
    decreases events.len(),
{
    if events.len() == 0 {
        0
    } else {
        let before = accepted_count(events.drop_last());
        match events.last() {
            ListenerEvent::Accepted(Ok(_)) => before + 1,
            _ => before,
        }
    }
}

/// The tunnels that came to run, in order, each with its task.
pub open spec fn spawned_tunnels<S, L, H>(events: Seq<ListenerEvent<S, L, H>>) -> Seq<(TunnelId, H)>
    decreases events.len(),
{
    if events.len() == 0 {
        seq![]
    } else {
        let before = spawned_tunnels(events.drop_last());
        match events.last() {
            ListenerEvent::Spawned { tunnel_id, listener } => before.push((tunnel_id, listener)),
            _ => before,
        }
    }
}

/// The commands that are given to the proxy, in order, each with the tunnel id that it is for.
pub open spec fn sent_commands<S, L>(actions: Seq<ListenerAction<S, L, CommandView>>) -> Seq<
    (TunnelId, CommandView),
>
    decreases actions.len(),
{
    if actions.len() == 0 {
        seq![]
    } else {
        let before = sent_commands(actions.drop_last());
        match actions.last() {
            ListenerAction::Send { local_stream, tunnel_id, command } => before.push(
                (tunnel_id, command),
            ),
            _ => before,
        }
    }
}

/// Whatever sequence of events a server goes through, each connection gets one command, which asks
/// for a tunnel to the peer of the server, and the commands take the tunnel ids one after the
/// other: the command of the connection `i`, counted from zero, names the id `i` steps after the
/// next one. No id is skipped, and none is taken without a connection.
pub proof fn law_connections_take_ids_in_order<S, L, H>(
    server: ListenerView<H>,
    next_id: nat,
    events: Seq<ListenerEvent<S, L, H>>,
)
    ensures
        ({
            let (after, id_after, actions) = listener_run(server, next_id, events);
            let sent = sent_commands(actions);
            &&& after.peer_id == server.peer_id
            &&& actions.len() == events.len()
            &&& id_after == number_after(next_id, accepted_count(events))
            &&& sent.len() == accepted_count(events)
            &&& forall|i: int|
                0 <= i < sent.len() ==> {
                    let tunnel_id = TunnelId::numbered(number_after(next_id, i as nat) as u64);
                    #[trigger] sent[i] == (
                        tunnel_id,
                        CommandView::ConnectTunnel { peer_id: server.peer_id, tunnel_id },
                    )
                }
        }),
    decreases events.len(),
{
    if events.len() > 0 {
        law_connections_take_ids_in_order(server, next_id, events.drop_last());
        let (before, id, actions) = listener_run(server, next_id, events.drop_last());
        let action = listener_step(before, id, events.last()).2;
        assert(actions.push(action).drop_last() =~= actions);
    }
}

/// Whatever sequence of events a server goes through, the tunnels that it gains are exactly those
/// that came to run. Each is kept with the peer of the server and the task that serves it, the
/// later task where an id came twice, and every other tunnel stays as it was.
pub proof fn law_tunnels_gained<S, L, H>(
    server: ListenerView<H>,
    next_id: nat,
    events: Seq<ListenerEvent<S, L, H>>,
)
    ensures
        ({
            let tunnels = listener_run(server, next_id, events).0.tunnels;
            let spawned = spawned_tunnels(events);
            &&& forall|key: u64| #[trigger]
                tunnels.contains_key(key) <==> server.tunnels.contains_key(key) || exists|i: int|
                    0 <= i < spawned.len() && (#[trigger] spawned[i]).0@ == key
            &&& forall|key: u64|
                server.tunnels.contains_key(key) && (forall|i: int|
                    0 <= i < spawned.len() ==> (#[trigger] spawned[i]).0@ != key)
                    ==> #[trigger] tunnels[key] == server.tunnels[key]
            &&& forall|i: int|
                0 <= i < spawned.len() && (forall|j: int|
                    i < j < spawned.len() ==> (#[trigger] spawned[j]).0@ != spawned[i].0@)
                    ==> tunnels[(#[trigger] spawned[i]).0@] == (TunnelView {
                    peer_id: server.peer_id,
                    tunnel_id: spawned[i].0,
                    listener: Some(spawned[i].1),
                })
        }),
    decreases events.len(),
{
    if events.len() > 0 {
        let earlier = events.drop_last();
        law_tunnels_gained(server, next_id, earlier);
        law_connections_take_ids_in_order(server, next_id, earlier);
        let was = spawned_tunnels(earlier);
        let spawned = spawned_tunnels(events);
        if let ListenerEvent::Spawned { tunnel_id, listener } = events.last() {
            let before = listener_run(server, next_id, earlier).0.tunnels;
            let tunnels = listener_run(server, next_id, events).0.tunnels;
            assert forall|key: u64| #[trigger]
                tunnels.contains_key(key) <==> server.tunnels.contains_key(key) || exists|i: int|
                    0 <= i < spawned.len() && (#[trigger] spawned[i]).0@ == key by {
                assert(tunnels.contains_key(key) <==> before.contains_key(key) || key
                    == tunnel_id@);
                assert(spawned[was.len() as int].0@ == tunnel_id@);
                if exists|i: int| 0 <= i < was.len() && (#[trigger] was[i]).0@ == key {
                    let i = choose|i: int| 0 <= i < was.len() && (#[trigger] was[i]).0@ == key;
                    assert(spawned[i].0@ == key);
                }
                if exists|i: int| 0 <= i < spawned.len() && (#[trigger] spawned[i]).0@ == key {
                    let i = choose|i: int|
                        0 <= i < spawned.len() && (#[trigger] spawned[i]).0@ == key;
                    assert(i < was.len() ==> was[i].0@ == key);
                }
            }
            assert forall|key: u64|
                server.tunnels.contains_key(key) && (forall|i: int|
                    0 <= i < spawned.len() ==> (#[trigger] spawned[i]).0@
                        != key) implies #[trigger] tunnels[key] == server.tunnels[key] by {
                assert(spawned[was.len() as int].0@ != key);
                assert forall|i: int| 0 <= i < was.len() implies (#[trigger] was[i]).0@ != key by {
                    assert(spawned[i].0@ != key);
                }
                assert(before[key] == server.tunnels[key]);
            }
            assert forall|i: int|
                0 <= i < spawned.len() && (forall|j: int|
                    i < j < spawned.len() ==> (#[trigger] spawned[j]).0@
                        != spawned[i].0@) implies tunnels[(#[trigger] spawned[i]).0@] == (
            TunnelView {
                peer_id: server.peer_id,
                tunnel_id: spawned[i].0,
                listener: Some(spawned[i].1),
            }) by {
                if i < was.len() {
                    assert(spawned[was.len() as int].0@ != spawned[i].0@);
                    assert forall|j: int| i < j < was.len() implies (#[trigger] was[j]).0@
                        != was[i].0@ by {
                        assert(spawned[j].0@ != spawned[i].0@);
                    }
                    assert(before[was[i].0@] == tunnels[spawned[i].0@]);
                }
            }
        }
    }
}

/// Whether the event is what can happen when the action is carried out.
pub open spec fn comes_of<S, L, H>(
    event: ListenerEvent<S, L, H>,
    action: ListenerAction<S, L, CommandView>,
) -> bool {
    match (action, event) {
        (ListenerAction::Check, ListenerEvent::Checked { .. }) => true,
        (ListenerAction::Accept, ListenerEvent::Accepted(_)) => true,
        (
            ListenerAction::Send { local_stream: sent, tunnel_id: id, .. },
            ListenerEvent::Sent { local_stream, tunnel_id },
        ) => sent == local_stream && id == tunnel_id,
        (
            ListenerAction::Send { local_stream: sent, tunnel_id: id, .. },
            ListenerEvent::Replied { local_stream, tunnel_id, reply },
        ) => sent == local_stream && id == tunnel_id && reply is NotSent,
        (
            ListenerAction::AwaitReply { local_stream: sent, tunnel_id: id },
            ListenerEvent::Replied { local_stream, tunnel_id, reply },
        ) => sent == local_stream && id == tunnel_id,
        (
            ListenerAction::Spawn { tunnel_id: id, .. },
            ListenerEvent::Spawned { tunnel_id, .. },
        ) => id == tunnel_id,
        _ => false,
    }
}

/// Whether a server that starts by seeing whether it is told to stop can go through the events:
/// each comes of the action before it.
pub open spec fn is_listener_run<S, L, H>(
    server: ListenerView<H>,
    next_id: nat,
    events: Seq<ListenerEvent<S, L, H>>,
) -> bool {
    let actions = listener_run(server, next_id, events).2;
    &&& events.len() > 0 ==> events[0] is Checked
    &&& forall|k: int|
        0 < k < events.len() ==> comes_of(#[trigger] events[k], actions[k - 1])
}

/// The tunnel id that an action is about, if it is about one.
pub open spec fn action_id<S, L>(action: ListenerAction<S, L, CommandView>) -> Option<TunnelId> {
    match action {
        ListenerAction::Send { local_stream, tunnel_id, command } => Some(tunnel_id),
        ListenerAction::AwaitReply { local_stream, tunnel_id } => Some(tunnel_id),
        ListenerAction::Spawn { tunnel_id, local_stream, remote_stream } => Some(tunnel_id),
        _ => None,
    }
}

/// The actions of the events but the last are the actions but the last, and the events but the
/// last can be gone through where all can.
proof fn lemma_earlier_run<S, L, H>(
    server: ListenerView<H>,
    next_id: nat,
    events: Seq<ListenerEvent<S, L, H>>,
)
    requires
        events.len() > 0,
        is_listener_run(server, next_id, events),
    ensures
        is_listener_run(server, next_id, events.drop_last()),
        listener_run(server, next_id, events).2.drop_last() == listener_run(
            server,
            next_id,
            events.drop_last(),
        ).2,
{
    let earlier = events.drop_last();
    let actions = listener_run(server, next_id, events).2;
    law_connections_take_ids_in_order(server, next_id, earlier);
    assert(actions.drop_last() =~= listener_run(server, next_id, earlier).2);
    assert forall|k: int| 0 < k < earlier.len() implies comes_of(
        #[trigger] earlier[k],
        listener_run(server, next_id, earlier).2[k - 1],
    ) by {
        assert(comes_of(events[k], actions[k - 1]));
    }
}

/// While a server runs, it deals with one connection at a time: an action that is about a tunnel is
/// about the one that was asked for last. So the tunnel that comes to run is the one that the
/// proxy was asked for last, under the id of that command.
pub proof fn law_one_connection_at_a_time<S, L, H>(
    server: ListenerView<H>,
    next_id: nat,
    events: Seq<ListenerEvent<S, L, H>>,
)
    requires
        is_listener_run(server, next_id, events),
    ensures
        ({
            let actions = listener_run(server, next_id, events).2;
            let sent = sent_commands(actions);
            &&& events.len() > 0 && action_id(actions.last()) is Some ==> sent.len() > 0
                && action_id(actions.last()) == Some(sent.last().0)
            &&& events.len() > 0 && events.last() is Spawned ==> sent.len() > 0
                && events.last()->Spawned_tunnel_id == sent.last().0
        }),
    decreases events.len(),
{
    if events.len() > 0 {
        let earlier = events.drop_last();
        lemma_earlier_run(server, next_id, events);
        law_connections_take_ids_in_order(server, next_id, earlier);
        law_one_connection_at_a_time(server, next_id, earlier);
        let actions = listener_run(server, next_id, events).2;
        let k = events.len() - 1;
        if k > 0 {
            assert(comes_of(events[k], actions[k - 1]));
            assert(actions[k - 1] == listener_run(server, next_id, earlier).2.last());
        }
    }
}

/// What happens while a tunnel is served.
#[derive(Debug)]
pub enum TunnelEvent<S> {
    /// The tunnel is to be served.
    Started,
    /// Copying between the streams ended: the bytes sent each way, or the failure.
    Copied(Result<(u64, u64), IOErrorKind>),
    /// The command to clean the tunnel up was given away, or could not be.
    CleanSent { delivered: bool },
    /// The command to clean the tunnel up came to an end.
    CleanReplied(CommandReply<S>),
}

/// What is to be done while a tunnel is served.
#[derive(Debug)]
pub enum TunnelAction<Command = PProxyCommand, Text = String> {
    /// Copy between the streams, both ways, until both are closed.
    Copy,
    /// Give the command to the proxy.
    SendClean { command: Command },
    /// Wait for the answer to the command.
    AwaitReply,
    /// Nothing more.
    Finish(CleanOutcome<Text>),
}

/// How the cleanup of a tunnel ended.
#[derive(Debug)]
pub enum CleanOutcome<Text = String> {
    /// The proxy has forgotten the tunnel.
    Cleaned,
    /// The proxy gave no such answer.
    Failed(Error<Text>),
}

impl View for TunnelAction {
    type V = TunnelAction<CommandView, Seq<char>>;

    open spec fn view(&self) -> TunnelAction<CommandView, Seq<char>> {
        match *self {
            TunnelAction::Copy => TunnelAction::Copy,
            TunnelAction::SendClean { command } => TunnelAction::SendClean { command: command@ },
            TunnelAction::AwaitReply => TunnelAction::AwaitReply,
            TunnelAction::Finish(CleanOutcome::Cleaned) => TunnelAction::Finish(
                CleanOutcome::Cleaned,
            ),
            TunnelAction::Finish(CleanOutcome::Failed(error)) => TunnelAction::Finish(
                CleanOutcome::Failed(error@),
            ),
        }
    }
}

/// The part of a tunnel that serves it.
#[derive(Debug)]
pub struct TunnelListener {
    peer_id: PeerId,
    tunnel_id: TunnelId,
}

impl View for TunnelListener {
    type V = (Seq<char>, TunnelId);

    closed spec fn view(&self) -> (Seq<char>, TunnelId) {
        (self.peer_id@, self.tunnel_id)
    }
}

/// What is to be done next while the tunnel `tunnel_id` with `peer_id` is served.
pub open spec fn tunnel_action<S>(
    peer_id: Seq<char>,
    tunnel_id: TunnelId,
    event: TunnelEvent<S>,
) -> TunnelAction<CommandView, Seq<char>> {
    match event {
        TunnelEvent::Started => TunnelAction::Copy,
        TunnelEvent::Copied(_) => TunnelAction::SendClean {
            command: PProxyCommand::CleanTunnel { peer_id, tunnel_id },
        },
        TunnelEvent::CleanSent { .. } => TunnelAction::AwaitReply,
        TunnelEvent::CleanReplied(reply) => TunnelAction::Finish(
            match crate::command::reply_answer(reply) {
                Ok(PProxyCommandResponse::CleanTunnel {  }) => CleanOutcome::Cleaned,
                Ok(_) => CleanOutcome::Failed(Error::UnexpectedResponseType),
                Err(error) => CleanOutcome::Failed(error),
            },
        ),
    }
}

impl TunnelListener {
    pub fn new(peer_id: PeerId, tunnel_id: TunnelId) -> (listener: TunnelListener)
        ensures
            listener@ == (peer_id@, tunnel_id),
    {
        TunnelListener { peer_id, tunnel_id }
    }

    /// Serves the tunnel and has it cleaned up at the end, step by step.
    pub fn listen<S>(&self, event: TunnelEvent<S>) -> (action: TunnelAction)
        ensures
            action@ == tunnel_action(self@.0, self@.1, event),
    {
        match event {
            TunnelEvent::Started => TunnelAction::Copy,
            TunnelEvent::Copied(_) => TunnelAction::SendClean {
                command: PProxyCommand::CleanTunnel {
                    peer_id: self.peer_id.clone(),
                    tunnel_id: self.tunnel_id,
                },
            },
            TunnelEvent::CleanSent { .. } => TunnelAction::AwaitReply,
            TunnelEvent::CleanReplied(reply) => {
                let outcome = match reply.answer() {
                    Ok(PProxyCommandResponse::CleanTunnel {  }) => CleanOutcome::Cleaned,
                    Ok(_) => CleanOutcome::Failed(Error::UnexpectedResponseType),
                    Err(error) => CleanOutcome::Failed(error),
                };
                TunnelAction::Finish(outcome)
            },
        }
    }
}

/// However copying ends and whatever comes of the command, the tunnel is copied, cleaned up by one
/// command that names it, and then finished.
pub proof fn law_tunnel_is_cleaned_up<S>(
    peer_id: Seq<char>,
    tunnel_id: TunnelId,
    copied: Result<(u64, u64), IOErrorKind>,
    delivered: bool,
    reply: CommandReply<S>,
)
    ensures
        tunnel_action(peer_id, tunnel_id, TunnelEvent::<S>::Started) is Copy,
        tunnel_action(peer_id, tunnel_id, TunnelEvent::<S>::Copied(copied)) == (TunnelAction::<
            CommandView,
            Seq<char>,
        >::SendClean { command: PProxyCommand::CleanTunnel { peer_id, tunnel_id } }),
        tunnel_action(
            peer_id,
            tunnel_id,
            TunnelEvent::<S>::CleanSent { delivered },
        ) is AwaitReply,
        tunnel_action(peer_id, tunnel_id, TunnelEvent::CleanReplied(reply)) is Finish,
{
}

/// What happens while a TCP server is connected to.
#[derive(Debug)]
pub enum ConnectEvent<A, L> {
    /// The server at the address is to be connected to within some seconds.
    Requested { addr: A, request_timeout_s: u64 },
    /// The attempt has ended; `None` is an attempt that took too long.
    Attempted(Option<Result<L, IOErrorKind>>),
}

/// What is to be done while a TCP server is connected to.
#[derive(Debug)]
pub enum ConnectAction<A, L> {
    /// Connect to the address, and give up after the seconds.
    Connect { addr: A, timeout_s: u64 },
    /// Nothing more.
    Done(Result<L, TunnelError>),
}

/// Connects to a TCP server within a time, step by step.
pub fn tcp_connect_with_timeout<A, L>(event: ConnectEvent<A, L>) -> (action: ConnectAction<A, L>)
    ensures
        action == match event {
            ConnectEvent::Requested { addr, request_timeout_s } => ConnectAction::Connect {
                addr,
                timeout_s: request_timeout_s,
            },
            ConnectEvent::Attempted(Some(Ok(stream))) => ConnectAction::Done(Ok(stream)),
            ConnectEvent::Attempted(Some(Err(kind))) => ConnectAction::Done(
                Err(crate::error::tunnel_error_of(kind)),
            ),
            ConnectEvent::Attempted(None) => ConnectAction::Done(
                Err(TunnelError::ConnectionTimeout),
            ),
        },
{
    match event {
        ConnectEvent::Requested { addr, request_timeout_s } => ConnectAction::Connect {
            addr,
            timeout_s: request_timeout_s,
        },
        ConnectEvent::Attempted(Some(Ok(stream))) => ConnectAction::Done(Ok(stream)),
        ConnectEvent::Attempted(Some(Err(kind))) => ConnectAction::Done(
            Err(TunnelError::from(kind)),
        ),
        ConnectEvent::Attempted(None) => ConnectAction::Done(Err(TunnelError::ConnectionTimeout)),
    }
}

/// Tunnel ids are counted up by one, and start again from zero after the largest `usize`.
pub proof fn law_next_number(n: nat)
    ensures
        n < usize::MAX ==> next_number(n) == n + 1,
        n == usize::MAX ==> next_number(n) == 0,
        number_after(n, 0) == n,
        forall|steps: nat| #[trigger]
            number_after(n, steps + 1) == next_number(number_after(n, steps)),
{
}

/// A server that does not listen binds exactly the address that it was asked to listen at. Once the
/// socket is bound it starts its task and gives back where the socket is; where it is not bound,
/// the error is that of the attempt. Only a task that runs changes the server, which keeps it.
pub proof fn law_server_listens<A, B, H>(
    server: TunnelServerView<H>,
    address: A,
    bound: Result<B, IOErrorKind>,
    local: B,
    listener: H,
)
    ensures
        server_listen_step(server, ServerListenEvent::<A, B, H>::Requested { address }) == (
            server,
            if server.listener is None {
                ServerListenAction::<A, B>::Bind { address }
            } else {
                ServerListenAction::<A, B>::Done(Err(TunnelError::TunnelInUse))
            },
        ),
        server_listen_step(server, ServerListenEvent::<A, B, H>::Bound(bound)).0 == server,
        bound matches Ok(place) ==> server_listen_step(
            server,
            ServerListenEvent::<A, B, H>::Bound(bound),
        ).1 == (ServerListenAction::<A, B>::Spawn { address: place }),
        bound matches Err(kind) ==> server_listen_step(
            server,
            ServerListenEvent::<A, B, H>::Bound(bound),
        ).1 == ServerListenAction::<A, B>::Done(Err(crate::error::tunnel_error_of(kind))),
        ({
            let (after, action) = server_listen_step(
                server,
                ServerListenEvent::<A, B, H>::Spawned { address: local, listener },
            );
            &&& after.peer_id == server.peer_id
            &&& after.listener == Some(listener)
            &&& action == ServerListenAction::<A, B>::Done(Ok(local))
        }),
{
}

/// A server that is not told to stop waits for a connection, and one that is told to stops. Where
/// accepting a connection failed, it looks again whether it is told to stop. None of that changes
/// the server or takes a tunnel id.
pub proof fn law_server_waits<S, L, H>(server: ListenerView<H>, next_id: nat, kind: IOErrorKind)
    ensures
        listener_step(server, next_id, ListenerEvent::<S, L, H>::Checked { cancelled: false }) == (
            server,
            next_id,
            ListenerAction::<S, L, CommandView>::Accept,
        ),
        listener_step(server, next_id, ListenerEvent::<S, L, H>::Checked { cancelled: true }) == (
            server,
            next_id,
            ListenerAction::<S, L, CommandView>::Stop,
        ),
        listener_step(server, next_id, ListenerEvent::<S, L, H>::Accepted(Err(kind))) == (
            server,
            next_id,
            ListenerAction::<S, L, CommandView>::Check,
        ),
{
}

/// Every connection has the proxy asked for a tunnel to the peer of the server, under the next
/// tunnel id, which is then taken. The server waits for the answer with the same connection.
pub proof fn law_connection_is_asked_for<S, L, H>(
    server: ListenerView<H>,
    next_id: nat,
    local_stream: L,
    tunnel_id: TunnelId,
)
    requires
        next_id <= usize::MAX,
        tunnel_id@ == next_id,
    ensures
        listener_step(server, next_id, ListenerEvent::<S, L, H>::Accepted(Ok(local_stream))) == (
            server,
            if next_id == usize::MAX {
                0
            } else {
                next_id + 1
            },
            ListenerAction::<S, L, CommandView>::Send {
                local_stream,
                tunnel_id,
                command: PProxyCommand::ConnectTunnel { peer_id: server.peer_id, tunnel_id },
            },
        ),
        listener_step(
            server,
            next_id,
            ListenerEvent::<S, L, H>::Sent { local_stream, tunnel_id },
        ) == (
            server,
            next_id,
            ListenerAction::<S, L, CommandView>::AwaitReply { local_stream, tunnel_id },
        ),
{
    broadcast use crate::types::lemma_tunnel_id_number;

    assert(TunnelId::numbered(tunnel_id@) == tunnel_id);
}

/// A connection is joined with a stream if and only if the proxy answered with that stream; after
/// any other end of the command the server goes on without it. Either way the server and the
/// tunnel ids stay as they are until the task runs, which is then kept under the id of the tunnel,
/// with all other tunnels as they were.
pub proof fn law_answered_connection<S, L, H>(
    server: ListenerView<H>,
    next_id: nat,
    local_stream: L,
    tunnel_id: TunnelId,
    reply: CommandReply<S>,
    listener: H,
)
    ensures
        listener_step(
            server,
            next_id,
            ListenerEvent::Replied { local_stream, tunnel_id, reply },
        ) == (
            server,
            next_id,
            match reply {
                CommandReply::Answered(Ok(PProxyCommandResponse::ConnectTunnel {
                    remote_stream,
                })) => ListenerAction::<S, L, CommandView>::Spawn {
                    tunnel_id,
                    local_stream,
                    remote_stream,
                },
                _ => ListenerAction::<S, L, CommandView>::Check,
            },
        ),
        ({
            let (after, id_after, action) = listener_step(
                server,
                next_id,
                ListenerEvent::<S, L, H>::Spawned { tunnel_id, listener },
            );
            &&& after.peer_id == server.peer_id
            &&& after.tunnels.contains_key(tunnel_id@)
            &&& after.tunnels[tunnel_id@].peer_id == server.peer_id
            &&& after.tunnels[tunnel_id@].tunnel_id == tunnel_id
            &&& after.tunnels[tunnel_id@].listener == Some(listener)
            &&& after.tunnels.remove(tunnel_id@) == server.tunnels.remove(tunnel_id@)
            &&& id_after == next_id
            &&& action is Check
        }),
{
}

/// A tunnel is cleaned up if and only if the proxy answers that it has cleaned it. The response to
/// another command is unexpected, an error of the proxy is reported as it is, and a proxy that does
/// not answer is gone.
pub proof fn law_end_of_a_cleanup<S>(
    peer_id: Seq<char>,
    tunnel_id: TunnelId,
    reply: CommandReply<S>,
)
    ensures
        tunnel_action(peer_id, tunnel_id, TunnelEvent::CleanReplied(reply)) == TunnelAction::<
            CommandView,
            Seq<char>,
        >::Finish(
            match reply {
                CommandReply::NotSent => CleanOutcome::Failed(Error::EssentialTaskClosed),
                CommandReply::Canceled => CleanOutcome::Failed(Error::EssentialTaskClosed),
                CommandReply::Answered(Err(error)) => CleanOutcome::Failed(error@),
                CommandReply::Answered(Ok(response)) => if response is CleanTunnel {
                    CleanOutcome::Cleaned
                } else {
                    CleanOutcome::Failed(Error::UnexpectedResponseType)
                },
            },
        ),
{
}

/// The view of an action is the same action, with the views of its parts.
pub proof fn law_tunnel_action_view<S, L>(
    action: ListenerAction<S, L>,
    command: PProxyCommand,
    error: Error,
)
    ensures
        action is Check ==> action@ is Check,
        action is Accept ==> action@ is Accept,
        action is Stop ==> action@ is Stop,
        action matches ListenerAction::Send { local_stream, tunnel_id, command: sent } ==> action@
            == (ListenerAction::<S, L, CommandView>::Send {
            local_stream,
            tunnel_id,
            command: sent@,
        }),
        action matches ListenerAction::AwaitReply { local_stream, tunnel_id } ==> action@ == (
        ListenerAction::<S, L, CommandView>::AwaitReply { local_stream, tunnel_id }),
        action matches ListenerAction::Spawn { tunnel_id, local_stream, remote_stream } ==> action@
            == (ListenerAction::<S, L, CommandView>::Spawn {
            tunnel_id,
            local_stream,
            remote_stream,
        }),
        TunnelAction::<PProxyCommand, String>::Copy@ is Copy,
        TunnelAction::<PProxyCommand, String>::AwaitReply@ is AwaitReply,
        (TunnelAction::<PProxyCommand, String>::SendClean { command })@ == (TunnelAction::<
            CommandView,
            Seq<char>,
        >::SendClean { command: command@ }),
        TunnelAction::<PProxyCommand, String>::Finish(CleanOutcome::Cleaned)@ == TunnelAction::<
            CommandView,
            Seq<char>,
        >::Finish(CleanOutcome::Cleaned),
        TunnelAction::<PProxyCommand, String>::Finish(CleanOutcome::Failed(error))@
            == TunnelAction::<CommandView, Seq<char>>::Finish(CleanOutcome::Failed(error@)),
{
}

} // verus!

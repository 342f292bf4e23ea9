//! The handle through which a proxy is used.
//!
//! Each request alternates between decisions and work on channels and sockets. The decisions are
//! here: each method takes what has just happened and says what is to be done next. The caller
//! does it and comes back with the outcome. `S` is the type of the streams to peers, `A` that of
//! local addresses, and `H` that of the handle of a running task.
use std::io::ErrorKind as IOErrorKind;

use vstd::prelude::*;

use crate::command::AddPeerRequest;
use crate::command::AddPeerResponse;
use crate::command::CommandReply;
use crate::command::CommandView;
use crate::command::ConnectRelayRequest;
use crate::command::ConnectRelayResponse;
use crate::command::CreateTunnelServerRequest;
use crate::command::CreateTunnelServerResponse;
use crate::command::ExpirePeerAccessRequest;
use crate::command::ExpirePeerAccessResponse;
use crate::command::PProxyCommand;
use crate::command::PProxyCommandResponse;
use crate::error::Error;
use crate::multiaddr::extract_peer_id_from_multiaddr;
use crate::multiaddr::Multiaddress;
use crate::peer_id::PeerId;
use crate::pproxy::commands::CommandActionView;
use crate::pproxy::commands::CommandOutcomes;
use crate::pproxy::PProxyView;
use crate::table::Table;
use crate::tunnel::CleanOutcome;
use crate::tunnel::ServerListenAction;
use crate::tunnel::ServerListenEvent;
use crate::tunnel::TunnelAction;
use crate::tunnel::TunnelEvent;
use crate::tunnel::TunnelIds;
use crate::tunnel::TunnelServer;
use crate::tunnel::TunnelServerView;

verus! {

/// What happens while a request is served by a command.
#[derive(Debug)]
pub enum RequestEvent<R, S> {
    /// The request has arrived.
    Requested(R),
    /// The command came to an end.
    Replied(CommandReply<S>),
}

/// What is to be done while a request is served by a command. `T` is the type of its response.
#[derive(Debug)]
pub enum RequestAction<T, Command = PProxyCommand, Text = String> {
    /// Give the command to the proxy and wait for its end.
    Send { command: Command },
    /// Nothing more.
    Done(Result<T, Error<Text>>),
}

/// The view of an action whose response has the view `T`.
pub type RequestActionView<T> = RequestAction<T, CommandView, Seq<char>>;

impl<T: View> View for RequestAction<T> {
    type V = RequestAction<T::V, CommandView, Seq<char>>;

    open spec fn view(&self) -> RequestAction<T::V, CommandView, Seq<char>> {
        match *self {
            RequestAction::Send { command } => RequestAction::Send { command: command@ },
            RequestAction::Done(Ok(response)) => RequestAction::Done(Ok(response@)),
            RequestAction::Done(Err(error)) => RequestAction::Done(Err(error@)),
        }
    }
}

/// The action that serves a request by a command, or refuses it.
pub open spec fn request_action<T>(command: Result<CommandView, Error<Seq<char>>>) -> RequestAction<
    T,
    CommandView,
    Seq<char>,
> {
    match command {
        Ok(command) => RequestAction::Send { command },
        Err(error) => RequestAction::Done(Err(error)),
    }
}

/// The view of a peer id that may be missing.
pub open spec fn peer_view(peer_id: Option<PeerId>) -> Option<Seq<char>> {
    match peer_id {
        Some(id) => Some(id@),
        None => None,
    }
}

/// The view of a text that may be missing.
pub open spec fn text_view(text: Option<String>) -> Option<Seq<char>> {
    match text {
        Some(text) => Some(text@),
        None => None,
    }
}

/// The view of a command that may be refused.
pub open spec fn command_view(command: Result<PProxyCommand, Error>) -> Result<
    CommandView,
    Error<Seq<char>>,
> {
    match command {
        Ok(command) => Ok(command@),
        Err(error) => Err(error@),
    }
}

/// The components of the address that `text` spells, if it spells one.
pub open spec fn spelled_addr(text: Seq<char>) -> Option<Seq<Seq<char>>> {
    match crate::multiaddr::parsed_components(text) {
        Ok(components) => Some(components),
        Err(_) => None,
    }
}

/// The peer id that a given text spells, if there is a text and it spells one.
pub open spec fn spelled_peer(text: Option<Seq<char>>) -> Option<Seq<char>> {
    match text {
        Some(text) => crate::peer_id::peer_id_text(text),
        None => None,
    }
}

/// The command that adds a peer. `multiaddr` is the address that the text `addr_text` spells, if
/// it does; `peer_id` is the peer id that the text `peer_text` spells, if it does. The address is
/// looked at first. Without a text for the peer id, the address has to end in one.
pub open spec fn add_peer_request(
    addr_text: Seq<char>,
    multiaddr: Option<Seq<Seq<char>>>,
    peer_text: Option<Seq<char>>,
    peer_id: Option<Seq<char>>,
) -> Result<CommandView, Error<Seq<char>>> {
    match multiaddr {
        None => Err(Error::MultiaddrParseError(addr_text)),
        Some(multiaddr) => match peer_text {
            Some(text) => match peer_id {
                None => Err(Error::PeerIdParseError(text)),
                Some(peer_id) => Ok(PProxyCommand::AddPeer { multiaddr, peer_id }),
            },
            None => match crate::multiaddr::last_peer(multiaddr) {
                None => Err(Error::FailedToExtractPeerIdFromMultiaddr(multiaddr.flatten())),
                Some(peer_id) => Ok(PProxyCommand::AddPeer { multiaddr, peer_id }),
            },
        },
    }
}

/// The command that adds a peer, out of what was read of the texts of a request.
pub fn add_peer_command(
    request: AddPeerRequest,
    multiaddr: Option<Multiaddress>,
    peer_id: Option<PeerId>,
) -> (command: Result<PProxyCommand, Error>)
    ensures
        command_view(command) == add_peer_request(
            request.multiaddr@,
            crate::multiaddr::optional_view(multiaddr),
            text_view(request.peer_id),
            peer_view(peer_id),
        ),
        multiaddr is None ==> command == Err::<PProxyCommand, _>(
            Error::<String>::MultiaddrParseError(request.multiaddr),
        ),
        multiaddr matches Some(addr) ==> request.peer_id matches Some(text) ==> command
            == match peer_id {
            Some(id) => Ok(PProxyCommand::AddPeer { multiaddr: addr, peer_id: id }),
            None => Err(Error::PeerIdParseError(text)),
        },
{
    let multiaddr = match multiaddr {
        Some(multiaddr) => multiaddr,
        None => return Err(Error::MultiaddrParseError(request.multiaddr)),
    };
    let peer_id = match request.peer_id {
        Some(text) => match peer_id {
            Some(peer_id) => peer_id,
            None => return Err(Error::PeerIdParseError(text)),
        },
        None => match extract_peer_id_from_multiaddr(&multiaddr) {
            Ok(peer_id) => peer_id,
            Err(error) => return Err(error),
        },
    };
    Ok(PProxyCommand::AddPeer { multiaddr, peer_id })
}

/// The command that connects the relay at the address that `text` spells, if it does.
pub open spec fn connect_relay_request(
    text: Seq<char>,
    multiaddr: Option<Seq<Seq<char>>>,
) -> Result<CommandView, Error<Seq<char>>> {
    match multiaddr {
        None => Err(Error::MultiaddrParseError(text)),
        Some(multiaddr) => Ok(PProxyCommand::ConnectRelay { multiaddr }),
    }
}

/// The command that connects a relay, out of what was read of the text of a request.
pub fn connect_relay_command(
    request: ConnectRelayRequest,
    multiaddr: Option<Multiaddress>,
) -> (command: Result<PProxyCommand, Error>)
    ensures
        command_view(command) == connect_relay_request(
            request.multiaddr@,
            crate::multiaddr::optional_view(multiaddr),
        ),
        command == match multiaddr {
            Some(addr) => Ok::<PProxyCommand, Error>(
                PProxyCommand::ConnectRelay { multiaddr: addr },
            ),
            None => Err(Error::MultiaddrParseError(request.multiaddr)),
        },
{
    match multiaddr {
        None => Err(Error::MultiaddrParseError(request.multiaddr)),
        Some(multiaddr) => Ok(PProxyCommand::ConnectRelay { multiaddr }),
    }
}

/// The command that lets the access of the peer that `text` spells expire, if it spells one.
pub open spec fn expire_peer_access_request(
    text: Seq<char>,
    peer_id: Option<Seq<char>>,
) -> Result<CommandView, Error<Seq<char>>> {
    match peer_id {
        None => Err(Error::PeerIdParseError(text)),
        Some(peer_id) => Ok(PProxyCommand::ExpirePeerAccess { peer_id }),
    }
}

/// The command that lets the access of a peer expire, out of what was read of the text of a
/// request.
pub fn expire_peer_access_command(
    request: ExpirePeerAccessRequest,
    peer_id: Option<PeerId>,
) -> (command: Result<PProxyCommand, Error>)
    ensures
        command_view(command) == expire_peer_access_request(request.peer_id@, peer_view(peer_id)),
        command == match peer_id {
            Some(id) => Ok::<PProxyCommand, Error>(PProxyCommand::ExpirePeerAccess { peer_id: id }),
            None => Err(Error::PeerIdParseError(request.peer_id)),
        },
{
    match peer_id {
        None => Err(Error::PeerIdParseError(request.peer_id)),
        Some(peer_id) => Ok(PProxyCommand::ExpirePeerAccess { peer_id }),
    }
}

/// What a request to add a peer is answered when its command came to an end.
pub open spec fn peer_added<S>(reply: CommandReply<S>) -> Result<
    AddPeerResponse<Seq<char>>,
    Error<Seq<char>>,
> {
    match crate::command::reply_answer(reply) {
        Ok(PProxyCommandResponse::AddPeer { peer_id }) => Ok(AddPeerResponse { peer_id }),
        Ok(_) => Err(Error::UnexpectedResponseType),
        Err(error) => Err(error),
    }
}

/// What a request to connect a relay is answered when its command came to an end.
pub open spec fn relay_connected<S>(reply: CommandReply<S>) -> Result<
    ConnectRelayResponse<Seq<char>>,
    Error<Seq<char>>,
> {
    match crate::command::reply_answer(reply) {
        Ok(PProxyCommandResponse::ConnectRelay { relaied_multiaddr }) => Ok(
            ConnectRelayResponse { relaied_multiaddr: relaied_multiaddr.flatten() },
        ),
        Ok(_) => Err(Error::UnexpectedResponseType),
        Err(error) => Err(error),
    }
}

/// What a request to let the access of a peer expire is answered when its command came to an end.
/// Any response will do.
pub open spec fn access_expired<S>(reply: CommandReply<S>) -> Result<
    ExpirePeerAccessResponse,
    Error<Seq<char>>,
> {
    match crate::command::reply_answer(reply) {
        Ok(_) => Ok(ExpirePeerAccessResponse {  }),
        Err(error) => Err(error),
    }
}

/// The peer id that `text` spells, if it spells one.
fn read_peer_id(text: &str) -> (peer_id: Option<PeerId>)
    ensures
        peer_view(peer_id) == crate::peer_id::peer_id_text(text@),
{
    match PeerId::parse(text) {
        Ok(peer_id) => Some(peer_id),
        Err(_) => None,
    }
}

/// The address that `text` spells, if it spells one.
fn read_multiaddr(text: &str) -> (multiaddr: Option<Multiaddress>)
    ensures
        crate::multiaddr::optional_view(multiaddr) == spelled_addr(text@),
{
    match Multiaddress::parse(text) {
        Ok(multiaddr) => Some(multiaddr),
        Err(_) => None,
    }
}

/// The address that a tunnel server listens on where none is given: any free local port.
pub const DEFAULT_TUNNEL_SERVER_ADDRESS: &'static str = "127.0.0.1:0";

/// What happens while a tunnel server is created.
#[derive(Debug)]
#[allow(inconsistent_fields)]
pub enum ServerRequestEvent<A, H, Server = TunnelServer<H>, Peer = PeerId, Text = String> {
    /// The request has arrived.
    Requested(CreateTunnelServerRequest<Text>),
    /// The text of the address was read as a socket address, if it spells one.
    AddressRead { peer_id: Peer, address: Text, parsed: Option<A> },
    /// A socket was bound and says where, or it was not.
    Bound { server: Server, outcome: Result<Text, IOErrorKind> },
    /// The task that accepts connections runs.
    Spawned { server: Server, address: Text, listener: H },
}

/// What is to be done while a tunnel server is created.
#[derive(Debug)]
#[allow(inconsistent_fields)]
pub enum ServerRequestAction<A, Server, Peer = PeerId, Text = String> {
    /// Read the text as a socket address.
    ReadAddress { peer_id: Peer, address: Text },
    /// Bind a socket at the address.
    Bind { server: Server, address: A },
    /// Start the task that accepts connections.
    Spawn { server: Server, address: Text },
    /// Nothing more.
    Done(Result<CreateTunnelServerResponse<Text>, Error<Text>>),
}

/// The view of an event.
pub type ServerRequestEventView<A, H> = ServerRequestEvent<
    A,
    H,
    TunnelServerView<H>,
    Seq<char>,
    Seq<char>,
>;

/// The view of an action.
pub type ServerRequestActionView<A, H> = ServerRequestAction<
    A,
    TunnelServerView<H>,
    Seq<char>,
    Seq<char>,
>;

impl<A, H> View for ServerRequestEvent<A, H> {
    type V = ServerRequestEventView<A, H>;

    open spec fn view(&self) -> ServerRequestEventView<A, H> {
        match *self {
            ServerRequestEvent::Requested(request) => ServerRequestEvent::Requested(request@),
            ServerRequestEvent::AddressRead { peer_id, address, parsed } =>
                ServerRequestEvent::AddressRead { peer_id: peer_id@, address: address@, parsed },
            ServerRequestEvent::Bound { server, outcome } => ServerRequestEvent::Bound {
                server: server@,
                outcome: match outcome {
                    Ok(address) => Ok(address@),
                    Err(kind) => Err(kind),
                },
            },
            ServerRequestEvent::Spawned { server, address, listener } =>
                ServerRequestEvent::Spawned { server: server@, address: address@, listener },
        }
    }
}

impl<A, H> View for ServerRequestAction<A, TunnelServer<H>> {
    type V = ServerRequestActionView<A, H>;

    open spec fn view(&self) -> ServerRequestActionView<A, H> {
        match *self {
            ServerRequestAction::ReadAddress { peer_id, address } =>
                ServerRequestAction::ReadAddress { peer_id: peer_id@, address: address@ },
            ServerRequestAction::Bind { server, address } => ServerRequestAction::Bind {
                server: server@,
                address,
            },
            ServerRequestAction::Spawn { server, address } => ServerRequestAction::Spawn {
                server: server@,
                address: address@,
            },
            ServerRequestAction::Done(Ok(response)) => ServerRequestAction::Done(Ok(response@)),
            ServerRequestAction::Done(Err(error)) => ServerRequestAction::Done(Err(error@)),
        }
    }
}

/// What a request for a tunnel server to the peer that its text spells, if it does, leads to.
pub open spec fn server_requested<A, H>(
    request: CreateTunnelServerRequest<Seq<char>>,
    peer_id: Option<Seq<char>>,
) -> ServerRequestActionView<A, H> {
    match peer_id {
        None => ServerRequestAction::Done(Err(Error::PeerIdParseError(request.peer_id))),
        Some(peer_id) => ServerRequestAction::ReadAddress {
            peer_id,
            address: match request.address {
                Some(address) => address,
                None => DEFAULT_TUNNEL_SERVER_ADDRESS@,
            },
        },
    }
}

/// The step of a handle that creates a tunnel server: the tunnel servers that it keeps, and what
/// is to be done.
pub open spec fn create_tunnel_server_step<A, H>(
    servers: Map<Seq<char>, TunnelServerView<H>>,
    event: ServerRequestEventView<A, H>,
) -> (Map<Seq<char>, TunnelServerView<H>>, ServerRequestActionView<A, H>) {
    match event {
        ServerRequestEvent::Requested(request) => (
            servers,
            server_requested(request, crate::peer_id::peer_id_text(request.peer_id)),
        ),
        ServerRequestEvent::AddressRead { peer_id, address, parsed } => (
            servers,
            match parsed {
                None => ServerRequestAction::Done(Err(Error::SocketAddrParseError(address))),
                Some(address) => ServerRequestAction::Bind {
                    server: TunnelServerView { peer_id, listener: None },
                    address,
                },
            },
        ),
        ServerRequestEvent::Bound { server, outcome } => (
            servers,
            match outcome {
                Err(kind) => ServerRequestAction::Done(
                    Err(Error::Tunnel(crate::error::tunnel_error_of(kind))),
                ),
                Ok(address) => ServerRequestAction::Spawn { server, address },
            },
        ),
        ServerRequestEvent::Spawned { server, address, listener } => (
            servers.insert(
                server.peer_id,
                TunnelServerView { listener: Some(listener), ..server },
            ),
            ServerRequestAction::Done(
                Ok(CreateTunnelServerResponse { peer_id: server.peer_id, address }),
            ),
        ),
    }
}

/// What a request for a tunnel server leads to, out of what was read of its peer id.
pub fn create_tunnel_server_for<A, H>(
    request: CreateTunnelServerRequest,
    peer_id: Option<PeerId>,
) -> (action: ServerRequestAction<A, TunnelServer<H>>)
    ensures
        action@ == server_requested::<A, H>(request@, peer_view(peer_id)),
        peer_id is None ==> action == ServerRequestAction::<A, TunnelServer<H>>::Done(
            Err(Error::PeerIdParseError(request.peer_id)),
        ),
        peer_id matches Some(id) ==> {
            &&& action matches ServerRequestAction::ReadAddress { peer_id: to, address: at }
            &&& to == id
            &&& match request.address {
                Some(text) => at == text,
                None => at@ == "127.0.0.1:0"@,
            }
        },
{
    match peer_id {
        None => ServerRequestAction::Done(Err(Error::PeerIdParseError(request.peer_id))),
        Some(peer_id) => {
            let address = match request.address {
                Some(address) => address,
                None => DEFAULT_TUNNEL_SERVER_ADDRESS.to_owned(),
            };
            ServerRequestAction::ReadAddress { peer_id, address }
        },
    }
}

/// The handle through which a proxy is used: it keeps the tunnel servers of the node, and the
/// sequence that they all take tunnel ids from.
pub struct PProxyHandle<H> {
    next_tunnel_id: TunnelIds,
    tunnel_servers: Table<PeerId, TunnelServer<H>>,
}

/// The view of a handle.
#[verifier::ext_equal]
pub struct PProxyHandleView<H> {
    /// The number of the next tunnel id.
    pub next_tunnel_id: nat,
    /// The tunnel servers, by the peers that they tunnel to.
    pub tunnel_servers: Map<Seq<char>, TunnelServerView<H>>,
}

impl<H> View for PProxyHandle<H> {
    type V = PProxyHandleView<H>;

    closed spec fn view(&self) -> PProxyHandleView<H> {
        PProxyHandleView {
            next_tunnel_id: self.next_tunnel_id@,
            tunnel_servers: self.tunnel_servers@,
        }
    }
}

impl<H> PProxyHandle<H> {
    /// A handle without tunnel servers, whose tunnel ids count from zero.
    pub fn new() -> (handle: Self)
        ensures
            handle@ == (PProxyHandleView {
                next_tunnel_id: 0,
                tunnel_servers: Map::<Seq<char>, TunnelServerView<H>>::empty(),
            }),
    {
        PProxyHandle { next_tunnel_id: TunnelIds::new(), tunnel_servers: Table::new() }
    }

    /// The sequence that every tunnel server of the handle takes its tunnel ids from.
    pub fn next_tunnel_id(&mut self) -> (ids: &mut TunnelIds)
        ensures
            ids@ == old(self)@.next_tunnel_id,
            final(self)@ == (PProxyHandleView {
                next_tunnel_id: final(ids)@,
                ..old(self)@
            }),
    {
        &mut self.next_tunnel_id
    }

    /// Drops the tunnel servers, each with the task that accepts its connections. The sequence of
    /// tunnel ids goes on for the tasks that have not ended yet.
    pub fn close(&mut self)
        ensures
            final(self)@ == (PProxyHandleView {
                tunnel_servers: Map::<Seq<char>, TunnelServerView<H>>::empty(),
                ..old(self)@
            }),
    {
        self.tunnel_servers = Table::new();
    }

    /// Adds a peer, step by step. The peer id in the response is read as that peer id again.
    pub fn add_peer<S>(&self, event: RequestEvent<AddPeerRequest, S>) -> (action: RequestAction<
        AddPeerResponse,
    >)
        ensures
            action@ == match event {
                RequestEvent::Requested(request) => request_action(
                    add_peer_request(
                        request.multiaddr@,
                        spelled_addr(request.multiaddr@),
                        text_view(request.peer_id),
                        spelled_peer(text_view(request.peer_id)),
                    ),
                ),
                RequestEvent::Replied(reply) => RequestAction::Done(peer_added(reply)),
            },
            action matches RequestAction::Done(Ok(response)) ==> crate::peer_id::peer_id_text(
                response.peer_id@,
            ) == Some(response.peer_id@),
    {
        match event {
            RequestEvent::Requested(request) => {
                let multiaddr = read_multiaddr(request.multiaddr.as_str());
                let peer_id = match &request.peer_id {
                    Some(text) => read_peer_id(text.as_str()),
                    None => None,
                };
                match add_peer_command(request, multiaddr, peer_id) {
                    Ok(command) => RequestAction::Send { command },
                    Err(error) => RequestAction::Done(Err(error)),
                }
            },
            RequestEvent::Replied(reply) => match reply.answer() {
                Ok(PProxyCommandResponse::AddPeer { peer_id }) => RequestAction::Done(
                    Ok(AddPeerResponse { peer_id: peer_id.to_string() }),
                ),
                Ok(_) => RequestAction::Done(Err(Error::UnexpectedResponseType)),
                Err(error) => RequestAction::Done(Err(error)),
            },
        }
    }

    /// Connects a relay, step by step.
    pub fn connect_relay<S>(&self, event: RequestEvent<ConnectRelayRequest, S>) -> (action:
        RequestAction<ConnectRelayResponse>)
        ensures
            action@ == match event {
                RequestEvent::Requested(request) => request_action(
                    connect_relay_request(request.multiaddr@, spelled_addr(request.multiaddr@)),
                ),
                RequestEvent::Replied(reply) => RequestAction::Done(relay_connected(reply)),
            },
    {
        match event {
            RequestEvent::Requested(request) => {
                let multiaddr = read_multiaddr(request.multiaddr.as_str());
                match connect_relay_command(request, multiaddr) {
                    Ok(command) => RequestAction::Send { command },
                    Err(error) => RequestAction::Done(Err(error)),
                }
            },
            RequestEvent::Replied(reply) => match reply.answer() {
                Ok(PProxyCommandResponse::ConnectRelay { relaied_multiaddr }) =>
                    RequestAction::Done(
                    Ok(ConnectRelayResponse { relaied_multiaddr: relaied_multiaddr.to_string() }),
                ),
                Ok(_) => RequestAction::Done(Err(Error::UnexpectedResponseType)),
                Err(error) => RequestAction::Done(Err(error)),
            },
        }
    }

    /// Lets the access of a peer expire, step by step.
    pub fn expire_peer_access<S>(&self, event: RequestEvent<ExpirePeerAccessRequest, S>) -> (action:
        RequestAction<ExpirePeerAccessResponse>)
        ensures
            action@ == match event {
                RequestEvent::Requested(request) => request_action(
                    expire_peer_access_request(
                        request.peer_id@,
                        crate::peer_id::peer_id_text(request.peer_id@),
                    ),
                ),
                RequestEvent::Replied(reply) => RequestAction::Done(access_expired(reply)),
            },
    {
        match event {
            RequestEvent::Requested(request) => {
                let peer_id = read_peer_id(request.peer_id.as_str());
                match expire_peer_access_command(request, peer_id) {
                    Ok(command) => RequestAction::Send { command },
                    Err(error) => RequestAction::Done(Err(error)),
                }
            },
            RequestEvent::Replied(reply) => match reply.answer() {
                Ok(_) => RequestAction::Done(Ok(ExpirePeerAccessResponse {  })),
                Err(error) => RequestAction::Done(Err(error)),
            },
        }
    }

    /// Goes on with a tunnel server that starts to listen, and keeps it once it listens.
    fn server_listened<A>(
        &mut self,
        server: TunnelServer<H>,
        action: ServerListenAction<A, String>,
    ) -> (next: ServerRequestAction<A, TunnelServer<H>>)
        ensures
            final(self)@ == (PProxyHandleView {
                tunnel_servers: if action is Done && action->Done_0 is Ok {
                    old(self)@.tunnel_servers.insert(server@.peer_id, server@)
                } else {
                    old(self)@.tunnel_servers
                },
                ..old(self)@
            }),
            next@ == match action {
                ServerListenAction::Bind { address } => ServerRequestActionView::<A, H>::Bind {
                    server: server@,
                    address,
                },
                ServerListenAction::Spawn { address } => ServerRequestActionView::<A, H>::Spawn {
                    server: server@,
                    address: address@,
                },
                ServerListenAction::Done(Ok(address)) => ServerRequestActionView::<A, H>::Done(
                    Ok(
                        CreateTunnelServerResponse {
                            peer_id: server@.peer_id,
                            address: address@,
                        },
                    ),
                ),
                ServerListenAction::Done(Err(error)) => ServerRequestActionView::<A, H>::Done(
                    Err(Error::Tunnel(error)),
                ),
            },
            next matches ServerRequestAction::Done(Ok(response)) ==> crate::peer_id::peer_id_text(
                response.peer_id@,
            ) == Some(response.peer_id@),
    {
        match action {
            ServerListenAction::Bind { address } => ServerRequestAction::Bind { server, address },
            ServerListenAction::Spawn { address } => ServerRequestAction::Spawn { server, address },
            ServerListenAction::Done(Ok(address)) => {
                let peer_id = server.peer_id();
                let response = CreateTunnelServerResponse { peer_id: peer_id.to_string(), address };
                self.tunnel_servers.insert(peer_id, server);
                ServerRequestAction::Done(Ok(response))
            },
            ServerListenAction::Done(Err(error)) => ServerRequestAction::Done(
                Err(Error::from(error)),
            ),
        }
    }

    /// Creates a tunnel server, step by step. It takes the place of an earlier one to the same
    /// peer. The peer id in the response is read as that peer id again.
    pub fn create_tunnel_server<A>(&mut self, event: ServerRequestEvent<A, H>) -> (action:
        ServerRequestAction<A, TunnelServer<H>>)
        ensures
            (final(self)@.tunnel_servers, action@) == create_tunnel_server_step(
                old(self)@.tunnel_servers,
                event@,
            ),
            final(self)@.next_tunnel_id == old(self)@.next_tunnel_id,
            action matches ServerRequestAction::Done(Ok(response)) ==> crate::peer_id::peer_id_text(
                response.peer_id@,
            ) == Some(response.peer_id@),
    {
        match event {
            ServerRequestEvent::Requested(request) => {
                let peer_id = read_peer_id(request.peer_id.as_str());
                create_tunnel_server_for(request, peer_id)
            },
            ServerRequestEvent::AddressRead { peer_id, address, parsed } => match parsed {
                None => ServerRequestAction::Done(Err(Error::SocketAddrParseError(address))),
                Some(address) => {
                    let mut server = TunnelServer::new(peer_id);
                    let action = server.listen(ServerListenEvent::Requested { address });
                    self.server_listened(server, action)
                },
            },
            ServerRequestEvent::Bound { server, outcome } => {
                let mut server = server;
                let action = server.listen(ServerListenEvent::Bound(outcome));
                self.server_listened(server, action)
            },
            ServerRequestEvent::Spawned { server, address, listener } => {
                let mut server = server;
                let action = server.listen(ServerListenEvent::Spawned { address, listener });
                self.server_listened(server, action)
            },
        }
    }
}

/// How the work that a request for a tunnel server calls for turns out.
pub struct ServerRequestOutcomes<A, H> {
    /// The socket address that the text of the address spells.
    pub parsed: Option<A>,
    /// Where a socket was bound.
    pub bound: Result<Seq<char>, IOErrorKind>,
    /// The task that accepts connections.
    pub listener: H,
}

/// What happens when an action is carried out; nothing more once the request is dealt with.
pub open spec fn server_request_event<A, H>(
    action: ServerRequestActionView<A, H>,
    outcomes: ServerRequestOutcomes<A, H>,
) -> Option<ServerRequestEventView<A, H>> {
    match action {
        ServerRequestAction::ReadAddress { peer_id, address } => Some(
            ServerRequestEvent::AddressRead { peer_id, address, parsed: outcomes.parsed },
        ),
        ServerRequestAction::Bind { server, address } => Some(
            ServerRequestEvent::Bound { server, outcome: outcomes.bound },
        ),
        ServerRequestAction::Spawn { server, address } => Some(
            ServerRequestEvent::Spawned { server, address, listener: outcomes.listener },
        ),
        ServerRequestAction::Done(result) => None,
    }
}

/// The tunnel servers and the actions that come of an event, through at most `steps` steps.
pub open spec fn server_request_run<A, H>(
    servers: Map<Seq<char>, TunnelServerView<H>>,
    event: ServerRequestEventView<A, H>,
    outcomes: ServerRequestOutcomes<A, H>,
    steps: nat,
) -> (Map<Seq<char>, TunnelServerView<H>>, Seq<ServerRequestActionView<A, H>>)
    decreases steps,
{
    if steps == 0 {
        (servers, seq![])
    } else {
        let (next, action) = create_tunnel_server_step(servers, event);
        match server_request_event(action, outcomes) {
            None => (next, seq![action]),
            Some(following) => {
                let (last, actions) = server_request_run(
                    next,
                    following,
                    outcomes,
                    (steps - 1) as nat,
                );
                (last, seq![action] + actions)
            },
        }
    }
}

/// What a request for a tunnel server is answered.
pub open spec fn server_request_result<A, H>(
    request: CreateTunnelServerRequest<Seq<char>>,
    outcomes: ServerRequestOutcomes<A, H>,
) -> Result<CreateTunnelServerResponse<Seq<char>>, Error<Seq<char>>> {
    match crate::peer_id::peer_id_text(request.peer_id) {
        None => Err(Error::PeerIdParseError(request.peer_id)),
        Some(peer_id) => if outcomes.parsed is None {
            Err(
                Error::SocketAddrParseError(
                    match request.address {
                        Some(address) => address,
                        None => DEFAULT_TUNNEL_SERVER_ADDRESS@,
                    },
                ),
            )
        } else {
            match outcomes.bound {
                Err(kind) => Err(Error::Tunnel(crate::error::tunnel_error_of(kind))),
                Ok(address) => Ok(CreateTunnelServerResponse { peer_id, address }),
            }
        },
    }
}

/// A request for a tunnel server ends with the answer that the outcomes of the work call for. It
/// is kept, listening, under the peer that the request names if and only if the answer is a
/// success; the tunnel servers to other peers stay as they are.
pub proof fn law_create_tunnel_server<A, H>(
    servers: Map<Seq<char>, TunnelServerView<H>>,
    request: CreateTunnelServerRequest<Seq<char>>,
    outcomes: ServerRequestOutcomes<A, H>,
)
    ensures
        ({
            let (after, actions) = server_request_run(
                servers,
                ServerRequestEvent::Requested(request),
                outcomes,
                4,
            );
            let result = server_request_result(request, outcomes);
            &&& actions.len() > 0
            &&& actions.last() == ServerRequestActionView::<A, H>::Done(result)
            &&& after == match result {
                Ok(response) => servers.insert(
                    response.peer_id,
                    TunnelServerView {
                        peer_id: response.peer_id,
                        listener: Some(outcomes.listener),
                    },
                ),
                Err(_) => servers,
            }
        }),
{
    reveal_with_fuel(server_request_run, 4);
}

/// Whether every tunnel server is kept under its own peer, and listens.
pub open spec fn servers_are_consistent<H>(servers: Map<Seq<char>, TunnelServerView<H>>) -> bool {
    forall|peer_id: Seq<char>| #[trigger]
        servers.contains_key(peer_id) ==> servers[peer_id].peer_id == peer_id
            && servers[peer_id].listener is Some
}

/// No step makes the tunnel servers of a handle inconsistent, and a new handle has none.
pub proof fn law_servers_stay_consistent<A, H>(
    servers: Map<Seq<char>, TunnelServerView<H>>,
    event: ServerRequestEventView<A, H>,
)
    ensures
        servers_are_consistent(Map::<Seq<char>, TunnelServerView<H>>::empty()),
        servers_are_consistent(servers) ==> servers_are_consistent(
            create_tunnel_server_step(servers, event).0,
        ),
{
}

/// The response of the proxy to the command of a request is never taken for another one's: where
/// the proxy answers at all, the request is answered with what the proxy says.
pub proof fn law_responses_are_expected<S, A, H>(
    proxy: PProxyView<A, H>,
    command: CommandView,
    outcomes: CommandOutcomes<S>,
    reply: CommandReply<S>,
)
    requires
        ({
            let actions = crate::pproxy::commands::carried_out(proxy, command, outcomes).1;
            &&& actions.len() >= 2
            &&& actions[actions.len() - 2] == CommandActionView::<S>::Answer(
                crate::command::reply_answer(reply),
            )
        }),
    ensures
        match command {
            PProxyCommand::AddPeer { multiaddr, peer_id } => peer_added(reply) == Ok::<
                _,
                Error<Seq<char>>,
            >(AddPeerResponse { peer_id }),
            PProxyCommand::ConnectRelay { multiaddr } => relay_connected(reply) == Ok::<
                _,
                Error<Seq<char>>,
            >(
                ConnectRelayResponse {
                    relaied_multiaddr: crate::multiaddr::relayed(
                        multiaddr,
                        proxy.local_peer_id,
                    ).flatten(),
                },
            ),
            PProxyCommand::ExpirePeerAccess { peer_id } => access_expired(reply) is Ok,
            PProxyCommand::CleanTunnel { peer_id, tunnel_id } => crate::tunnel::tunnel_action(
                peer_id,
                tunnel_id,
                TunnelEvent::CleanReplied(reply),
            ) == TunnelAction::<CommandView, Seq<char>>::Finish(CleanOutcome::Cleaned),
            PProxyCommand::ConnectTunnel { peer_id, tunnel_id } =>
                match crate::command::reply_answer(reply) {
                Ok(response) => response is ConnectTunnel,
                Err(error) => error is TunnelProtocolError,
            },
        },
{
    match command {
        PProxyCommand::AddPeer { multiaddr, peer_id } => {
            crate::pproxy::commands::law_add_peer(proxy, multiaddr, peer_id, outcomes);
        },
        PProxyCommand::ConnectRelay { multiaddr } => {
            crate::pproxy::commands::law_connect_relay(proxy, multiaddr, outcomes);
        },
        PProxyCommand::ExpirePeerAccess { peer_id } => {
            crate::pproxy::commands::law_expire_peer_access(proxy, peer_id, outcomes);
        },
        PProxyCommand::CleanTunnel { peer_id, tunnel_id } => {
            crate::pproxy::commands::law_clean_tunnel(proxy, peer_id, tunnel_id, outcomes);
        },
        PProxyCommand::ConnectTunnel { peer_id, tunnel_id } => {
            if proxy.known_peers.contains_key(peer_id) {
                crate::pproxy::commands::law_connect_tunnel(proxy, peer_id, tunnel_id, outcomes);
            } else {
                crate::pproxy::commands::law_unknown_peer(proxy, peer_id, tunnel_id, outcomes);
            }
        },
    }
}

/// What a request to add a peer leads to, in terms of its two texts. The address has to be
/// readable. With a text for the peer id, the peer is added at that address if and only if that
/// text is readable, whatever the address ends in. Without one, it is added if and only if the
/// address ends in a peer id, which is then the peer.
pub proof fn law_add_peer_request(request: AddPeerRequest, ending: Seq<char>)
    ensures
        ({
            let action = request_action::<AddPeerResponse<Seq<char>>>(
                add_peer_request(
                    request.multiaddr@,
                    spelled_addr(request.multiaddr@),
                    text_view(request.peer_id),
                    spelled_peer(text_view(request.peer_id)),
                ),
            );
            match crate::multiaddr::parsed_components(request.multiaddr@) {
                Err(_) => action == RequestActionView::<AddPeerResponse<Seq<char>>>::Done(
                    Err(Error::MultiaddrParseError(request.multiaddr@)),
                ),
                Ok(multiaddr) => match request.peer_id {
                    Some(text) => match crate::peer_id::peer_id_text(text@) {
                        Some(peer_id) => action == (RequestActionView::<
                            AddPeerResponse<Seq<char>>,
                        >::Send { command: PProxyCommand::AddPeer { multiaddr, peer_id } }),
                        None => action == RequestActionView::<AddPeerResponse<Seq<char>>>::Done(
                            Err(Error::PeerIdParseError(text@)),
                        ),
                    },
                    None => {
                        &&& multiaddr.len() > 0 && multiaddr.last() == "/p2p/"@ + ending ==> action
                            == (RequestActionView::<AddPeerResponse<Seq<char>>>::Send {
                            command: PProxyCommand::AddPeer { multiaddr, peer_id: ending },
                        })
                        &&& multiaddr.len() == 0 || !("/p2p/"@.is_prefix_of(multiaddr.last()))
                            ==> action == RequestActionView::<AddPeerResponse<Seq<char>>>::Done(
                            Err(Error::FailedToExtractPeerIdFromMultiaddr(multiaddr.flatten())),
                        )
                    },
                },
            }
        }),
{
    if let Ok(multiaddr) = crate::multiaddr::parsed_components(request.multiaddr@) {
        crate::multiaddr::law_last_peer(multiaddr, ending);
    }
}

/// What was read of the texts of a request to add a peer decides in the same way. Where both the
/// address and the peer id were read, the peer is added at that address, whatever the address ends
/// in, and a peer id is refused only where its text was not read.
pub proof fn law_add_peer_command(
    request: AddPeerRequest,
    multiaddr: Option<Multiaddress>,
    peer_id: Option<PeerId>,
    ending: Seq<char>,
)
    ensures
        ({
            let command = add_peer_request(
                request.multiaddr@,
                crate::multiaddr::optional_view(multiaddr),
                text_view(request.peer_id),
                peer_view(peer_id),
            );
            &&& multiaddr is None ==> command == Err::<CommandView, _>(
                Error::<Seq<char>>::MultiaddrParseError(request.multiaddr@),
            )
            &&& multiaddr matches Some(addr) ==> match (request.peer_id, peer_id) {
                (Some(_), Some(id)) => command == Ok::<_, Error<Seq<char>>>(
                    CommandView::AddPeer { multiaddr: addr@, peer_id: id@ },
                ),
                (Some(text), None) => command == Err::<CommandView, _>(
                    Error::<Seq<char>>::PeerIdParseError(text@),
                ),
                (None, _) => if addr@.len() > 0 && addr@.last() == "/p2p/"@ + ending {
                    command == Ok::<_, Error<Seq<char>>>(
                        CommandView::AddPeer { multiaddr: addr@, peer_id: ending },
                    )
                } else {
                    &&& command != Ok::<_, Error<Seq<char>>>(
                        CommandView::AddPeer { multiaddr: addr@, peer_id: ending },
                    )
                    &&& command matches Err(error) ==> error
                        == Error::<Seq<char>>::FailedToExtractPeerIdFromMultiaddr(addr@.flatten())
                },
            }
        }),
{
    if let Some(addr) = multiaddr {
        crate::multiaddr::law_last_peer(addr@, ending);
    }
}

/// A request to connect a relay is refused if and only if its text is not readable as an address;
/// otherwise the relay at the address that was read is connected.
pub proof fn law_connect_relay_request(request: ConnectRelayRequest)
    ensures
        request_action::<ConnectRelayResponse<Seq<char>>>(
            connect_relay_request(request.multiaddr@, spelled_addr(request.multiaddr@)),
        ) == match crate::multiaddr::parsed_components(request.multiaddr@) {
            Ok(multiaddr) => RequestActionView::<ConnectRelayResponse<Seq<char>>>::Send {
                command: PProxyCommand::ConnectRelay { multiaddr },
            },
            Err(_) => RequestActionView::<ConnectRelayResponse<Seq<char>>>::Done(
                Err(Error::MultiaddrParseError(request.multiaddr@)),
            ),
        },
{
}

/// A request to let the access of a peer expire is refused if and only if no peer id is read from
/// its text; for every text that a peer id is read from, the access of that peer expires.
pub proof fn law_expire_peer_access_request(request: ExpirePeerAccessRequest)
    ensures
        request_action::<ExpirePeerAccessResponse>(
            expire_peer_access_request(
                request.peer_id@,
                crate::peer_id::peer_id_text(request.peer_id@),
            ),
        ) == match crate::peer_id::peer_id_text(request.peer_id@) {
            Some(peer_id) => RequestActionView::<ExpirePeerAccessResponse>::Send {
                command: PProxyCommand::ExpirePeerAccess { peer_id },
            },
            None => RequestActionView::<ExpirePeerAccessResponse>::Done(
                Err(Error::PeerIdParseError(request.peer_id@)),
            ),
        },
{
}

/// What a request is answered when its command came to an end: the response to that very command
/// makes the answer, the response to another one is unexpected, an error of the proxy is passed on
/// as it is, and a proxy that does not answer is gone. To let access expire, any response will do.
pub proof fn law_answers_to_requests<S>(reply: CommandReply<S>)
    ensures
        match reply {
            CommandReply::Answered(Ok(response)) => {
                &&& access_expired(reply) is Ok
                &&& response matches PProxyCommandResponse::AddPeer { peer_id } ==> peer_added(
                    reply,
                ) == Ok::<_, Error<Seq<char>>>(AddPeerResponse { peer_id: peer_id@ })
                &&& !(response is AddPeer) ==> peer_added(reply) == Err::<
                    AddPeerResponse<Seq<char>>,
                    _,
                >(Error::<Seq<char>>::UnexpectedResponseType)
                &&& response matches PProxyCommandResponse::ConnectRelay { relaied_multiaddr }
                    ==> relay_connected(reply) == Ok::<_, Error<Seq<char>>>(
                    ConnectRelayResponse { relaied_multiaddr: relaied_multiaddr@.flatten() },
                )
                &&& !(response is ConnectRelay) ==> relay_connected(reply) == Err::<
                    ConnectRelayResponse<Seq<char>>,
                    _,
                >(Error::<Seq<char>>::UnexpectedResponseType)
            },
            CommandReply::Answered(Err(error)) => {
                &&& peer_added(reply) == Err::<AddPeerResponse<Seq<char>>, _>(error@)
                &&& relay_connected(reply) == Err::<ConnectRelayResponse<Seq<char>>, _>(error@)
                &&& access_expired(reply) == Err::<ExpirePeerAccessResponse, _>(error@)
            },
            _ => {
                let gone = Error::<Seq<char>>::EssentialTaskClosed;
                &&& peer_added(reply) == Err::<AddPeerResponse<Seq<char>>, _>(gone)
                &&& relay_connected(reply) == Err::<ConnectRelayResponse<Seq<char>>, _>(gone)
                &&& access_expired(reply) == Err::<ExpirePeerAccessResponse, _>(gone)
            },
        },
{
}

/// A request for a tunnel server whose text is not readable as a peer id is refused before anything
/// is done.
pub proof fn law_tunnel_server_to_nobody<A, H>(
    servers: Map<Seq<char>, TunnelServerView<H>>,
    request: CreateTunnelServerRequest,
    outcomes: ServerRequestOutcomes<A, H>,
)
    requires
        crate::peer_id::peer_id_text(request.peer_id@) is None,
    ensures
        server_request_run(servers, ServerRequestEvent::Requested(request@), outcomes, 4) == (
            servers,
            seq![
                ServerRequestActionView::<A, H>::Done(
                    Err(Error::PeerIdParseError(request.peer_id@)),
                ),
            ],
        ),
{
    reveal_with_fuel(server_request_run, 1);
}

/// A request for a tunnel server to a peer has exactly the text of its address read, and any free
/// local port where it has none. What was read is bound, and where the socket was bound the server
/// is started there, kept for the peer with its task, and answered with the place of the socket.
/// The first failure is the answer, and then no server is kept. Servers to other peers stay.
pub proof fn law_tunnel_server_listens_where_asked<A, H>(
    servers: Map<Seq<char>, TunnelServerView<H>>,
    request: CreateTunnelServerRequest,
    peer_id: Seq<char>,
    address: Seq<char>,
    outcomes: ServerRequestOutcomes<A, H>,
)
    requires
        crate::peer_id::peer_id_text(request.peer_id@) == Some(peer_id),
        request.address matches Some(text) ==> address == text@,
        request.address is None ==> address == "127.0.0.1:0"@,
    ensures
        ({
            let (after, actions) = server_request_run(
                servers,
                ServerRequestEvent::Requested(request@),
                outcomes,
                4,
            );
            &&& actions.len() >= 2
            &&& actions[0] == (ServerRequestActionView::<A, H>::ReadAddress { peer_id, address })
            &&& outcomes.parsed is None ==> actions.len() == 2 && actions[1]
                == ServerRequestActionView::<A, H>::Done(Err(Error::SocketAddrParseError(address)))
            &&& outcomes.parsed matches Some(parsed) ==> {
                &&& actions.len() >= 3
                &&& actions[1] matches ServerRequestAction::Bind { server, address: bound }
                &&& server.peer_id == peer_id
                &&& server.listener is None
                &&& bound == parsed
                &&& match outcomes.bound {
                    Err(kind) => actions.len() == 3 && actions[2] == ServerRequestActionView::<
                        A,
                        H,
                    >::Done(Err(Error::Tunnel(crate::error::tunnel_error_of(kind)))),
                    Ok(place) => {
                        &&& actions.len() == 4
                        &&& actions[2] == (ServerRequestActionView::<A, H>::Spawn {
                            server,
                            address: place,
                        })
                        &&& actions[3] == ServerRequestActionView::<A, H>::Done(
                            Ok(CreateTunnelServerResponse { peer_id, address: place }),
                        )
                    },
                }
            }
            &&& if outcomes.parsed is Some && outcomes.bound is Ok {
                &&& after.contains_key(peer_id)
                &&& after[peer_id].peer_id == peer_id
                &&& after[peer_id].listener == Some(outcomes.listener)
                &&& after.remove(peer_id) == servers.remove(peer_id)
            } else {
                after == servers
            }
        }),
{
    reveal_with_fuel(server_request_run, 4);
}

/// The view of an action is the same action, with the views of its parts.
pub proof fn law_request_action_view<T: View>(
    command: PProxyCommand,
    response: T,
    error: Error,
)
    ensures
        (RequestAction::<T>::Send { command })@ == (RequestActionView::<T::V>::Send {
            command: command@,
        }),
        RequestAction::<T>::Done(Ok(response))@ == RequestActionView::<T::V>::Done(Ok(response@)),
        RequestAction::<T>::Done(Err(error))@ == RequestActionView::<T::V>::Done(Err(error@)),
        command_view(Ok(command)) == Ok::<_, Error<Seq<char>>>(command@),
        command_view(Err(error)) == Err::<CommandView, _>(error@),
{
}

/// The view of a request or a response is the same, with the views of its texts, and what is
/// missing is missing in the view.
pub proof fn law_texts_are_shown(peer_id: String, address: String, id: PeerId, addr: Multiaddress)
    ensures
        (CreateTunnelServerRequest { peer_id, address: Some(address) })@ == (
        CreateTunnelServerRequest { peer_id: peer_id@, address: Some(address@) }),
        (CreateTunnelServerRequest { peer_id, address: None })@ == (CreateTunnelServerRequest {
            peer_id: peer_id@,
            address: None,
        }),
        (CreateTunnelServerResponse { peer_id, address })@ == (CreateTunnelServerResponse {
            peer_id: peer_id@,
            address: address@,
        }),
        (AddPeerResponse { peer_id })@ == (AddPeerResponse { peer_id: peer_id@ }),
        (ConnectRelayResponse { relaied_multiaddr: address })@ == (ConnectRelayResponse {
            relaied_multiaddr: address@,
        }),
        text_view(Some(address)) == Some(address@),
        text_view(None) is None,
        peer_view(Some(id)) == Some(id@),
        peer_view(None) is None,
        crate::multiaddr::optional_view(Some(addr)) == Some(addr@),
        crate::multiaddr::optional_view(None) is None,
{
}

/// The view of an event is the same event, with the views of its parts, and so is the view of an
/// action.
pub proof fn law_server_request_view<A, H>(
    request: CreateTunnelServerRequest,
    peer_id: PeerId,
    text: String,
    parsed: Option<A>,
    address: A,
    server: TunnelServer<H>,
    kind: IOErrorKind,
    listener: H,
    response: CreateTunnelServerResponse,
    error: Error,
)
    ensures
        ServerRequestEvent::<A, H>::Requested(request)@ == ServerRequestEventView::<
            A,
            H,
        >::Requested(request@),
        (ServerRequestEvent::<A, H>::AddressRead { peer_id, address: text, parsed })@ == (
        ServerRequestEventView::<A, H>::AddressRead {
            peer_id: peer_id@,
            address: text@,
            parsed,
        }),
        (ServerRequestEvent::<A, H>::Bound { server, outcome: Ok(text) })@ == (
        ServerRequestEventView::<A, H>::Bound { server: server@, outcome: Ok(text@) }),
        (ServerRequestEvent::<A, H>::Bound { server, outcome: Err(kind) })@ == (
        ServerRequestEventView::<A, H>::Bound { server: server@, outcome: Err(kind) }),
        (ServerRequestEvent::<A, H>::Spawned { server, address: text, listener })@ == (
        ServerRequestEventView::<A, H>::Spawned { server: server@, address: text@, listener }),
        (ServerRequestAction::<A, TunnelServer<H>>::ReadAddress { peer_id, address: text })@ == (
        ServerRequestActionView::<A, H>::ReadAddress { peer_id: peer_id@, address: text@ }),
        (ServerRequestAction::<A, TunnelServer<H>>::Bind { server, address })@ == (
        ServerRequestActionView::<A, H>::Bind { server: server@, address }),
        (ServerRequestAction::<A, TunnelServer<H>>::Spawn { server, address: text })@ == (
        ServerRequestActionView::<A, H>::Spawn { server: server@, address: text@ }),
        ServerRequestAction::<A, TunnelServer<H>>::Done(Ok(response))@
            == ServerRequestActionView::<A, H>::Done(Ok(response@)),
        ServerRequestAction::<A, TunnelServer<H>>::Done(Err(error))@ == ServerRequestActionView::<
            A,
            H,
        >::Done(Err(error@)),
{
}

/// What happens after an action is how that piece of work turned out, about the same peer, text and
/// server, and about no other piece of work. After the last action nothing happens.
pub proof fn law_what_follows_an_action<A, H>(
    peer_id: Seq<char>,
    text: Seq<char>,
    server: TunnelServerView<H>,
    address: A,
    result: Result<CreateTunnelServerResponse<Seq<char>>, Error<Seq<char>>>,
    outcomes: ServerRequestOutcomes<A, H>,
)
    ensures
        server_request_event(
            ServerRequestActionView::<A, H>::ReadAddress { peer_id, address: text },
            outcomes,
        ) == Some(
            ServerRequestEventView::<A, H>::AddressRead {
                peer_id,
                address: text,
                parsed: outcomes.parsed,
            },
        ),
        server_request_event(ServerRequestActionView::<A, H>::Bind { server, address }, outcomes)
            == Some(
            ServerRequestEventView::<A, H>::Bound { server, outcome: outcomes.bound },
        ),
        server_request_event(
            ServerRequestActionView::<A, H>::Spawn { server, address: text },
            outcomes,
        ) == Some(
            ServerRequestEventView::<A, H>::Spawned {
                server,
                address: text,
                listener: outcomes.listener,
            },
        ),
        server_request_event(ServerRequestActionView::<A, H>::Done(result), outcomes) is None,
{
}

/// A run is one step after another: its first action is that of the step on its first event, and
/// what follows is the run of what happens after that action, with the servers that the step left.
pub proof fn law_run_of_a_request<A, H>(
    servers: Map<Seq<char>, TunnelServerView<H>>,
    event: ServerRequestEventView<A, H>,
    outcomes: ServerRequestOutcomes<A, H>,
    steps: nat,
)
    ensures
        ({
            let (next, action) = create_tunnel_server_step(servers, event);
            let (last, actions) = server_request_run(servers, event, outcomes, steps + 1);
            &&& actions.len() > 0
            &&& actions[0] == action
            &&& match server_request_event(action, outcomes) {
                Some(following) => {
                    let rest = server_request_run(next, following, outcomes, steps);
                    last == rest.0 && actions.skip(1) == rest.1
                },
                None => last == next && actions.len() == 1,
            }
        }),
{
    let (next, action) = create_tunnel_server_step(servers, event);
    if let Some(following) = server_request_event(action, outcomes) {
        let rest = server_request_run(next, following, outcomes, steps).1;
        assert((seq![action] + rest).skip(1) =~= rest);
    }
}

} // verus!

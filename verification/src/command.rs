//! Commands to the proxy and their responses.
use vstd::prelude::*;

use crate::error::Error;
use crate::multiaddr::Multiaddress;
use crate::peer_id::PeerId;
use crate::types::TunnelId;

verus! {

/// What the proxy can be told to do.
///
/// `Peer` and `Addr` are the types of the peer ids and addresses in it: those of this library in a
/// value, texts and components in the view of one.
#[derive(Debug)]
pub enum PProxyCommand<Peer = PeerId, Addr = Multiaddress> {
    AddPeer { multiaddr: Addr, peer_id: Peer },
    ConnectRelay { multiaddr: Addr },
    ConnectTunnel { peer_id: Peer, tunnel_id: TunnelId },
    CleanTunnel { peer_id: Peer, tunnel_id: TunnelId },
    ExpirePeerAccess { peer_id: Peer },
}

/// The view of a command.
pub type CommandView = PProxyCommand<Seq<char>, Seq<Seq<char>>>;

impl View for PProxyCommand {
    type V = CommandView;

    open spec fn view(&self) -> CommandView {
        match *self {
            PProxyCommand::AddPeer { multiaddr, peer_id } => PProxyCommand::AddPeer {
                multiaddr: multiaddr@,
                peer_id: peer_id@,
            },
            PProxyCommand::ConnectRelay { multiaddr } => PProxyCommand::ConnectRelay {
                multiaddr: multiaddr@,
            },
            PProxyCommand::ConnectTunnel { peer_id, tunnel_id } => PProxyCommand::ConnectTunnel {
                peer_id: peer_id@,
                tunnel_id,
            },
            PProxyCommand::CleanTunnel { peer_id, tunnel_id } => PProxyCommand::CleanTunnel {
                peer_id: peer_id@,
                tunnel_id,
            },
            PProxyCommand::ExpirePeerAccess { peer_id } => PProxyCommand::ExpirePeerAccess {
                peer_id: peer_id@,
            },
        }
    }
}

/// What a command that succeeded is answered. `S` is the type of the streams to peers.
#[derive(Debug)]
pub enum PProxyCommandResponse<S, Peer = PeerId, Addr = Multiaddress> {
    AddPeer { peer_id: Peer },
    ConnectRelay { relaied_multiaddr: Addr },
    ConnectTunnel { remote_stream: S },
    CleanTunnel {},
    ExpirePeerAccess {},
}

/// The view of a response.
pub type ResponseView<S> = PProxyCommandResponse<S, Seq<char>, Seq<Seq<char>>>;

impl<S> View for PProxyCommandResponse<S> {
    type V = ResponseView<S>;

    open spec fn view(&self) -> ResponseView<S> {
        match *self {
            PProxyCommandResponse::AddPeer { peer_id } => PProxyCommandResponse::AddPeer {
                peer_id: peer_id@,
            },
            PProxyCommandResponse::ConnectRelay { relaied_multiaddr } =>
                PProxyCommandResponse::ConnectRelay { relaied_multiaddr: relaied_multiaddr@ },
            PProxyCommandResponse::ConnectTunnel { remote_stream } =>
                PProxyCommandResponse::ConnectTunnel { remote_stream },
            PProxyCommandResponse::CleanTunnel {  } => PProxyCommandResponse::CleanTunnel {  },
            PProxyCommandResponse::ExpirePeerAccess {  } =>
                PProxyCommandResponse::ExpirePeerAccess {  },
        }
    }
}

/// The answer to a command: its response, or why it failed.
pub type Answer<S> = Result<PProxyCommandResponse<S>, Error>;

/// The view of an answer.
pub type AnswerView<S> = Result<ResponseView<S>, Error<Seq<char>>>;

/// The view of an answer.
pub open spec fn answer_view<S>(answer: Answer<S>) -> AnswerView<S> {
    match answer {
        Ok(response) => Ok(response@),
        Err(error) => Err(error@),
    }
}

/// The view of a result whose value has no parts to view.
pub open spec fn outcome_view<T>(outcome: Result<T, Error>) -> Result<T, Error<Seq<char>>> {
    match outcome {
        Ok(value) => Ok(value),
        Err(error) => Err(error@),
    }
}

/// What comes of a command that was handed to the proxy.
#[derive(Debug)]
pub enum CommandReply<S> {
    /// The proxy is gone: the command could not be sent.
    NotSent,
    /// The proxy dropped the command without an answer.
    Canceled,
    /// The proxy answered.
    Answered(Answer<S>),
}

/// The view of what comes of a command.
pub open spec fn reply_answer<S>(reply: CommandReply<S>) -> AnswerView<S> {
    match reply {
        CommandReply::NotSent => Err(Error::EssentialTaskClosed),
        CommandReply::Canceled => Err(Error::EssentialTaskClosed),
        CommandReply::Answered(answer) => answer_view(answer),
    }
}

impl<S> CommandReply<S> {
    /// The answer, where a proxy that gave none counts as gone.
    pub fn answer(self) -> (answer: Answer<S>)
        ensures
            answer_view(answer) == reply_answer(self),
    {
        match self {
            CommandReply::NotSent => Err(Error::EssentialTaskClosed),
            CommandReply::Canceled => Err(Error::EssentialTaskClosed),
            CommandReply::Answered(answer) => answer,
        }
    }
}

/// Asks to remember the address of a peer.
#[derive(Debug)]
pub struct AddPeerRequest {
    pub multiaddr: String,
    /// Taken from the end of the address where it is missing.
    pub peer_id: Option<String>,
}

/// Names the peer that was added. `Text` is `String` in a value, `Seq<char>` in its view.
#[derive(Debug)]
pub struct AddPeerResponse<Text = String> {
    pub peer_id: Text,
}

impl View for AddPeerResponse {
    type V = AddPeerResponse<Seq<char>>;

    open spec fn view(&self) -> AddPeerResponse<Seq<char>> {
        AddPeerResponse { peer_id: self.peer_id@ }
    }
}

/// Asks for a local server whose connections are tunneled to a peer. `Text` is `String` in a value,
/// `Seq<char>` in its view.
#[derive(Debug)]
pub struct CreateTunnelServerRequest<Text = String> {
    pub peer_id: Text,
    /// The address to listen on; any free local port where it is missing.
    pub address: Option<Text>,
}

impl View for CreateTunnelServerRequest {
    type V = CreateTunnelServerRequest<Seq<char>>;

    open spec fn view(&self) -> CreateTunnelServerRequest<Seq<char>> {
        CreateTunnelServerRequest {
            peer_id: self.peer_id@,
            address: match self.address {
                Some(address) => Some(address@),
                None => None,
            },
        }
    }
}

/// Says where the local server listens. `Text` is `String` in a value, `Seq<char>` in its view.
#[derive(Debug)]
pub struct CreateTunnelServerResponse<Text = String> {
    pub peer_id: Text,
    pub address: Text,
}

impl View for CreateTunnelServerResponse {
    type V = CreateTunnelServerResponse<Seq<char>>;

    open spec fn view(&self) -> CreateTunnelServerResponse<Seq<char>> {
        CreateTunnelServerResponse { peer_id: self.peer_id@, address: self.address@ }
    }
}

/// Asks to be reachable through a relay.
#[derive(Debug)]
pub struct ConnectRelayRequest {
    pub multiaddr: String,
}

/// Says under which address the relay makes the node reachable. `Text` is `String` in a value,
/// `Seq<char>` in its view.
#[derive(Debug)]
pub struct ConnectRelayResponse<Text = String> {
    pub relaied_multiaddr: Text,
}

impl View for ConnectRelayResponse {
    type V = ConnectRelayResponse<Seq<char>>;

    open spec fn view(&self) -> ConnectRelayResponse<Seq<char>> {
        ConnectRelayResponse { relaied_multiaddr: self.relaied_multiaddr@ }
    }
}

/// Asks to forget that a peer has access.
#[derive(Debug)]
pub struct ExpirePeerAccessRequest {
    pub peer_id: String,
}

/// Says that the access is forgotten.
#[derive(Debug)]
pub struct ExpirePeerAccessResponse {}

impl View for ExpirePeerAccessResponse {
    type V = ExpirePeerAccessResponse;

    open spec fn view(&self) -> ExpirePeerAccessResponse {
        *self
    }
}

/// A command that was not sent, or not answered, fails because the proxy is gone. One that was
/// answered is answered with exactly what the proxy said.
pub proof fn law_reply_answer<S>(reply: CommandReply<S>)
    ensures
        reply is NotSent || reply is Canceled ==> reply_answer(reply) == Err::<ResponseView<S>, _>(
            Error::<Seq<char>>::EssentialTaskClosed,
        ),
        reply matches CommandReply::Answered(Ok(response)) ==> reply_answer(reply) == Ok::<
            _,
            Error<Seq<char>>,
        >(response@),
        reply matches CommandReply::Answered(Err(error)) ==> reply_answer(reply) == Err::<
            ResponseView<S>,
            _,
        >(error@),
{
}

/// The view of a command is the same command, with the views of its parts.
pub proof fn law_command_view(command: PProxyCommand)
    ensures
        command matches PProxyCommand::AddPeer { multiaddr, peer_id } ==> command@ == (
        CommandView::AddPeer { multiaddr: multiaddr@, peer_id: peer_id@ }),
        command matches PProxyCommand::ConnectRelay { multiaddr } ==> command@ == (
        CommandView::ConnectRelay { multiaddr: multiaddr@ }),
        command matches PProxyCommand::ConnectTunnel { peer_id, tunnel_id } ==> command@ == (
        CommandView::ConnectTunnel { peer_id: peer_id@, tunnel_id }),
        command matches PProxyCommand::CleanTunnel { peer_id, tunnel_id } ==> command@ == (
        CommandView::CleanTunnel { peer_id: peer_id@, tunnel_id }),
        command matches PProxyCommand::ExpirePeerAccess { peer_id } ==> command@ == (
        CommandView::ExpirePeerAccess { peer_id: peer_id@ }),
{
}

/// The view of a response is the same response, with the views of its parts, and the view of a
/// result keeps what it is a result of.
pub proof fn law_response_view<S, T>(
    response: PProxyCommandResponse<S>,
    error: Error,
    value: T,
)
    ensures
        response matches PProxyCommandResponse::AddPeer { peer_id } ==> response@ == (
        ResponseView::<S>::AddPeer { peer_id: peer_id@ }),
        response matches PProxyCommandResponse::ConnectRelay { relaied_multiaddr } ==> response@
            == (ResponseView::<S>::ConnectRelay { relaied_multiaddr: relaied_multiaddr@ }),
        response matches PProxyCommandResponse::ConnectTunnel { remote_stream } ==> response@ == (
        ResponseView::<S>::ConnectTunnel { remote_stream }),
        response is CleanTunnel ==> response@ is CleanTunnel,
        response is ExpirePeerAccess ==> response@ is ExpirePeerAccess,
        answer_view(Ok::<_, Error>(response)) == Ok::<_, Error<Seq<char>>>(response@),
        answer_view(Err::<PProxyCommandResponse<S>, _>(error)) == Err::<ResponseView<S>, _>(
            error@,
        ),
        outcome_view(Ok::<_, Error>(value)) == Ok::<_, Error<Seq<char>>>(value),
        outcome_view(Err::<T, _>(error)) == Err::<T, _>(error@),
{
}

} // verus!

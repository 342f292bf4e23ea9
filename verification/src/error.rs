//! Errors of the proxy and of its tunnels.
use std::io::ErrorKind as IOErrorKind;

use vstd::prelude::*;

use crate::types::TunnelReply;

verus! {

/// std's categories of I/O errors, with their variants.
#[verifier::external_type_specification]
pub struct ExErrorKind(std::io::ErrorKind);

/// What can go wrong in the proxy.
///
/// `Text` is the type of the texts that an error carries: `String` in a value, `Seq<char>` in the
/// view of one.
#[derive(Debug)]
#[non_exhaustive]
pub enum Error<Text = String> {
    /// The text is not a multiaddr.
    MultiaddrParseError(Text),
    /// The text is not a socket address.
    SocketAddrParseError(Text),
    /// The multiaddr does not end in a peer id.
    FailedToExtractPeerIdFromMultiaddr(Text),
    /// The text is not a peer id.
    PeerIdParseError(Text),
    /// The text is not a tunnel id.
    TunnelIdParseError(Text),
    /// The other end of a channel is gone.
    EssentialTaskClosed,
    /// The litep2p node failed.
    Litep2p(Text),
    /// A litep2p request failed.
    Litep2pRequestResponseError(Text),
    /// The swarm could not be created.
    Libp2pSwarmCreateError(Text),
    /// A peer could not be dialed.
    Libp2pDialError(Text),
    /// An address could not be listened on.
    Libp2pTransportError(Text),
    /// A stream to a peer could not be opened.
    Libp2pOpenStreamError(Text),
    /// The request needs something that this node does not offer.
    ProtocolNotSupport(Text),
    /// A command was answered with the response to another one.
    UnexpectedResponseType,
    /// Nobody waits for the tunnel.
    TunnelNotWaiting(Text),
    /// The tunnel could not be dialed.
    TunnelDialFailed(Text),
    /// The tunnel failed.
    Tunnel(TunnelError),
    /// A tunnel header was refused, or refused this node's request.
    TunnelProtocolError(TunnelProtocolError),
    /// The bytes are not the expected protobuf message.
    ProtobufDecode(Text),
    /// The peer may not open tunnels.
    AccessDenied(Text),
    /// No address is known for the peer.
    UnknownPeer(Text),
    /// Reading, writing or closing a stream failed.
    Io(IOErrorKind),
}

impl View for Error {
    type V = Error<Seq<char>>;

    open spec fn view(&self) -> Error<Seq<char>> {
        match *self {
            Error::MultiaddrParseError(text) => Error::MultiaddrParseError(text@),
            Error::SocketAddrParseError(text) => Error::SocketAddrParseError(text@),
            Error::FailedToExtractPeerIdFromMultiaddr(text) =>
                Error::FailedToExtractPeerIdFromMultiaddr(text@),
            Error::PeerIdParseError(text) => Error::PeerIdParseError(text@),
            Error::TunnelIdParseError(text) => Error::TunnelIdParseError(text@),
            Error::EssentialTaskClosed => Error::EssentialTaskClosed,
            Error::Litep2p(text) => Error::Litep2p(text@),
            Error::Litep2pRequestResponseError(text) => Error::Litep2pRequestResponseError(text@),
            Error::Libp2pSwarmCreateError(text) => Error::Libp2pSwarmCreateError(text@),
            Error::Libp2pDialError(text) => Error::Libp2pDialError(text@),
            Error::Libp2pTransportError(text) => Error::Libp2pTransportError(text@),
            Error::Libp2pOpenStreamError(text) => Error::Libp2pOpenStreamError(text@),
            Error::ProtocolNotSupport(text) => Error::ProtocolNotSupport(text@),
            Error::UnexpectedResponseType => Error::UnexpectedResponseType,
            Error::TunnelNotWaiting(text) => Error::TunnelNotWaiting(text@),
            Error::TunnelDialFailed(text) => Error::TunnelDialFailed(text@),
            Error::Tunnel(error) => Error::Tunnel(error),
            Error::TunnelProtocolError(error) => Error::TunnelProtocolError(error),
            Error::ProtobufDecode(text) => Error::ProtobufDecode(text@),
            Error::AccessDenied(text) => Error::AccessDenied(text@),
            Error::UnknownPeer(text) => Error::UnknownPeer(text@),
            Error::Io(kind) => Error::Io(kind),
        }
    }
}

/// General categories of tunnel errors, like [std::io::ErrorKind].
#[derive(Debug, Clone, Copy, PartialEq, Eq, Structural)]
#[non_exhaustive]
pub enum TunnelError {
    /// Failed to send data to peer.
    DataSendFailed,
    /// The connection timed out when dialing.
    ConnectionTimeout,
    /// Got [std::io::ErrorKind::ConnectionRefused] error from local stream.
    ConnectionRefused,
    /// Got [std::io::ErrorKind::ConnectionAborted] error from local stream.
    ConnectionAborted,
    /// Got [std::io::ErrorKind::ConnectionReset] error from local stream.
    ConnectionReset,
    /// Got [std::io::ErrorKind::NotConnected] error from local stream.
    NotConnected,
    /// The connection is closed by peer.
    ConnectionClosed,
    /// A socket address could not be bound because the address is already in
    /// use elsewhere.
    AddrInUse,
    /// Tunnel already listened.
    TunnelInUse,
    /// Unknown [std::io::ErrorKind] error.
    Unknown,
}

impl TunnelError {
    /// The number of the category.
    pub open spec fn number(self) -> u8 {
        match self {
            TunnelError::DataSendFailed => 1,
            TunnelError::ConnectionTimeout => 2,
            TunnelError::ConnectionRefused => 3,
            TunnelError::ConnectionAborted => 4,
            TunnelError::ConnectionReset => 5,
            TunnelError::NotConnected => 6,
            TunnelError::ConnectionClosed => 7,
            TunnelError::AddrInUse => 8,
            TunnelError::TunnelInUse => 9,
            TunnelError::Unknown => u8::MAX,
        }
    }

    /// The number of the category.
    pub fn as_u8(self) -> (number: u8)
        ensures
            number == self.number(),
    {
        match self {
            TunnelError::DataSendFailed => 1,
            TunnelError::ConnectionTimeout => 2,
            TunnelError::ConnectionRefused => 3,
            TunnelError::ConnectionAborted => 4,
            TunnelError::ConnectionReset => 5,
            TunnelError::NotConnected => 6,
            TunnelError::ConnectionClosed => 7,
            TunnelError::AddrInUse => 8,
            TunnelError::TunnelInUse => 9,
            TunnelError::Unknown => u8::MAX,
        }
    }
}

/// What can be wrong with a tunnel header, or what a peer answers in one.
#[derive(Debug, Clone, Copy, PartialEq, Eq)]
pub enum TunnelProtocolError {
    /// The header could not be read.
    IoError(IOErrorKind),
    /// The header is of another version of the protocol.
    UnsupportedTunnelVersion(u8),
    /// The byte stands for no command.
    UnsupportedCommand(u8),
    /// The peer did not accept the request.
    TunnelReply(TunnelReply),
}

/// The tunnel error for a category of I/O errors.
pub open spec fn tunnel_error_of(kind: IOErrorKind) -> TunnelError {
    match kind {
        IOErrorKind::ConnectionRefused => TunnelError::ConnectionRefused,
        IOErrorKind::ConnectionAborted => TunnelError::ConnectionAborted,
        IOErrorKind::ConnectionReset => TunnelError::ConnectionReset,
        IOErrorKind::NotConnected => TunnelError::NotConnected,
        IOErrorKind::AddrInUse => TunnelError::AddrInUse,
        _ => TunnelError::Unknown,
    }
}

impl From<IOErrorKind> for TunnelError {
    fn from(kind: IOErrorKind) -> (error: TunnelError) {
        match kind {
            IOErrorKind::ConnectionRefused => TunnelError::ConnectionRefused,
            IOErrorKind::ConnectionAborted => TunnelError::ConnectionAborted,
            IOErrorKind::ConnectionReset => TunnelError::ConnectionReset,
            IOErrorKind::NotConnected => TunnelError::NotConnected,
            IOErrorKind::AddrInUse => TunnelError::AddrInUse,
            _ => TunnelError::Unknown,
        }
    }
}

impl vstd::std_specs::convert::FromSpecImpl<IOErrorKind> for TunnelError {
    open spec fn obeys_from_spec() -> bool {
        true
    }

    open spec fn from_spec(kind: IOErrorKind) -> TunnelError {
        tunnel_error_of(kind)
    }
}

impl From<TunnelError> for Error {
    fn from(error: TunnelError) -> (wrapped: Error) {
        Error::Tunnel(error)
    }
}

impl vstd::std_specs::convert::FromSpecImpl<TunnelError> for Error {
    open spec fn obeys_from_spec() -> bool {
        true
    }

    open spec fn from_spec(error: TunnelError) -> Error {
        Error::Tunnel(error)
    }
}

impl From<TunnelProtocolError> for Error {
    fn from(error: TunnelProtocolError) -> (wrapped: Error) {
        Error::TunnelProtocolError(error)
    }
}

impl vstd::std_specs::convert::FromSpecImpl<TunnelProtocolError> for Error {
    open spec fn obeys_from_spec() -> bool {
        true
    }

    open spec fn from_spec(error: TunnelProtocolError) -> Error {
        Error::TunnelProtocolError(error)
    }
}

/// Different categories have different numbers.
pub proof fn law_tunnel_error_numbers(a: TunnelError, b: TunnelError)
    ensures
        a.number() == b.number() <==> a == b,
{
}

/// The numbers of the categories.
pub proof fn law_tunnel_error_number()
    ensures
        TunnelError::DataSendFailed.number() == 1,
        TunnelError::ConnectionTimeout.number() == 2,
        TunnelError::ConnectionRefused.number() == 3,
        TunnelError::ConnectionAborted.number() == 4,
        TunnelError::ConnectionReset.number() == 5,
        TunnelError::NotConnected.number() == 6,
        TunnelError::ConnectionClosed.number() == 7,
        TunnelError::AddrInUse.number() == 8,
        TunnelError::TunnelInUse.number() == 9,
        TunnelError::Unknown.number() == 255,
{
}

/// A tunnel error names the category of I/O errors that it comes from, where tunnel errors have
/// that category; any other I/O error is an unknown one. No I/O error counts as anything else.
pub proof fn law_tunnel_error_of_io_error(kind: IOErrorKind)
    ensures
        tunnel_error_of(kind) is ConnectionRefused <==> kind is ConnectionRefused,
        tunnel_error_of(kind) is ConnectionAborted <==> kind is ConnectionAborted,
        tunnel_error_of(kind) is ConnectionReset <==> kind is ConnectionReset,
        tunnel_error_of(kind) is NotConnected <==> kind is NotConnected,
        tunnel_error_of(kind) is AddrInUse <==> kind is AddrInUse,
        tunnel_error_of(kind) is Unknown <==> !(kind is ConnectionRefused)
            && !(kind is ConnectionAborted) && !(kind is ConnectionReset)
            && !(kind is NotConnected) && !(kind is AddrInUse),
        <TunnelError as vstd::std_specs::convert::FromSpec<IOErrorKind>>::from_spec(kind)
            == tunnel_error_of(kind),
{
}

/// A tunnel error and a protocol error are kept whole in the error of the proxy.
pub proof fn law_errors_are_kept_whole(tunnel: TunnelError, protocol: TunnelProtocolError)
    ensures
        <Error as vstd::std_specs::convert::FromSpec<TunnelError>>::from_spec(tunnel)
            == Error::<String>::Tunnel(tunnel),
        <Error as vstd::std_specs::convert::FromSpec<TunnelProtocolError>>::from_spec(protocol)
            == Error::<String>::TunnelProtocolError(protocol),
{
}

/// The view of an error is the same error, with the views of its texts.
pub proof fn law_error_view(
    text: String,
    tunnel: TunnelError,
    protocol: TunnelProtocolError,
    kind: IOErrorKind,
)
    ensures
        Error::<String>::MultiaddrParseError(text)@
            == Error::<Seq<char>>::MultiaddrParseError(text@),
        Error::<String>::SocketAddrParseError(text)@
            == Error::<Seq<char>>::SocketAddrParseError(text@),
        Error::<String>::FailedToExtractPeerIdFromMultiaddr(text)@
            == Error::<Seq<char>>::FailedToExtractPeerIdFromMultiaddr(text@),
        Error::<String>::PeerIdParseError(text)@ == Error::<Seq<char>>::PeerIdParseError(text@),
        Error::<String>::TunnelIdParseError(text)@ == Error::<Seq<char>>::TunnelIdParseError(text@),
        Error::<String>::Litep2p(text)@ == Error::<Seq<char>>::Litep2p(text@),
        Error::<String>::Litep2pRequestResponseError(text)@
            == Error::<Seq<char>>::Litep2pRequestResponseError(text@),
        Error::<String>::Libp2pSwarmCreateError(text)@
            == Error::<Seq<char>>::Libp2pSwarmCreateError(text@),
        Error::<String>::Libp2pDialError(text)@ == Error::<Seq<char>>::Libp2pDialError(text@),
        Error::<String>::Libp2pTransportError(text)@
            == Error::<Seq<char>>::Libp2pTransportError(text@),
        Error::<String>::Libp2pOpenStreamError(text)@
            == Error::<Seq<char>>::Libp2pOpenStreamError(text@),
        Error::<String>::ProtocolNotSupport(text)@ == Error::<Seq<char>>::ProtocolNotSupport(text@),
        Error::<String>::TunnelNotWaiting(text)@ == Error::<Seq<char>>::TunnelNotWaiting(text@),
        Error::<String>::TunnelDialFailed(text)@ == Error::<Seq<char>>::TunnelDialFailed(text@),
        Error::<String>::ProtobufDecode(text)@ == Error::<Seq<char>>::ProtobufDecode(text@),
        Error::<String>::AccessDenied(text)@ == Error::<Seq<char>>::AccessDenied(text@),
        Error::<String>::UnknownPeer(text)@ == Error::<Seq<char>>::UnknownPeer(text@),
        Error::<String>::EssentialTaskClosed@ == Error::<Seq<char>>::EssentialTaskClosed,
        Error::<String>::UnexpectedResponseType@ == Error::<Seq<char>>::UnexpectedResponseType,
        Error::<String>::Tunnel(tunnel)@ == Error::<Seq<char>>::Tunnel(tunnel),
        Error::<String>::TunnelProtocolError(protocol)@ == Error::<Seq<char>>::TunnelProtocolError(
            protocol,
        ),
        Error::<String>::Io(kind)@ == Error::<Seq<char>>::Io(kind),
{
}

} // verus!

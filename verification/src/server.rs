//! Settings and events of a litep2p node.
use vstd::prelude::*;

use crate::p2p::IpAddr;

verus! {

/// The name of the request-response protocol of tunnels.
pub const TUNNEL_PROTOCOL: &'static str = "/pproxy/tunnel/1";

/// Bytes that a request or a response may have.
pub const TUNNEL_MAX_SIZE: usize = 1048576;

/// Seconds that a response may take.
pub const TUNNEL_TIMEOUT: u64 = 120;

/// The settings of a request-response protocol.
#[derive(Debug)]
pub struct TunnelConfig {
    pub name: String,
    pub max_size: usize,
    pub timeout: u64,
}

/// The settings of a node.
#[derive(Debug)]
pub struct P2pServer {
    /// The text of the multiaddr that the node listens on.
    pub listen_address: String,
    pub tunnel_config: TunnelConfig,
}

/// What happens in a node: `N` is the type of what the network reports, `T` that of what tunnels
/// report.
#[derive(Debug)]
pub enum P2pServerEvent<N, T> {
    Litep2p(N),
    TunnelEvent(T),
}

/// What a wait for either the network or the tunnels ended with. The source that has nothing more
/// to report reports `None`.
#[derive(Debug)]
pub enum Reported<N, T> {
    Network(Option<N>),
    Tunnel(Option<T>),
}

impl P2pServer {
    /// The settings of a node that listens on a TCP port.
    pub fn new(ip: IpAddr, port: u16) -> (server: P2pServer)
        ensures
            server.listen_address@ == crate::p2p::tcp_multiaddr_text(ip@, port),
            server.tunnel_config.name@ == TUNNEL_PROTOCOL@,
            server.tunnel_config.max_size == TUNNEL_MAX_SIZE,
            server.tunnel_config.timeout == TUNNEL_TIMEOUT,
    {
        P2pServer {
            listen_address: ip.tcp_multiaddr_text(port),
            tunnel_config: P2pServer::init_tunnel(),
        }
    }

    /// The settings of the protocol of tunnels.
    pub fn init_tunnel() -> (config: TunnelConfig)
        ensures
            config.name@ == TUNNEL_PROTOCOL@,
            config.max_size == TUNNEL_MAX_SIZE,
            config.timeout == TUNNEL_TIMEOUT,
    {
        TunnelConfig {
            name: TUNNEL_PROTOCOL.to_owned(),
            max_size: TUNNEL_MAX_SIZE,
            timeout: TUNNEL_TIMEOUT,
        }
    }

    /// The next event of a node, out of what was reported first. It is the last one when the
    /// source of the report has come to its end.
    pub fn next_event<N, T>(reported: Reported<N, T>) -> (event: Option<P2pServerEvent<N, T>>)
        ensures
            event == match reported {
                Reported::Network(Some(event)) => Some(P2pServerEvent::Litep2p(event)),
                Reported::Tunnel(Some(event)) => Some(P2pServerEvent::TunnelEvent(event)),
                _ => None,
            },
    {
        match reported {
            Reported::Network(Some(event)) => Some(P2pServerEvent::Litep2p(event)),
            Reported::Tunnel(Some(event)) => Some(P2pServerEvent::TunnelEvent(event)),
            _ => None,
        }
    }
}

} // verus!

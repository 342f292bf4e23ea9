//! A proxy that tunnels TCP connections through a peer-to-peer network.
//!
//! A node listens on local sockets and tunnels each connection to a peer, where it leads to the
//! local server of that peer. This crate holds the protocol of the tunnels and every decision of
//! the proxy, each with a contract. Sockets, channels and tasks belong to its caller.
use vstd::prelude::*;

pub mod auth;
pub mod bytes_be;
pub mod command;
pub mod decimal;
pub mod error;
pub mod handle;
pub mod multiaddr;
pub mod p2p;
pub mod peer_id;
pub mod pproxy;
pub mod server;
pub mod table;
pub mod tunnel;
pub mod types;

pub use crate::command::PProxyCommand;
pub use crate::command::PProxyCommandResponse;
pub use crate::error::Error;
pub use crate::handle::PProxyHandle;
pub use crate::pproxy::PProxy;

verus! {

/// Version of the proxy.
pub const VERSION: &'static str = "0.1.0";

/// Capacity of the channel that carries commands to the proxy.
pub const DEFAULT_CHANNEL_SIZE: usize = 4096;

/// Seconds that a connection to the local TCP server may take.
pub const LOCAL_TCP_TIMEOUT: u64 = 5;

/// Seconds that a connection to a remote TCP server may take.
pub const REMOTE_TCP_TIMEOUT: u64 = 30;

/// The result of what can go wrong in the proxy.
pub type Result<T> = std::result::Result<T, Error>;

} // verus!

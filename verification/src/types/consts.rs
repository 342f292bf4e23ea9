//! Numbers of the tunnel protocol.
use vstd::prelude::*;

verus! {

pub const TUNNEL_VERSION: u8 = 0x01;

pub const TUNNEL_CMD_TCP_CONNECT: u8 = 0x01;

/// Not supported.
pub const TUNNEL_CMD_UDP_CONNECT: u8 = 0x02;

pub const TUNNEL_REPLY_SUCCEEDED: u8 = 0x00;

pub const TUNNEL_REPLY_GENERAL_FAILURE: u8 = 0x01;

pub const TUNNEL_REPLY_CONNECTION_NOT_ALLOWED: u8 = 0x02;

pub const TUNNEL_REPLY_NETWORK_UNREACHABLE: u8 = 0x03;

pub const TUNNEL_REPLY_HOST_UNREACHABLE: u8 = 0x04;

pub const TUNNEL_REPLY_CONNECTION_REFUSED: u8 = 0x05;

pub const TUNNEL_REPLY_TTL_EXPIRED: u8 = 0x06;

pub const TUNNEL_REPLY_COMMAND_NOT_SUPPORTED: u8 = 0x07;

pub const TUNNEL_REPLY_ADDRESS_TYPE_NOT_SUPPORTED: u8 = 0x08;

} // verus!

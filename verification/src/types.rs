//! Identifiers, commands and replies of the tunnel protocol.
use vstd::prelude::*;

use crate::bytes_be::u64_from_be;
use crate::bytes_be::u64_to_be;
use crate::decimal::push_decimal;

pub mod consts;

verus! {

/// The error of std's integer parser.
#[verifier::external_type_specification]
#[verifier::external_body]
pub struct ExParseIntError(std::num::ParseIntError);

/// std's `impl<T> From<T> for T`: it returns its argument unchanged.
pub assume_specification<Value>[ <Value as std::convert::From<Value>>::from ](
    value: Value,
) -> (same: Value)
    ensures
        same == value,
;

/// std's `u64::from_str`: the text must be an optional plus sign followed by at least one decimal
/// digit and nothing else, and the number must fit; the result is that number. Which of the
/// parser's errors comes back otherwise is left unsaid.
#[verifier::external_body]
fn parse_u64(text: &str) -> (parsed: Result<u64, std::num::ParseIntError>)
    ensures
        parsed.ok() == crate::decimal::parsed_u64(text@),
{
    text.parse::<u64>()
}

/// Identifier of a tunnel.
#[derive(Debug, Copy, Clone, Hash, PartialEq, Eq, Structural)]
pub struct TunnelId(u64);

impl View for TunnelId {
    type V = u64;

    closed spec fn view(&self) -> u64 {
        self.0
    }
}

/// An identifier is determined by its number.
pub broadcast proof fn lemma_tunnel_id_number(id: TunnelId)
    ensures
        #[trigger] TunnelId::numbered(id@) == id,
{
}

/// Every number has an identifier.
pub broadcast proof fn lemma_numbered_tunnel_id(number: u64)
    ensures
        #[trigger] TunnelId::numbered(number)@ == number,
{
}

impl TunnelId {
    /// The identifier with the given number.
    pub closed spec fn numbered(number: u64) -> TunnelId {
        TunnelId(number)
    }

    /// The identifier with the number that `value` converts to.
    pub fn from<T: Into<u64>>(value: T) -> (id: Self)
        ensures
            call_ensures(<T as Into<u64>>::into, (value,), id@),
    {
        TunnelId(value.into())
    }

    /// The identifier that eight big-endian bytes spell.
    pub fn from_be_bytes(value: [u8; 8]) -> (id: Self)
        ensures
            id@ as nat == crate::bytes_be::be_value(value@),
    {
        TunnelId(u64_from_be(value))
    }

    /// The eight big-endian bytes of the identifier.
    pub fn to_be_bytes(self) -> (bytes: [u8; 8])
        ensures
            bytes@ == crate::bytes_be::be_bytes(self@ as nat, 8),
    {
        u64_to_be(self.0)
    }

    /// The decimal text of the identifier.
    pub fn to_string(&self) -> (text: String)
        ensures
            text@ == crate::decimal::decimal(self@ as nat),
    {
        let mut text = String::new();
        push_decimal(&mut text, self.0);
        assert(text@ =~= crate::decimal::decimal(self@ as nat));
        text
    }

    /// The identifier whose decimal text is `text`; a leading plus sign is allowed.
    pub fn parse(text: &str) -> (parsed: Result<TunnelId, std::num::ParseIntError>)
        ensures
            match parsed {
                Ok(id) => crate::decimal::parsed_u64(text@) == Some(id@),
                Err(_) => crate::decimal::parsed_u64(text@) is None,
            },
    {
        match parse_u64(text) {
            Ok(number) => Ok(TunnelId(number)),
            Err(error) => Err(error),
        }
    }
}

impl std::str::FromStr for TunnelId {
    type Err = std::num::ParseIntError;

    fn from_str(text: &str) -> (parsed: Result<TunnelId, std::num::ParseIntError>)
        ensures
            match parsed {
                Ok(id) => crate::decimal::parsed_u64(text@) == Some(id@),
                Err(_) => crate::decimal::parsed_u64(text@) is None,
            },
    {
        TunnelId::parse(text)
    }
}

/// What a tunnel request asks for.
#[derive(Clone, Debug, Copy, PartialEq, Eq, Structural)]
pub enum TunnelCommand {
    TcpConnect,
    /// Not supported: a proxy refuses a request for it.
    UdpConnect,
}

impl TunnelCommand {
    /// The byte that stands for the command.
    pub open spec fn code(self) -> u8 {
        match self {
            TunnelCommand::TcpConnect => consts::TUNNEL_CMD_TCP_CONNECT,
            TunnelCommand::UdpConnect => consts::TUNNEL_CMD_UDP_CONNECT,
        }
    }

    /// The command that `code` stands for, if it stands for one.
    pub open spec fn of_code(code: u8) -> Option<TunnelCommand> {
        if code == consts::TUNNEL_CMD_TCP_CONNECT {
            Some(TunnelCommand::TcpConnect)
        } else if code == consts::TUNNEL_CMD_UDP_CONNECT {
            Some(TunnelCommand::UdpConnect)
        } else {
            None
        }
    }

    pub fn as_u8(self) -> (code: u8)
        ensures
            code == self.code(),
    {
        match self {
            TunnelCommand::TcpConnect => consts::TUNNEL_CMD_TCP_CONNECT,
            TunnelCommand::UdpConnect => consts::TUNNEL_CMD_UDP_CONNECT,
        }
    }

    /// The command that `code` stands for, if it stands for one.
    pub fn from_u8(code: u8) -> (command: Option<TunnelCommand>)
        ensures
            command == TunnelCommand::of_code(code),
    {
        match code {
            consts::TUNNEL_CMD_TCP_CONNECT => Some(TunnelCommand::TcpConnect),
            consts::TUNNEL_CMD_UDP_CONNECT => Some(TunnelCommand::UdpConnect),
            _ => None,
        }
    }
}

/// What a tunnel request is answered.
#[derive(Clone, Debug, Copy, PartialEq, Eq, Structural)]
pub enum TunnelReply {
    Succeeded,
    GeneralFailure,
    ConnectionNotAllowed,
    NetworkUnreachable,
    HostUnreachable,
    ConnectionRefused,
    TtlExpired,
    CommandNotSupported,
    AddressTypeNotSupported,
    OtherReply(u8),
}

impl TunnelReply {
    /// The byte that stands for the reply.
    pub open spec fn code(self) -> u8 {
        match self {
            TunnelReply::Succeeded => consts::TUNNEL_REPLY_SUCCEEDED,
            TunnelReply::GeneralFailure => consts::TUNNEL_REPLY_GENERAL_FAILURE,
            TunnelReply::ConnectionNotAllowed => consts::TUNNEL_REPLY_CONNECTION_NOT_ALLOWED,
            TunnelReply::NetworkUnreachable => consts::TUNNEL_REPLY_NETWORK_UNREACHABLE,
            TunnelReply::HostUnreachable => consts::TUNNEL_REPLY_HOST_UNREACHABLE,
            TunnelReply::ConnectionRefused => consts::TUNNEL_REPLY_CONNECTION_REFUSED,
            TunnelReply::TtlExpired => consts::TUNNEL_REPLY_TTL_EXPIRED,
            TunnelReply::CommandNotSupported => consts::TUNNEL_REPLY_COMMAND_NOT_SUPPORTED,
            TunnelReply::AddressTypeNotSupported => consts::TUNNEL_REPLY_ADDRESS_TYPE_NOT_SUPPORTED,
            TunnelReply::OtherReply(code) => code,
        }
    }

    /// The reply that `code` stands for, under its name where it has one.
    pub open spec fn of_code(code: u8) -> TunnelReply {
        match code {
            0x00 => TunnelReply::Succeeded,
            0x01 => TunnelReply::GeneralFailure,
            0x02 => TunnelReply::ConnectionNotAllowed,
            0x03 => TunnelReply::NetworkUnreachable,
            0x04 => TunnelReply::HostUnreachable,
            0x05 => TunnelReply::ConnectionRefused,
            0x06 => TunnelReply::TtlExpired,
            0x07 => TunnelReply::CommandNotSupported,
            0x08 => TunnelReply::AddressTypeNotSupported,
            _ => TunnelReply::OtherReply(code),
        }
    }

    /// Whether the reply is the named one wherever its byte has a name.
    pub open spec fn is_canonical(self) -> bool {
        self matches TunnelReply::OtherReply(code) ==> code
            > consts::TUNNEL_REPLY_ADDRESS_TYPE_NOT_SUPPORTED
    }

    /// The words for the reply.
    pub open spec fn text(self) -> Seq<char> {
        match self {
            TunnelReply::Succeeded => "Succeeded"@,
            TunnelReply::AddressTypeNotSupported => "Address type not supported"@,
            TunnelReply::CommandNotSupported => "Command not supported"@,
            TunnelReply::ConnectionNotAllowed => "Connection not allowed"@,
            TunnelReply::ConnectionRefused => "Connection refused"@,
            TunnelReply::GeneralFailure => "General failure"@,
            TunnelReply::HostUnreachable => "Host unreachable"@,
            TunnelReply::NetworkUnreachable => "Network unreachable"@,
            TunnelReply::OtherReply(code) => "Other reply ("@ + crate::decimal::decimal(
                code as nat,
            ) + ")"@,
            TunnelReply::TtlExpired => "TTL expired"@,
        }
    }

    pub fn as_u8(self) -> (code: u8)
        ensures
            code == self.code(),
    {
        match self {
            TunnelReply::Succeeded => consts::TUNNEL_REPLY_SUCCEEDED,
            TunnelReply::GeneralFailure => consts::TUNNEL_REPLY_GENERAL_FAILURE,
            TunnelReply::ConnectionNotAllowed => consts::TUNNEL_REPLY_CONNECTION_NOT_ALLOWED,
            TunnelReply::NetworkUnreachable => consts::TUNNEL_REPLY_NETWORK_UNREACHABLE,
            TunnelReply::HostUnreachable => consts::TUNNEL_REPLY_HOST_UNREACHABLE,
            TunnelReply::ConnectionRefused => consts::TUNNEL_REPLY_CONNECTION_REFUSED,
            TunnelReply::TtlExpired => consts::TUNNEL_REPLY_TTL_EXPIRED,
            TunnelReply::CommandNotSupported => consts::TUNNEL_REPLY_COMMAND_NOT_SUPPORTED,
            TunnelReply::AddressTypeNotSupported => consts::TUNNEL_REPLY_ADDRESS_TYPE_NOT_SUPPORTED,
            TunnelReply::OtherReply(code) => code,
        }
    }

    /// The reply that `code` stands for, under its name where it has one.
    pub fn from_u8(code: u8) -> (reply: TunnelReply)
        ensures
            reply == TunnelReply::of_code(code),
    {
        match code {
            consts::TUNNEL_REPLY_SUCCEEDED => TunnelReply::Succeeded,
            consts::TUNNEL_REPLY_GENERAL_FAILURE => TunnelReply::GeneralFailure,
            consts::TUNNEL_REPLY_CONNECTION_NOT_ALLOWED => TunnelReply::ConnectionNotAllowed,
            consts::TUNNEL_REPLY_NETWORK_UNREACHABLE => TunnelReply::NetworkUnreachable,
            consts::TUNNEL_REPLY_HOST_UNREACHABLE => TunnelReply::HostUnreachable,
            consts::TUNNEL_REPLY_CONNECTION_REFUSED => TunnelReply::ConnectionRefused,
            consts::TUNNEL_REPLY_TTL_EXPIRED => TunnelReply::TtlExpired,
            consts::TUNNEL_REPLY_COMMAND_NOT_SUPPORTED => TunnelReply::CommandNotSupported,
            consts::TUNNEL_REPLY_ADDRESS_TYPE_NOT_SUPPORTED => TunnelReply::AddressTypeNotSupported,
            _ => TunnelReply::OtherReply(code),
        }
    }

    /// The words for the reply.
    pub fn to_string(&self) -> (text: String)
        ensures
            text@ == self.text(),
    {
        let words = match *self {
            TunnelReply::Succeeded => "Succeeded",
            TunnelReply::AddressTypeNotSupported => "Address type not supported",
            TunnelReply::CommandNotSupported => "Command not supported",
            TunnelReply::ConnectionNotAllowed => "Connection not allowed",
            TunnelReply::ConnectionRefused => "Connection refused",
            TunnelReply::GeneralFailure => "General failure",
            TunnelReply::HostUnreachable => "Host unreachable",
            TunnelReply::NetworkUnreachable => "Network unreachable",
            TunnelReply::OtherReply(_) => "Other reply (",
            TunnelReply::TtlExpired => "TTL expired",
        };
        let mut text = words.to_owned();
        if let TunnelReply::OtherReply(code) = *self {
            push_decimal(&mut text, code as u64);
            text.append(")");
        }
        text
    }
}

/// Reading the byte of a command gives the command back, and a byte that reads as a command is
/// that command's byte.
pub proof fn law_command_codes(command: TunnelCommand, code: u8)
    ensures
        TunnelCommand::of_code(command.code()) == Some(command),
        TunnelCommand::of_code(code) matches Some(read) ==> read.code() == code,
{
}

/// Every byte reads as a canonical reply with that byte, and reading the byte of a reply gives the
/// reply back if and only if it is canonical.
pub proof fn law_reply_codes(reply: TunnelReply, code: u8)
    ensures
        TunnelReply::of_code(reply.code()) == reply <==> reply.is_canonical(),
        TunnelReply::of_code(code).code() == code,
        TunnelReply::of_code(code).is_canonical(),
{
}

/// The eight bytes of an identifier spell the identifier, and eight bytes that spell an
/// identifier are its bytes.
pub proof fn law_tunnel_id_bytes(id: TunnelId, bytes: Seq<u8>)
    requires
        bytes.len() == 8,
    ensures
        crate::bytes_be::be_bytes(id@ as nat, 8).len() == 8,
        crate::bytes_be::be_value(crate::bytes_be::be_bytes(id@ as nat, 8)) == id@ as nat,
        crate::bytes_be::be_value(bytes) == id@ as nat <==> bytes == crate::bytes_be::be_bytes(
            id@ as nat,
            8,
        ),
{
    crate::bytes_be::lemma_be_bytes_len(id@ as nat, 8);
    crate::bytes_be::lemma_eight_bytes();
    crate::bytes_be::lemma_value_of_bytes(id@ as nat, 8);
    crate::bytes_be::lemma_bytes_of_value(bytes);
}

/// Parsing the text of an identifier gives the identifier back.
pub proof fn law_tunnel_id_text(id: TunnelId)
    ensures
        crate::decimal::parsed_u64(crate::decimal::decimal(id@ as nat)) == Some(id@),
{
    crate::decimal::law_parse_of_decimal(id@);
}

/// The bytes of the commands, and that no other byte stands for a command.
pub proof fn law_command_bytes(code: u8)
    ensures
        TunnelCommand::TcpConnect.code() == 1,
        TunnelCommand::UdpConnect.code() == 2,
        TunnelCommand::of_code(code) == Some(TunnelCommand::TcpConnect) <==> code == 1,
        TunnelCommand::of_code(code) == Some(TunnelCommand::UdpConnect) <==> code == 2,
{
}

/// The bytes of the replies. Each of the first nine bytes stands for the reply with that name, and
/// every other byte for itself.
pub proof fn law_reply_bytes(code: u8)
    ensures
        TunnelReply::Succeeded.code() == 0,
        TunnelReply::GeneralFailure.code() == 1,
        TunnelReply::ConnectionNotAllowed.code() == 2,
        TunnelReply::NetworkUnreachable.code() == 3,
        TunnelReply::HostUnreachable.code() == 4,
        TunnelReply::ConnectionRefused.code() == 5,
        TunnelReply::TtlExpired.code() == 6,
        TunnelReply::CommandNotSupported.code() == 7,
        TunnelReply::AddressTypeNotSupported.code() == 8,
        TunnelReply::OtherReply(code).code() == code,
        TunnelReply::of_code(code).code() == code,
        TunnelReply::of_code(code) is OtherReply <==> code > 8,
        TunnelReply::of_code(code) is Succeeded <==> code == 0,
{
}

/// The words for the replies. A reply without a name is shown with the number of its byte.
pub proof fn law_reply_words(code: u8)
    ensures
        TunnelReply::Succeeded.text() == "Succeeded"@,
        TunnelReply::GeneralFailure.text() == "General failure"@,
        TunnelReply::ConnectionNotAllowed.text() == "Connection not allowed"@,
        TunnelReply::NetworkUnreachable.text() == "Network unreachable"@,
        TunnelReply::HostUnreachable.text() == "Host unreachable"@,
        TunnelReply::ConnectionRefused.text() == "Connection refused"@,
        TunnelReply::TtlExpired.text() == "TTL expired"@,
        TunnelReply::CommandNotSupported.text() == "Command not supported"@,
        TunnelReply::AddressTypeNotSupported.text() == "Address type not supported"@,
        TunnelReply::OtherReply(code).text() == "Other reply ("@ + crate::decimal::decimal(
            code as nat,
        ) + ")"@,
{
}

} // verus!

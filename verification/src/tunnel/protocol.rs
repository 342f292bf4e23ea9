//! Headers that open a tunnel.
use std::io::ErrorKind as IOErrorKind;

use bytes::BufMut;
use vstd::prelude::*;

use crate::error::TunnelProtocolError;
use crate::types::consts;
use crate::types::TunnelCommand;
use crate::types::TunnelId;
use crate::types::TunnelReply;

verus! {

/// The byte buffer of the `bytes` crate.
#[verifier::external_type_specification]
#[verifier::external_body]
pub struct ExBytesMut(bytes::BytesMut);

/// The bytes that a buffer holds.
pub uninterp spec fn buffer_bytes(buf: bytes::BytesMut) -> Seq<u8>;

/// `BytesMut::with_capacity`: the new buffer holds no bytes. Past `isize::MAX` it would panic.
#[verifier::external_body]
fn new_buffer(capacity: usize) -> (buf: bytes::BytesMut)
    requires
        capacity <= isize::MAX,
    ensures
        buffer_bytes(buf) == Seq::<u8>::empty(),
{
    bytes::BytesMut::with_capacity(capacity)
}

/// `BufMut::put_slice` of `BytesMut`: the bytes go behind those that the buffer holds. A buffer
/// that would have to grow past `isize::MAX` bytes makes it panic.
#[verifier::external_body]
fn put_slice(buf: &mut bytes::BytesMut, bytes: &[u8])
    requires
        buffer_bytes(*old(buf)).len() + bytes@.len() <= isize::MAX,
    ensures
        buffer_bytes(*final(buf)) == buffer_bytes(*old(buf)) + bytes@,
{
    buf.put_slice(bytes)
}

/// Length of a header in bytes.
pub const HEADER_LEN: usize = 10;

/// The ten bytes of a header: the protocol version, one byte, and an identifier.
pub open spec fn header_bytes(code: u8, id: u64) -> Seq<u8> {
    seq![consts::TUNNEL_VERSION, code] + crate::bytes_be::be_bytes(id as nat, 8)
}

/// The identifier in the last eight bytes of a header.
pub open spec fn header_id(header: Seq<u8>) -> TunnelId {
    TunnelId::numbered(crate::bytes_be::be_value(header.subrange(2, 10)) as u64)
}

/// The last eight bytes of a header as an identifier.
fn read_id(buf: &[u8; 10]) -> (id: TunnelId)
    ensures
        id == header_id(buf@),
{
    broadcast use crate::types::lemma_tunnel_id_number;

    let id_bytes = [buf[2], buf[3], buf[4], buf[5], buf[6], buf[7], buf[8], buf[9]];
    assert(id_bytes@ =~= buf@.subrange(2, 10));
    TunnelId::from_be_bytes(id_bytes)
}

/// Writes a header behind what the buffer holds.
fn put_header(buf: &mut bytes::BytesMut, code: u8, id: TunnelId)
    requires
        buffer_bytes(*old(buf)).len() + HEADER_LEN <= isize::MAX,
    ensures
        buffer_bytes(*final(buf)) == buffer_bytes(*old(buf)) + header_bytes(code, id@),
{
    let head = [consts::TUNNEL_VERSION, code];
    let id_bytes = id.to_be_bytes();
    put_slice(buf, &head);
    put_slice(buf, &id_bytes);
    assert(buffer_bytes(*buf) =~= buffer_bytes(*old(buf)) + header_bytes(code, id@)) by {
        assert(head@ =~= seq![consts::TUNNEL_VERSION, code]);
    }
}

/// Request header when connected to the tunnel server.
///
/// ```plain
/// +-----+-----+------+
/// | VER | CMD |  ID  |
/// +-----+-----+------+
/// |  1  |  1  |  8   |
/// +-----+-----+------+
/// ```
#[derive(Clone, Copy, Debug, PartialEq, Eq, Structural)]
pub struct TunnelRequestHeader {
    pub command: TunnelCommand,
    pub id: TunnelId,
}

impl TunnelRequestHeader {
    /// The bytes of the header.
    pub open spec fn encoded(self) -> Seq<u8> {
        header_bytes(self.command.code(), self.id@)
    }

    /// What the outcome of reading ten bytes says as a request.
    pub open spec fn decoded(outcome: Result<[u8; 10], IOErrorKind>) -> Result<
        TunnelRequestHeader,
        TunnelProtocolError,
    > {
        match outcome {
            Err(kind) => Err(TunnelProtocolError::IoError(kind)),
            Ok(buf) => if buf[0] != consts::TUNNEL_VERSION {
                Err(TunnelProtocolError::UnsupportedTunnelVersion(buf[0]))
            } else {
                match TunnelCommand::of_code(buf[1]) {
                    None => Err(TunnelProtocolError::UnsupportedCommand(buf[1])),
                    Some(command) => Ok(TunnelRequestHeader { command, id: header_id(buf@) }),
                }
            },
        }
    }

    /// Creates a request header
    pub fn new(command: TunnelCommand, id: TunnelId) -> (header: TunnelRequestHeader)
        ensures
            header.command == command,
            header.id == id,
    {
        TunnelRequestHeader { command, id }
    }

    /// Reads a header from the ten bytes that a reader gave, or from its failure to give them
    pub fn read_from(outcome: Result<[u8; 10], IOErrorKind>) -> (header: Result<
        TunnelRequestHeader,
        TunnelProtocolError,
    >)
        ensures
            header == TunnelRequestHeader::decoded(outcome),
    {
        let buf = match outcome {
            Ok(buf) => buf,
            Err(kind) => return Err(TunnelProtocolError::IoError(kind)),
        };
        let ver = buf[0];
        if ver != consts::TUNNEL_VERSION {
            return Err(TunnelProtocolError::UnsupportedTunnelVersion(ver));
        }
        let cmd = buf[1];
        let command = match TunnelCommand::from_u8(cmd) {
            Some(c) => c,
            None => return Err(TunnelProtocolError::UnsupportedCommand(cmd)),
        };
        let id = read_id(&buf);
        Ok(TunnelRequestHeader { command, id })
    }

    /// The bytes to write to a writer
    pub fn write_to(&self) -> (buf: bytes::BytesMut)
        ensures
            buffer_bytes(buf) == self.encoded(),
    {
        let mut buf = new_buffer(HEADER_LEN);
        self.write_to_buf(&mut buf);
        assert(buffer_bytes(buf) =~= self.encoded());
        buf
    }

    /// Writes to buffer
    pub fn write_to_buf(&self, buf: &mut bytes::BytesMut)
        requires
            buffer_bytes(*old(buf)).len() + HEADER_LEN <= isize::MAX,
        ensures
            buffer_bytes(*final(buf)) == buffer_bytes(*old(buf)) + self.encoded(),
    {
        put_header(buf, self.command.as_u8(), self.id);
    }
}

/// Response header for TunnelRequestHeader with TcpConnect command.
///
/// ```plain
/// +-----+-----+------+
/// | VER | REP |  ID  |
/// +-----+-----+------+
/// |  1  |  1  |  8   |
/// +-----+-----+------+
/// ```
#[derive(Clone, Copy, Debug, PartialEq, Eq, Structural)]
pub struct TcpResponseHeader {
    pub reply: TunnelReply,
    pub id: TunnelId,
}

impl TcpResponseHeader {
    /// The bytes of the header.
    pub open spec fn encoded(self) -> Seq<u8> {
        header_bytes(self.reply.code(), self.id@)
    }

    /// What the outcome of reading ten bytes says as a response.
    pub open spec fn decoded(outcome: Result<[u8; 10], IOErrorKind>) -> Result<
        TcpResponseHeader,
        TunnelProtocolError,
    > {
        match outcome {
            Err(kind) => Err(TunnelProtocolError::IoError(kind)),
            Ok(buf) => if buf[0] != consts::TUNNEL_VERSION {
                Err(TunnelProtocolError::UnsupportedTunnelVersion(buf[0]))
            } else {
                Ok(TcpResponseHeader { reply: TunnelReply::of_code(buf[1]), id: header_id(buf@) })
            },
        }
    }

    /// Creates a response header
    pub fn new(reply: TunnelReply, id: TunnelId) -> (header: TcpResponseHeader)
        ensures
            header.reply == reply,
            header.id == id,
    {
        TcpResponseHeader { reply, id }
    }

    /// Reads a header from the ten bytes that a reader gave, or from its failure to give them
    pub fn read_from(outcome: Result<[u8; 10], IOErrorKind>) -> (header: Result<
        TcpResponseHeader,
        TunnelProtocolError,
    >)
        ensures
            header == TcpResponseHeader::decoded(outcome),
    {
        let buf = match outcome {
            Ok(buf) => buf,
            Err(kind) => return Err(TunnelProtocolError::IoError(kind)),
        };
        let ver = buf[0];
        let reply_code = buf[1];
        if ver != consts::TUNNEL_VERSION {
            return Err(TunnelProtocolError::UnsupportedTunnelVersion(ver));
        }
        let id = read_id(&buf);
        Ok(TcpResponseHeader { reply: TunnelReply::from_u8(reply_code), id })
    }

    /// The bytes to write to a writer
    pub fn write_to(&self) -> (buf: bytes::BytesMut)
        ensures
            buffer_bytes(buf) == self.encoded(),
    {
        let mut buf = new_buffer(HEADER_LEN);
        self.write_to_buf(&mut buf);
        assert(buffer_bytes(buf) =~= self.encoded());
        buf
    }

    /// Writes to buffer
    pub fn write_to_buf(&self, buf: &mut bytes::BytesMut)
        requires
            buffer_bytes(*old(buf)).len() + HEADER_LEN <= isize::MAX,
        ensures
            buffer_bytes(*final(buf)) == buffer_bytes(*old(buf)) + self.encoded(),
    {
        put_header(buf, self.reply.as_u8(), self.id);
    }
}

/// A header is ten bytes, and its parts can be found again in them.
proof fn lemma_header_bytes(code: u8, id: TunnelId)
    ensures
        header_bytes(code, id@).len() == HEADER_LEN,
        header_bytes(code, id@)[0] == consts::TUNNEL_VERSION,
        header_bytes(code, id@)[1] == code,
        header_id(header_bytes(code, id@)) == id,
{
    broadcast use crate::types::lemma_tunnel_id_number;

    let id_bytes = crate::bytes_be::be_bytes(id@ as nat, 8);
    crate::bytes_be::lemma_be_bytes_len(id@ as nat, 8);
    crate::bytes_be::lemma_eight_bytes();
    crate::bytes_be::lemma_value_of_bytes(id@ as nat, 8);
    assert(header_bytes(code, id@).subrange(2, 10) =~= id_bytes);
}

/// Ten bytes of this version of the protocol are the header of their own parts.
proof fn lemma_header_of_bytes(buf: Seq<u8>)
    requires
        buf.len() == HEADER_LEN,
        buf[0] == consts::TUNNEL_VERSION,
    ensures
        buf == header_bytes(buf[1], header_id(buf)@),
{
    broadcast use crate::types::lemma_numbered_tunnel_id;

    crate::bytes_be::lemma_eight_bytes();
    crate::bytes_be::lemma_bytes_of_value(buf.subrange(2, 10));
    assert(buf =~= header_bytes(buf[1], header_id(buf)@));
}

/// Every header is exactly as long as the block that is read for one, so a read leaves what
/// follows the header in the stream.
pub proof fn law_header_length(request: TunnelRequestHeader, response: TcpResponseHeader)
    ensures
        request.encoded().len() == HEADER_LEN,
        response.encoded().len() == HEADER_LEN,
{
    lemma_header_bytes(request.command.code(), request.id);
    lemma_header_bytes(response.reply.code(), response.id);
}

/// Reading the bytes that were written for a request gives the request back.
pub proof fn law_request_read_of_written(written: TunnelRequestHeader, buf: [u8; 10])
    requires
        buf@ == written.encoded(),
    ensures
        TunnelRequestHeader::decoded(Ok(buf)) == Ok::<_, TunnelProtocolError>(written),
{
    lemma_header_bytes(written.command.code(), written.id);
    crate::types::law_command_codes(written.command, 0);
    assert(buf@[1] == written.command.code());
}

/// The bytes that a request was read from are the bytes that writing it gives.
pub proof fn law_request_written_of_read(buf: [u8; 10])
    requires
        TunnelRequestHeader::decoded(Ok(buf)) is Ok,
    ensures
        TunnelRequestHeader::decoded(Ok(buf))->Ok_0.encoded() == buf@,
{
    lemma_header_of_bytes(buf@);
    crate::types::law_command_codes(TunnelCommand::TcpConnect, buf@[1]);
}

/// Reading the bytes that were written for a canonical response gives the response back.
pub proof fn law_response_read_of_written(written: TcpResponseHeader, buf: [u8; 10])
    requires
        written.reply.is_canonical(),
        buf@ == written.encoded(),
    ensures
        TcpResponseHeader::decoded(Ok(buf)) == Ok::<_, TunnelProtocolError>(written),
{
    lemma_header_bytes(written.reply.code(), written.id);
    crate::types::law_reply_codes(written.reply, 0);
    assert(buf@[1] == written.reply.code());
}

/// The bytes that a response was read from are the bytes that writing it gives.
pub proof fn law_response_written_of_read(buf: [u8; 10])
    requires
        TcpResponseHeader::decoded(Ok(buf)) is Ok,
    ensures
        TcpResponseHeader::decoded(Ok(buf))->Ok_0.encoded() == buf@,
{
    lemma_header_of_bytes(buf@);
    crate::types::law_reply_codes(TunnelReply::Succeeded, buf@[1]);
}

/// The ten bytes of a request: the version, the byte of the command, and the id, whose bytes add
/// up to its number, each weighted by its place, the first one most.
pub proof fn law_request_bytes(header: TunnelRequestHeader)
    ensures
        ({
            let bytes = header.encoded();
            &&& bytes.len() == 10
            &&& bytes[0] == 1
            &&& bytes[1] == match header.command {
                TunnelCommand::TcpConnect => 1u8,
                TunnelCommand::UdpConnect => 2u8,
            }
            &&& header.id@ == bytes[2] * 0x100_0000_0000_0000
                + bytes[3] * 0x1_0000_0000_0000
                + bytes[4] * 0x100_0000_0000
                + bytes[5] * 0x1_0000_0000
                + bytes[6] * 0x100_0000
                + bytes[7] * 0x1_0000
                + bytes[8] * 0x100
                + bytes[9]
        }),
{
    lemma_header_sum(header.command.code(), header.id);
}

/// The ten bytes of a response: the version, the byte of the reply, and the id, whose bytes add up
/// to its number, each weighted by its place, the first one most.
pub proof fn law_response_bytes(header: TcpResponseHeader)
    ensures
        ({
            let bytes = header.encoded();
            &&& bytes.len() == 10
            &&& bytes[0] == 1
            &&& bytes[1] == header.reply.code()
            &&& header.id@ == bytes[2] * 0x100_0000_0000_0000
                + bytes[3] * 0x1_0000_0000_0000
                + bytes[4] * 0x100_0000_0000
                + bytes[5] * 0x1_0000_0000
                + bytes[6] * 0x100_0000
                + bytes[7] * 0x1_0000
                + bytes[8] * 0x100
                + bytes[9]
        }),
{
    lemma_header_sum(header.reply.code(), header.id);
}

/// What ten bytes say as a request. A first byte other than 1 is another version; else a second
/// byte other than 1 and 2 is no command; else the bytes are a request for that command, whose id
/// is the sum of the other bytes, each weighted by its place, the first one most.
pub proof fn law_request_of_bytes(buf: [u8; 10])
    ensures
        ({
            let read = TunnelRequestHeader::decoded(Ok(buf));
            &&& read is Ok <==> buf[0] == 1 && (buf[1] == 1 || buf[1] == 2)
            &&& buf[0] != 1 ==> read == Err::<TunnelRequestHeader, _>(
                TunnelProtocolError::UnsupportedTunnelVersion(buf[0]),
            )
            &&& buf[0] == 1 && buf[1] != 1 && buf[1] != 2 ==> read == Err::<
                TunnelRequestHeader,
                _,
            >(TunnelProtocolError::UnsupportedCommand(buf[1]))
            &&& read matches Ok(header) ==> {
                &&& header.command is TcpConnect <==> buf[1] == 1
                &&& header.command is UdpConnect <==> buf[1] == 2
                &&& header.id@ == buf[2] * 0x100_0000_0000_0000
                    + buf[3] * 0x1_0000_0000_0000
                    + buf[4] * 0x100_0000_0000
                    + buf[5] * 0x1_0000_0000
                    + buf[6] * 0x100_0000
                    + buf[7] * 0x1_0000
                    + buf[8] * 0x100
                    + buf[9]
            }
        }),
{
    lemma_id_of_bytes(buf);
}

/// What ten bytes say as a response. A first byte other than 1 is another version; else the bytes
/// are a response whose reply has the second byte, a success if and only if that byte is 0, and
/// whose id is the sum of the other bytes, each weighted by its place, the first one most.
pub proof fn law_response_of_bytes(buf: [u8; 10])
    ensures
        ({
            let read = TcpResponseHeader::decoded(Ok(buf));
            &&& read is Ok <==> buf[0] == 1
            &&& buf[0] != 1 ==> read == Err::<TcpResponseHeader, _>(
                TunnelProtocolError::UnsupportedTunnelVersion(buf[0]),
            )
            &&& read matches Ok(header) ==> {
                &&& header.reply.code() == buf[1]
                &&& header.reply is Succeeded <==> buf[1] == 0
                &&& header.reply is OtherReply <==> buf[1] > 8
                &&& header.id@ == buf[2] * 0x100_0000_0000_0000
                    + buf[3] * 0x1_0000_0000_0000
                    + buf[4] * 0x100_0000_0000
                    + buf[5] * 0x1_0000_0000
                    + buf[6] * 0x100_0000
                    + buf[7] * 0x1_0000
                    + buf[8] * 0x100
                    + buf[9]
            }
        }),
{
    lemma_id_of_bytes(buf);
}

/// Where no ten bytes could be read, the failure to read them is the error.
pub proof fn law_headers_that_could_not_be_read(kind: IOErrorKind)
    ensures
        TunnelRequestHeader::decoded(Err(kind)) == Err::<TunnelRequestHeader, _>(
            TunnelProtocolError::IoError(kind),
        ),
        TcpResponseHeader::decoded(Err(kind)) == Err::<TcpResponseHeader, _>(
            TunnelProtocolError::IoError(kind),
        ),
{
}

/// The bytes of the id in a header add up to its number.
proof fn lemma_header_sum(code: u8, id: TunnelId)
    ensures
        ({
            let bytes = header_bytes(code, id@);
            &&& bytes.len() == 10
            &&& bytes[0] == consts::TUNNEL_VERSION
            &&& bytes[1] == code
            &&& id@ == bytes[2] * 0x100_0000_0000_0000
                + bytes[3] * 0x1_0000_0000_0000
                + bytes[4] * 0x100_0000_0000
                + bytes[5] * 0x1_0000_0000
                + bytes[6] * 0x100_0000
                + bytes[7] * 0x1_0000
                + bytes[8] * 0x100
                + bytes[9]
        }),
{
    lemma_header_bytes(code, id);
    crate::bytes_be::law_big_endian_bytes(id@);
    let bytes = header_bytes(code, id@);
    assert(bytes.subrange(2, 10) =~= crate::bytes_be::be_bytes(id@ as nat, 8));
    assert(forall|i: int| 0 <= i < 8 ==> #[trigger] bytes.subrange(2, 10)[i] == bytes[i + 2]);
}

/// The id in ten bytes is the sum of its bytes.
proof fn lemma_id_of_bytes(buf: [u8; 10])
    ensures
        header_id(buf@)@ == buf[2] * 0x100_0000_0000_0000
            + buf[3] * 0x1_0000_0000_0000
            + buf[4] * 0x100_0000_0000
            + buf[5] * 0x1_0000_0000
            + buf[6] * 0x100_0000
            + buf[7] * 0x1_0000
            + buf[8] * 0x100
            + buf[9],
{
    broadcast use crate::types::lemma_numbered_tunnel_id;

    let id_bytes = buf@.subrange(2, 10);
    crate::bytes_be::law_big_endian_value(id_bytes);
    crate::bytes_be::lemma_eight_bytes();
    crate::bytes_be::lemma_bytes_of_value(id_bytes);
    assert(forall|i: int| 0 <= i < 8 ==> #[trigger] id_bytes[i] == buf[i + 2]);
}

} // verus!

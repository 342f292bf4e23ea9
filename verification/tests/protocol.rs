use std::io::ErrorKind;

use dephy_pproxy::error::TunnelProtocolError;
use dephy_pproxy::tunnel::protocol::TcpResponseHeader;
use dephy_pproxy::tunnel::protocol::TunnelRequestHeader;
use dephy_pproxy::tunnel::protocol::HEADER_LEN;
use dephy_pproxy::types::TunnelCommand;
use dephy_pproxy::types::TunnelId;
use dephy_pproxy::types::TunnelReply;

fn ten(bytes: &[u8]) -> [u8; 10] {
    let mut header = [0u8; 10];
    header.copy_from_slice(bytes);
    header
}

#[test]
fn request_bytes() {
    let header = TunnelRequestHeader::new(TunnelCommand::TcpConnect, TunnelId::from(258u64));
    let written = header.write_to();
    assert_eq!(written.len(), HEADER_LEN);
    assert_eq!(&written[..], &[1, 1, 0, 0, 0, 0, 0, 0, 1, 2]);
}

#[test]
fn response_bytes() {
    let id = TunnelId::from(u64::MAX);
    let written = TcpResponseHeader::new(TunnelReply::ConnectionRefused, id).write_to();
    assert_eq!(written.len(), HEADER_LEN);
    assert_eq!(&written[..], &[1, 5, 255, 255, 255, 255, 255, 255, 255, 255]);
}

#[test]
fn headers_go_behind_what_a_buffer_holds() {
    let mut buf = bytes::BytesMut::from(&b"xy"[..]);
    let request = TunnelRequestHeader::new(TunnelCommand::UdpConnect, TunnelId::from(3u64));
    request.write_to_buf(&mut buf);
    TcpResponseHeader::new(TunnelReply::Succeeded, TunnelId::from(4u64)).write_to_buf(&mut buf);
    assert_eq!(
        &buf[..],
        &[b'x', b'y', 1, 2, 0, 0, 0, 0, 0, 0, 0, 3, 1, 0, 0, 0, 0, 0, 0, 0, 0, 4]
    );
}

#[test]
fn request_read_of_written() {
    for command in [TunnelCommand::TcpConnect, TunnelCommand::UdpConnect] {
        for n in [0u64, 77, u64::MAX] {
            let header = TunnelRequestHeader::new(command, TunnelId::from(n));
            let read = TunnelRequestHeader::read_from(Ok(ten(&header.write_to())));
            assert!(matches!(read, Ok(found) if found == header));
        }
    }
}

#[test]
fn response_read_of_written() {
    for code in 0..=255u8 {
        let header = TcpResponseHeader::new(TunnelReply::from_u8(code), TunnelId::from(9u64));
        let read = TcpResponseHeader::read_from(Ok(ten(&header.write_to())));
        assert!(matches!(read, Ok(found) if found == header));
    }
}

#[test]
fn written_of_read_headers() {
    let bytes = [1, 2, 9, 8, 7, 6, 5, 4, 3, 2];
    let request = TunnelRequestHeader::read_from(Ok(bytes)).unwrap();
    assert_eq!(&request.write_to()[..], &bytes);
    let bytes = [1, 250, 9, 8, 7, 6, 5, 4, 3, 2];
    let response = TcpResponseHeader::read_from(Ok(bytes)).unwrap();
    assert_eq!(&response.write_to()[..], &bytes);
}

#[test]
fn other_versions_are_refused() {
    let bytes = [2, 1, 0, 0, 0, 0, 0, 0, 0, 1];
    assert!(matches!(
        TunnelRequestHeader::read_from(Ok(bytes)),
        Err(TunnelProtocolError::UnsupportedTunnelVersion(2))
    ));
    assert!(matches!(
        TcpResponseHeader::read_from(Ok(bytes)),
        Err(TunnelProtocolError::UnsupportedTunnelVersion(2))
    ));
}

#[test]
fn the_version_is_looked_at_before_the_command() {
    assert!(matches!(
        TunnelRequestHeader::read_from(Ok([0, 9, 0, 0, 0, 0, 0, 0, 0, 1])),
        Err(TunnelProtocolError::UnsupportedTunnelVersion(0))
    ));
}

#[test]
fn other_commands_are_refused() {
    assert!(matches!(
        TunnelRequestHeader::read_from(Ok([1, 3, 0, 0, 0, 0, 0, 0, 0, 1])),
        Err(TunnelProtocolError::UnsupportedCommand(3))
    ));
}

#[test]
fn failed_reads_of_headers() {
    assert!(matches!(
        TunnelRequestHeader::read_from(Err(ErrorKind::UnexpectedEof)),
        Err(TunnelProtocolError::IoError(ErrorKind::UnexpectedEof))
    ));
    assert!(matches!(
        TcpResponseHeader::read_from(Err(ErrorKind::BrokenPipe)),
        Err(TunnelProtocolError::IoError(ErrorKind::BrokenPipe))
    ));
}

use std::io::ErrorKind;

use dephy_pproxy::command::CommandReply;
use dephy_pproxy::command::PProxyCommandResponse;
use dephy_pproxy::error::Error;
use dephy_pproxy::error::TunnelError;
use dephy_pproxy::error::TunnelProtocolError;

#[test]
fn tunnel_errors_of_io_errors() {
    assert_eq!(TunnelError::from(ErrorKind::ConnectionRefused), TunnelError::ConnectionRefused);
    assert_eq!(TunnelError::from(ErrorKind::ConnectionAborted), TunnelError::ConnectionAborted);
    assert_eq!(TunnelError::from(ErrorKind::ConnectionReset), TunnelError::ConnectionReset);
    assert_eq!(TunnelError::from(ErrorKind::NotConnected), TunnelError::NotConnected);
    assert_eq!(TunnelError::from(ErrorKind::AddrInUse), TunnelError::AddrInUse);
    assert_eq!(TunnelError::from(ErrorKind::TimedOut), TunnelError::Unknown);
    assert_eq!(TunnelError::from(ErrorKind::PermissionDenied), TunnelError::Unknown);
}

#[test]
fn tunnel_error_numbers() {
    assert_eq!(TunnelError::DataSendFailed.as_u8(), 1);
    assert_eq!(TunnelError::ConnectionTimeout.as_u8(), 2);
    assert_eq!(TunnelError::ConnectionRefused.as_u8(), 3);
    assert_eq!(TunnelError::ConnectionAborted.as_u8(), 4);
    assert_eq!(TunnelError::ConnectionReset.as_u8(), 5);
    assert_eq!(TunnelError::NotConnected.as_u8(), 6);
    assert_eq!(TunnelError::ConnectionClosed.as_u8(), 7);
    assert_eq!(TunnelError::AddrInUse.as_u8(), 8);
    assert_eq!(TunnelError::TunnelInUse.as_u8(), 9);
    assert_eq!(TunnelError::Unknown.as_u8(), 255);
}

#[test]
fn errors_are_wrapped() {
    assert!(matches!(
        Error::from(TunnelError::ConnectionTimeout),
        Error::Tunnel(TunnelError::ConnectionTimeout)
    ));
    assert!(matches!(
        Error::from(TunnelProtocolError::UnsupportedCommand(7)),
        Error::TunnelProtocolError(TunnelProtocolError::UnsupportedCommand(7))
    ));
}

#[test]
fn a_proxy_that_does_not_answer_is_gone() {
    assert!(matches!(CommandReply::<u8>::NotSent.answer(), Err(Error::EssentialTaskClosed)));
    assert!(matches!(CommandReply::<u8>::Canceled.answer(), Err(Error::EssentialTaskClosed)));
    let answered = CommandReply::<u8>::Answered(Ok(PProxyCommandResponse::CleanTunnel {}));
    assert!(matches!(answered.answer(), Ok(PProxyCommandResponse::CleanTunnel {})));
}

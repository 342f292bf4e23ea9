use std::str::FromStr;

use dephy_pproxy::bytes_be::u64_from_be;
use dephy_pproxy::bytes_be::u64_to_be;
use dephy_pproxy::decimal::push_decimal;
use dephy_pproxy::types::consts;
use dephy_pproxy::types::TunnelCommand;
use dephy_pproxy::types::TunnelId;
use dephy_pproxy::types::TunnelReply;

#[test]
fn tunnel_id_bytes_are_big_endian() {
    let id = TunnelId::from(0x0102_0304_0506_0708u64);
    assert_eq!(id.to_be_bytes(), [1, 2, 3, 4, 5, 6, 7, 8]);
    assert_eq!(TunnelId::from_be_bytes([1, 2, 3, 4, 5, 6, 7, 8]), id);
}

#[test]
fn tunnel_id_bytes_round_trip() {
    for n in [0u64, 1, 255, 256, u64::MAX - 1, u64::MAX] {
        let id = TunnelId::from(n);
        assert_eq!(TunnelId::from_be_bytes(id.to_be_bytes()), id);
        assert_eq!(u64_from_be(u64_to_be(n)), n);
        assert_eq!(u64_to_be(n), n.to_be_bytes());
    }
}

#[test]
fn tunnel_id_comes_from_smaller_numbers() {
    assert_eq!(TunnelId::from(7u8), TunnelId::from(7u64));
    assert_eq!(TunnelId::from(7u32).to_be_bytes(), [0, 0, 0, 0, 0, 0, 0, 7]);
}

#[test]
fn tunnel_id_text_is_decimal() {
    assert_eq!(TunnelId::from(0u64).to_string(), "0");
    assert_eq!(TunnelId::from(90210u64).to_string(), "90210");
    assert_eq!(TunnelId::from(u64::MAX).to_string(), "18446744073709551615");
}

#[test]
fn tunnel_id_text_round_trip() {
    for n in [0u64, 9, 10, 1000000007, u64::MAX] {
        let id = TunnelId::from(n);
        assert_eq!(TunnelId::parse(&id.to_string()).unwrap(), id);
        assert_eq!(TunnelId::from_str(&id.to_string()).unwrap(), id);
    }
}

#[test]
fn tunnel_id_text_may_have_a_plus_and_leading_zeros() {
    assert_eq!(TunnelId::parse("+007").unwrap(), TunnelId::from(7u64));
}

#[test]
fn tunnel_id_text_is_refused() {
    for text in ["", "+", "-1", " 1", "1 ", "0x1", "18446744073709551616", "++1"] {
        assert!(TunnelId::parse(text).is_err(), "{text:?}");
        assert!(TunnelId::from_str(text).is_err(), "{text:?}");
    }
}

#[test]
fn decimal_is_written_behind_the_text() {
    let mut text = String::from("port ");
    push_decimal(&mut text, 8080);
    assert_eq!(text, "port 8080");
}

#[test]
fn command_codes() {
    assert_eq!(TunnelCommand::TcpConnect.as_u8(), 1);
    assert_eq!(TunnelCommand::UdpConnect.as_u8(), 2);
    assert_eq!(TunnelCommand::from_u8(1), Some(TunnelCommand::TcpConnect));
    assert_eq!(TunnelCommand::from_u8(2), Some(TunnelCommand::UdpConnect));
    for code in [0u8, 3, 4, 255] {
        assert_eq!(TunnelCommand::from_u8(code), None);
    }
}

#[test]
fn reply_codes_round_trip() {
    for code in 0..=255u8 {
        assert_eq!(TunnelReply::from_u8(code).as_u8(), code);
    }
    assert_eq!(TunnelReply::from_u8(9), TunnelReply::OtherReply(9));
    assert_eq!(TunnelReply::from_u8(consts::TUNNEL_REPLY_TTL_EXPIRED), TunnelReply::TtlExpired);
}

#[test]
fn reply_codes_are_the_constants() {
    assert_eq!(TunnelReply::Succeeded.as_u8(), 0);
    assert_eq!(TunnelReply::GeneralFailure.as_u8(), 1);
    assert_eq!(TunnelReply::ConnectionNotAllowed.as_u8(), 2);
    assert_eq!(TunnelReply::NetworkUnreachable.as_u8(), 3);
    assert_eq!(TunnelReply::HostUnreachable.as_u8(), 4);
    assert_eq!(TunnelReply::ConnectionRefused.as_u8(), 5);
    assert_eq!(TunnelReply::TtlExpired.as_u8(), 6);
    assert_eq!(TunnelReply::CommandNotSupported.as_u8(), 7);
    assert_eq!(TunnelReply::AddressTypeNotSupported.as_u8(), 8);
    assert_eq!(TunnelReply::OtherReply(200).as_u8(), 200);
}

#[test]
fn a_named_code_in_other_reply_is_read_as_its_name() {
    assert_eq!(TunnelReply::from_u8(TunnelReply::OtherReply(0).as_u8()), TunnelReply::Succeeded);
}

#[test]
fn reply_texts() {
    assert_eq!(TunnelReply::Succeeded.to_string(), "Succeeded");
    assert_eq!(TunnelReply::AddressTypeNotSupported.to_string(), "Address type not supported");
    assert_eq!(TunnelReply::CommandNotSupported.to_string(), "Command not supported");
    assert_eq!(TunnelReply::ConnectionNotAllowed.to_string(), "Connection not allowed");
    assert_eq!(TunnelReply::ConnectionRefused.to_string(), "Connection refused");
    assert_eq!(TunnelReply::GeneralFailure.to_string(), "General failure");
    assert_eq!(TunnelReply::HostUnreachable.to_string(), "Host unreachable");
    assert_eq!(TunnelReply::NetworkUnreachable.to_string(), "Network unreachable");
    assert_eq!(TunnelReply::TtlExpired.to_string(), "TTL expired");
    assert_eq!(TunnelReply::OtherReply(42).to_string(), "Other reply (42)");
}

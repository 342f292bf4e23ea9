use dephy_pproxy::auth::AuthAction;
use dephy_pproxy::auth::AuthClient;
use dephy_pproxy::auth::AuthClientResponse;
use dephy_pproxy::auth::AuthEvent;
use dephy_pproxy::error::Error;
use dephy_pproxy::multiaddr::extract_peer_id_from_multiaddr;
use dephy_pproxy::multiaddr::Multiaddress;
use dephy_pproxy::p2p::new_swarm;
use dephy_pproxy::p2p::read_swarm_addresses;
use dephy_pproxy::p2p::IpAddr;
use dephy_pproxy::p2p::IDLE_CONNECTION_TIMEOUT;
use dephy_pproxy::p2p::PPROXY_PROTOCOL;
use dephy_pproxy::peer_id::PeerId;
use dephy_pproxy::server::P2pServer;
use dephy_pproxy::server::P2pServerEvent;
use dephy_pproxy::server::Reported;

const PEER: &str = "12D3KooWRNw2pJC9748Fmq4WNV27HoSTcX3r37132FLkQMrbKAiC";
const OTHER: &str = "QmcgpsyWgH8Y8ajJz1Cu72KnS5uo2Aa2LpzU7kinSupNKC";

#[test]
fn peer_id_text_round_trip() {
    for text in [PEER, OTHER] {
        let id = PeerId::parse(text).unwrap();
        assert_eq!(id.to_string(), text);
        assert_eq!(id.as_str(), text);
        assert_eq!(id.clone().to_string(), text);
    }
}

#[test]
fn peer_id_text_is_refused() {
    for text in ["", "peer", "12D3KooW", "0OIl", &format!(" {PEER}")] {
        assert!(PeerId::parse(text).is_err(), "{text:?}");
    }
}

#[test]
fn multiaddr_text_is_normalized() {
    let addr = Multiaddress::parse("/ip6/0:0:0:0:0:0:0:1/tcp/080").unwrap();
    assert_eq!(addr.to_string(), "/ip6/::1/tcp/80");
    assert_eq!(addr.clone().to_string(), "/ip6/::1/tcp/80");
}

#[test]
fn multiaddr_text_is_refused() {
    assert!(Multiaddress::parse("127.0.0.1:80").is_err());
    assert!(Multiaddress::parse("/ip4/300.0.0.1/tcp/80").is_err());
    let error = Multiaddress::parse("/nonsense").unwrap_err();
    assert_ne!(error, "/nonsense");
    assert!(!error.is_empty());
}

#[test]
fn multiaddr_through_libp2p() {
    let addr = Multiaddress::parse("/ip4/127.0.0.1/tcp/80").unwrap();
    let inner = addr.to_libp2p();
    assert_eq!(inner.to_string(), "/ip4/127.0.0.1/tcp/80");
    assert_eq!(Multiaddress::from_libp2p(inner).to_string(), "/ip4/127.0.0.1/tcp/80");
}

#[test]
fn relayed_address_text() {
    let peer_id = PeerId::parse(PEER).unwrap();
    let addr = Multiaddress::parse("/ip4/10.0.0.1/tcp/4001").unwrap();
    let relayed = addr.with_p2p_circuit().with_p2p(&peer_id);
    assert_eq!(relayed.to_string(), format!("/ip4/10.0.0.1/tcp/4001/p2p-circuit/p2p/{PEER}"));
    let found = extract_peer_id_from_multiaddr(&relayed).unwrap();
    assert_eq!(found.to_string(), PEER);
}

#[test]
fn peer_id_at_the_end_of_an_address() {
    let addr = Multiaddress::parse(&format!("/ip4/10.0.0.1/tcp/4001/p2p/{OTHER}")).unwrap();
    assert_eq!(extract_peer_id_from_multiaddr(&addr).unwrap().to_string(), OTHER);
    let text = format!("/ip4/10.0.0.1/tcp/4001/p2p/{OTHER}/p2p-circuit/p2p/{PEER}");
    let addr = Multiaddress::parse(&text).unwrap();
    assert_eq!(extract_peer_id_from_multiaddr(&addr).unwrap().to_string(), PEER);
}

#[test]
fn addresses_that_do_not_end_in_a_peer_id() {
    let texts = [
        "/ip4/10.0.0.1/tcp/4001".to_string(),
        format!("/ip4/10.0.0.1/tcp/4001/p2p/{OTHER}/p2p-circuit"),
        String::new(),
    ];
    for text in texts {
        let addr = Multiaddress::parse(&text).unwrap();
        match extract_peer_id_from_multiaddr(&addr) {
            Err(Error::FailedToExtractPeerIdFromMultiaddr(shown)) => assert_eq!(shown, text),
            other => panic!("{other:?}"),
        }
    }
}

#[test]
fn swarm_addresses_of_a_node() {
    assert_eq!(PPROXY_PROTOCOL, "/pproxy/1.0.0");
    assert_eq!(IDLE_CONNECTION_TIMEOUT, 60);
    let found = new_swarm(IpAddr::V4("127.0.0.1".to_string()), 6666, None).unwrap();
    assert_eq!(found.listen.to_string(), "/ip4/127.0.0.1/tcp/6666");
    assert!(found.external.is_none());
    let found = new_swarm(
        IpAddr::V6("::".to_string()),
        65535,
        Some(IpAddr::V4("203.0.113.9".to_string())),
    )
    .unwrap();
    assert_eq!(found.listen.to_string(), "/ip6/::/tcp/65535");
    assert_eq!(found.external.unwrap().to_string(), "/ip4/203.0.113.9/tcp/65535");
    let found = new_swarm(
        IpAddr::V4("0.0.0.0".to_string()),
        0,
        Some(IpAddr::V6("2001:db8::1".to_string())),
    )
    .unwrap();
    assert_eq!(found.external.unwrap().to_string(), "/ip6/2001:db8::1/tcp/0");
}

#[test]
fn swarm_addresses_that_cannot_be_read() {
    assert!(new_swarm(IpAddr::V4("::1".to_string()), 1, None).is_err());
    let external = Some(IpAddr::V6("10.0.0.1".to_string()));
    assert!(new_swarm(IpAddr::V4("10.0.0.1".to_string()), 1, external).is_err());
    let listen = Err("first".to_string());
    let external = Some(Err("second".to_string()));
    assert_eq!(read_swarm_addresses(listen, external).unwrap_err(), "first");
    let listen = Ok(Multiaddress::parse("/ip4/1.2.3.4/tcp/5").unwrap());
    let external = Some(Err("second".to_string()));
    assert_eq!(read_swarm_addresses(listen, external).unwrap_err(), "second");
}

#[test]
fn litep2p_node_settings() {
    let server = P2pServer::new(IpAddr::V6("fe80::1".to_string()), 30333);
    assert_eq!(server.listen_address, "/ip6/fe80::1/tcp/30333");
    assert_eq!(server.tunnel_config.name, "/pproxy/tunnel/1");
    assert_eq!(server.tunnel_config.max_size, 1024 * 1024);
    assert_eq!(server.tunnel_config.timeout, 120);
}

#[test]
fn litep2p_node_events() {
    let network = P2pServer::next_event(Reported::<u8, char>::Network(Some(1)));
    assert!(matches!(network, Some(P2pServerEvent::Litep2p(1))));
    let tunnel = P2pServer::next_event(Reported::<u8, char>::Tunnel(Some('t')));
    assert!(matches!(tunnel, Some(P2pServerEvent::TunnelEvent('t'))));
    assert!(P2pServer::next_event(Reported::<u8, char>::Network(None)).is_none());
    assert!(P2pServer::next_event(Reported::<u8, char>::Tunnel(None)).is_none());
}

fn auth_client(endpoint: &str) -> AuthClient {
    AuthClient::new(PeerId::parse(PEER).unwrap(), endpoint.to_string())
}

#[test]
fn access_is_asked_below_the_endpoint() {
    let client = auth_client("http://auth.example/v1/base?x=1");
    let event: AuthEvent<()> = AuthEvent::Requested { token: "a b&c".to_string() };
    match client.is_valid(event) {
        AuthAction::Send(query) => {
            assert_eq!(query.url, "http://auth.example/v1/access-control");
            assert_eq!(query.params[0], ("device".to_string(), PEER.to_string()));
            assert_eq!(query.params[1], ("token".to_string(), "a b&c".to_string()));
        }
        other => panic!("{other:?}"),
    }
}

#[test]
fn access_cannot_be_asked_without_a_base() {
    let event: AuthEvent<()> = AuthEvent::Requested { token: "t".to_string() };
    assert!(matches!(auth_client("mailto:a@b.example").is_valid(event), AuthAction::NoUrl));
    let event: AuthEvent<()> = AuthEvent::Requested { token: "t".to_string() };
    assert!(matches!(auth_client("not a url").is_valid(event), AuthAction::NoUrl));
    let none: AuthAction<()> = auth_client("http://a.example/").access_query(None, String::new());
    assert!(matches!(none, AuthAction::NoUrl));
}

#[test]
fn the_auth_server_decides() {
    let client = auth_client("http://auth.example/");
    for data in [true, false] {
        let event: AuthEvent<u8> = AuthEvent::Responded(Ok(AuthClientResponse { data }));
        assert!(matches!(client.is_valid(event), AuthAction::Done(Ok(valid)) if valid == data));
    }
    let event: AuthEvent<u8> = AuthEvent::Responded(Err(7));
    assert!(matches!(client.is_valid(event), AuthAction::Done(Err(7))));
}

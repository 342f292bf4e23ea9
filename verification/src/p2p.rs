//! Addresses and settings of the node in the peer-to-peer network.
use vstd::prelude::*;

use crate::multiaddr::Multiaddress;

verus! {

/// The protocol of the streams that tunnels run on.
pub const PPROXY_PROTOCOL: &'static str = "/pproxy/1.0.0";

/// Seconds after which a connection that nothing uses is closed.
pub const IDLE_CONNECTION_TIMEOUT: u64 = 60;

/// An IP address as text, with its version.
#[derive(Debug)]
pub enum IpAddr<Text = String> {
    V4(Text),
    V6(Text),
}

impl View for IpAddr {
    type V = IpAddr<Seq<char>>;

    open spec fn view(&self) -> IpAddr<Seq<char>> {
        match *self {
            IpAddr::V4(ip) => IpAddr::V4(ip@),
            IpAddr::V6(ip) => IpAddr::V6(ip@),
        }
    }
}

/// The text of the multiaddr of a TCP port: `/ip4/` or `/ip6/`, the IP address, `/tcp/` and the
/// port.
pub open spec fn tcp_multiaddr_text(ip: IpAddr<Seq<char>>, port: u16) -> Seq<char> {
    match ip {
        IpAddr::V4(ip) => "/ip4/"@ + ip + "/tcp/"@ + crate::decimal::decimal(port as nat),
        IpAddr::V6(ip) => "/ip6/"@ + ip + "/tcp/"@ + crate::decimal::decimal(port as nat),
    }
}

impl IpAddr {
    /// The text of the multiaddr of a TCP port at this IP address.
    pub fn tcp_multiaddr_text(&self, port: u16) -> (text: String)
        ensures
            text@ == tcp_multiaddr_text(self@, port),
    {
        let mut text = String::new();
        match self {
            IpAddr::V4(ip) => {
                text.append("/ip4/");
                text.append(ip.as_str());
            },
            IpAddr::V6(ip) => {
                text.append("/ip6/");
                text.append(ip.as_str());
            },
        }
        text.append("/tcp/");
        crate::decimal::push_decimal(&mut text, port as u64);
        assert(text@ =~= tcp_multiaddr_text(self@, port));
        text
    }
}

/// Where a node listens, and where it can be reached from outside if that is known.
#[derive(Debug)]
pub struct SwarmAddresses<Addr = Multiaddress> {
    pub listen: Addr,
    pub external: Option<Addr>,
}

impl View for SwarmAddresses {
    type V = SwarmAddresses<Seq<Seq<char>>>;

    open spec fn view(&self) -> SwarmAddresses<Seq<Seq<char>>> {
        SwarmAddresses {
            listen: self.listen@,
            external: match self.external {
                Some(addr) => Some(addr@),
                None => None,
            },
        }
    }
}

/// The addresses of a node whose listen address was read as `listen` and whose external address,
/// if it has one, was read as `external`. The first that could not be read gives the error.
pub open spec fn swarm_addresses(
    listen: Result<Seq<Seq<char>>, Seq<char>>,
    external: Option<Result<Seq<Seq<char>>, Seq<char>>>,
) -> Result<SwarmAddresses<Seq<Seq<char>>>, Seq<char>> {
    match (listen, external) {
        (Err(error), _) => Err(error),
        (Ok(_), Some(Err(error))) => Err(error),
        (Ok(listen), Some(Ok(external))) => Ok(SwarmAddresses { listen, external: Some(external) }),
        (Ok(listen), None) => Ok(SwarmAddresses { listen, external: None }),
    }
}

/// The view of an address that was read, or of the error.
pub open spec fn read_view(parsed: Result<Multiaddress, String>) -> Result<
    Seq<Seq<char>>,
    Seq<char>,
> {
    match parsed {
        Ok(addr) => Ok(addr@),
        Err(error) => Err(error@),
    }
}

/// The addresses of a node, out of what was read of each.
pub fn read_swarm_addresses(
    listen: Result<Multiaddress, String>,
    external: Option<Result<Multiaddress, String>>,
) -> (addresses: Result<SwarmAddresses, String>)
    ensures
        addresses matches Ok(found) ==> {
            &&& listen == Ok::<_, String>(found.listen)
            &&& external == match found.external {
                Some(addr) => Some(Ok::<_, String>(addr)),
                None => None,
            }
        },
        addresses matches Err(error) ==> {
            ||| listen == Err::<Multiaddress, _>(error)
            ||| listen is Ok && external == Some(Err::<Multiaddress, _>(error))
        },
        ({
            let external_view = match external {
                Some(parsed) => Some(read_view(parsed)),
                None => None,
            };
            match addresses {
                Ok(found) => swarm_addresses(read_view(listen), external_view) == Ok::<
                    _,
                    Seq<char>,
                >(found@),
                Err(error) => swarm_addresses(read_view(listen), external_view) == Err::<
                    SwarmAddresses<Seq<Seq<char>>>,
                    _,
                >(error@),
            }
        }),
{
    let listen = match listen {
        Ok(addr) => addr,
        Err(error) => return Err(error),
    };
    match external {
        None => Ok(SwarmAddresses { listen, external: None }),
        Some(Ok(addr)) => Ok(SwarmAddresses { listen, external: Some(addr) }),
        Some(Err(error)) => Err(error),
    }
}

/// The addresses of a node that listens on a TCP port, and that is reached from outside at the
/// same port of another IP address if one is given.
pub fn new_swarm(listen_ip: IpAddr, port: u16, external_ip: Option<IpAddr>) -> (addresses: Result<
    SwarmAddresses,
    String,
>)
    ensures
        ({
            let listen = crate::multiaddr::parsed_components(
                tcp_multiaddr_text(listen_ip@, port),
            );
            let external = match external_ip {
                Some(ip) => Some(
                    crate::multiaddr::parsed_components(tcp_multiaddr_text(ip@, port)),
                ),
                None => None,
            };
            match addresses {
                Ok(found) => swarm_addresses(listen, external) == Ok::<_, Seq<char>>(found@),
                Err(error) => swarm_addresses(listen, external) == Err::<
                    SwarmAddresses<Seq<Seq<char>>>,
                    _,
                >(error@),
            }
        }),
{
    let listen_text = listen_ip.tcp_multiaddr_text(port);
    let listen = Multiaddress::parse(listen_text.as_str());
    let external = match external_ip {
        None => None,
        Some(ip) => {
            let text = ip.tcp_multiaddr_text(port);
            Some(Multiaddress::parse(text.as_str()))
        },
    };
    read_swarm_addresses(listen, external)
}

/// The text of the multiaddr of a TCP port starts with the version of the IP address, goes on with
/// the IP address itself, and ends in the port as a decimal number.
pub proof fn law_tcp_multiaddr_text(ip: Seq<char>, port: u16)
    ensures
        tcp_multiaddr_text(IpAddr::V4(ip), port) == "/ip4/"@ + ip + "/tcp/"@
            + crate::decimal::decimal(port as nat),
        tcp_multiaddr_text(IpAddr::V6(ip), port) == "/ip6/"@ + ip + "/tcp/"@
            + crate::decimal::decimal(port as nat),
{
}

/// A node has addresses if and only if every address that it is given was read. Each of them is the
/// one that was read, and an external one is there if and only if one was given. Otherwise the
/// error is that of the listen address, or else that of the external one.
pub proof fn law_swarm_addresses(
    listen: Result<Seq<Seq<char>>, Seq<char>>,
    external: Option<Result<Seq<Seq<char>>, Seq<char>>>,
)
    ensures
        ({
            let found = swarm_addresses(listen, external);
            &&& found is Ok <==> listen is Ok && (external matches Some(read) ==> read is Ok)
            &&& found matches Ok(addresses) ==> {
                &&& listen == Ok::<_, Seq<char>>(addresses.listen)
                &&& addresses.external is None <==> external is None
                &&& addresses.external matches Some(addr) ==> external == Some(
                    Ok::<_, Seq<char>>(addr),
                )
            }
            &&& found matches Err(error) ==> if listen is Err {
                listen == Err::<Seq<Seq<char>>, _>(error)
            } else {
                external == Some(Err::<Seq<Seq<char>>, _>(error))
            }
        }),
{
}

/// What was read of an address is shown as its components, and an error as its text.
pub proof fn law_read_view(parsed: Result<Multiaddress, String>)
    ensures
        parsed matches Ok(addr) ==> read_view(parsed) == Ok::<_, Seq<char>>(addr@),
        parsed matches Err(error) ==> read_view(parsed) == Err::<Seq<Seq<char>>, _>(error@),
{
}

/// The views of an IP address and of the addresses of a node are the same, with the views of their
/// parts.
pub proof fn law_addresses_are_shown(ip: String, listen: Multiaddress, external: Multiaddress)
    ensures
        IpAddr::<String>::V4(ip)@ == IpAddr::<Seq<char>>::V4(ip@),
        IpAddr::<String>::V6(ip)@ == IpAddr::<Seq<char>>::V6(ip@),
        (SwarmAddresses { listen, external: None })@ == (SwarmAddresses {
            listen: listen@,
            external: None,
        }),
        (SwarmAddresses { listen, external: Some(external) })@ == (SwarmAddresses {
            listen: listen@,
            external: Some(external@),
        }),
{
}

} // verus!

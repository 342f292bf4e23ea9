//! Addresses made of protocol components.
use std::str::FromStr;

use libp2p::multiaddr::Protocol;
use vstd::prelude::*;

use crate::error::Error;
use crate::peer_id::PeerId;

verus! {

/// The address type of libp2p, a list of protocol components.
#[verifier::external_type_specification]
#[verifier::external_body]
pub struct ExLibp2pMultiaddr(libp2p::Multiaddr);

/// The components of an address in order, each as the text that `Protocol` displays for it.
pub uninterp spec fn components(addr: libp2p::Multiaddr) -> Seq<Seq<char>>;

/// What `Multiaddr::from_str` reads from `text`: the components of the address, or else the text
/// of its error.
pub uninterp spec fn parsed_components(text: Seq<char>) -> Result<Seq<Seq<char>>, Seq<char>>;

/// libp2p's `Multiaddr::from_str`, with its error as text.
#[verifier::external_body]
fn parse_multiaddr(text: &str) -> (parsed: Result<libp2p::Multiaddr, String>)
    ensures
        match parsed {
            Ok(addr) => parsed_components(text@) == Ok::<_, Seq<char>>(components(addr)),
            Err(error) => parsed_components(text@) == Err::<Seq<Seq<char>>, _>(error@),
        },
{
    libp2p::Multiaddr::from_str(text).map_err(|error| error.to_string())
}

/// `Clone` of libp2p's `Multiaddr`: the copy has the same components.
pub assume_specification[ <libp2p::Multiaddr as std::clone::Clone>::clone ](
    addr: &libp2p::Multiaddr,
) -> (copy: libp2p::Multiaddr)
    ensures
        components(copy) == components(*addr),
;

/// `Display` of libp2p's `Multiaddr`: the texts of the components, one behind the other.
#[verifier::external_body]
fn display_multiaddr(addr: &libp2p::Multiaddr) -> (text: String)
    ensures
        text@ == components(*addr).flatten(),
{
    addr.to_string()
}

/// `Multiaddr::push` of `Protocol::P2pCircuit`: one more component, displayed `/p2p-circuit`.
#[verifier::external_body]
fn push_p2p_circuit(addr: &mut libp2p::Multiaddr)
    ensures
        components(*final(addr)) == components(*old(addr)).push("/p2p-circuit"@),
{
    addr.push(Protocol::P2pCircuit)
}

/// `Multiaddr::push` of `Protocol::P2p`: one more component, displayed `/p2p/` and the base-58
/// text of the peer id.
#[verifier::external_body]
fn push_p2p(addr: &mut libp2p::Multiaddr, peer_id: &str)
    requires
        crate::peer_id::peer_id_text(peer_id@) == Some(peer_id@),
    ensures
        components(*final(addr)) == components(*old(addr)).push("/p2p/"@ + peer_id@),
{
    addr.push(Protocol::P2p(libp2p::PeerId::from_str(peer_id).unwrap()))
}

/// A component of an address: the peer id of a `/p2p/` component, or the text of another one.
#[derive(Debug)]
enum Component {
    P2p(String),
    Other(String),
}

impl Component {
    /// Whether the component is displayed as `text`. A peer id is in the text that it is read from
    /// again.
    spec fn is_displayed(self, text: Seq<char>) -> bool {
        match self {
            Component::P2p(id) => {
                &&& text == "/p2p/"@ + id@
                &&& crate::peer_id::peer_id_text(id@) == Some(id@)
            },
            Component::Other(other) => text == other@ && !("/p2p/"@.is_prefix_of(text)),
        }
    }
}

/// The items of `Multiaddr::iter`, which are the components in order: a `Protocol::P2p` as the
/// base-58 text of its peer id, which is read as the same peer id again, and any other one as the
/// text that it is displayed with. No other one is displayed with `/p2p/` in front.
#[verifier::external_body]
fn list_components(addr: &libp2p::Multiaddr) -> (list: Vec<Component>)
    ensures
        list@.len() == components(*addr).len(),
        forall|i: int|
            0 <= i < list@.len() ==> (#[trigger] list@[i]).is_displayed(components(*addr)[i]),
{
    addr.iter()
        .map(|protocol| match protocol {
            Protocol::P2p(id) => Component::P2p(id.to_base58()),
            other => Component::Other(other.to_string()),
        })
        .collect()
}

/// An address made of protocol components, such as `/ip4/127.0.0.1/tcp/80`.
///
/// Its view is the texts of the components in order.
#[derive(Debug)]
pub struct Multiaddress {
    inner: libp2p::Multiaddr,
}

impl View for Multiaddress {
    type V = Seq<Seq<char>>;

    closed spec fn view(&self) -> Seq<Seq<char>> {
        components(self.inner)
    }
}

/// The view of an address that may be missing.
pub open spec fn optional_view(addr: Option<Multiaddress>) -> Option<Seq<Seq<char>>> {
    match addr {
        Some(addr) => Some(addr@),
        None => None,
    }
}

/// The address of the node `local_peer_id` behind the relay at `addr`.
pub open spec fn relayed(addr: Seq<Seq<char>>, local_peer_id: Seq<char>) -> Seq<Seq<char>> {
    addr.push("/p2p-circuit"@).push("/p2p/"@ + local_peer_id)
}

impl Multiaddress {
    /// The address that `text` spells, or else what is wrong with it.
    pub fn parse(text: &str) -> (parsed: Result<Multiaddress, String>)
        ensures
            match parsed {
                Ok(addr) => parsed_components(text@) == Ok::<_, Seq<char>>(addr@),
                Err(error) => parsed_components(text@) == Err::<Seq<Seq<char>>, _>(error@),
            },
    {
        match parse_multiaddr(text) {
            Ok(inner) => Ok(Multiaddress { inner }),
            Err(error) => Err(error),
        }
    }

    /// The address that a libp2p value stands for.
    pub fn from_libp2p(inner: libp2p::Multiaddr) -> (addr: Multiaddress)
        ensures
            addr@ == components(inner),
    {
        Multiaddress { inner }
    }

    /// The libp2p value of the address.
    pub fn to_libp2p(&self) -> (inner: libp2p::Multiaddr)
        ensures
            components(inner) == self@,
    {
        self.inner.clone()
    }

    /// The text of the address.
    pub fn to_string(&self) -> (text: String)
        ensures
            text@ == self@.flatten(),
    {
        display_multiaddr(&self.inner)
    }

    /// The address with a relay circuit behind it.
    pub fn with_p2p_circuit(self) -> (addr: Multiaddress)
        ensures
            addr@ == self@.push("/p2p-circuit"@),
    {
        let mut inner = self.inner;
        push_p2p_circuit(&mut inner);
        Multiaddress { inner }
    }

    /// The address with a peer id behind it.
    pub fn with_p2p(self, peer_id: &PeerId) -> (addr: Multiaddress)
        ensures
            addr@ == self@.push("/p2p/"@ + peer_id@),
    {
        let mut inner = self.inner;
        push_p2p(&mut inner, peer_id.as_str());
        Multiaddress { inner }
    }

    /// The peer id that the address ends in.
    fn last_peer_id(&self) -> (peer_id: Option<PeerId>)
        ensures
            match peer_id {
                Some(id) => self@.len() > 0 && self@.last() == "/p2p/"@ + id@,
                None => self@.len() == 0 || !("/p2p/"@.is_prefix_of(self@.last())),
            },
    {
        let mut list = list_components(&self.inner);
        match list.pop() {
            Some(Component::P2p(text)) => Some(PeerId::of_base58(text)),
            _ => None,
        }
    }
}

impl Clone for Multiaddress {
    fn clone(&self) -> (copy: Multiaddress)
        ensures
            copy@ == self@,
    {
        Multiaddress { inner: self.inner.clone() }
    }
}

/// The peer id in the last component of an address, if that component is a peer id.
pub open spec fn last_peer(addr: Seq<Seq<char>>) -> Option<Seq<char>> {
    if addr.len() > 0 && "/p2p/"@.is_prefix_of(addr.last()) {
        Some(addr.last().skip("/p2p/"@.len() as int))
    } else {
        None
    }
}

/// The peer id that an address ends in; without one the error holds the address.
pub fn extract_peer_id_from_multiaddr(multiaddr: &Multiaddress) -> (peer_id: Result<PeerId, Error>)
    ensures
        match peer_id {
            Ok(id) => last_peer(multiaddr@) == Some(id@),
            Err(error) => {
                &&& last_peer(multiaddr@) is None
                &&& error@ == Error::FailedToExtractPeerIdFromMultiaddr(multiaddr@.flatten())
            },
        },
{
    match multiaddr.last_peer_id() {
        Some(id) => {
            proof {
                lemma_last_peer(multiaddr@, id@);
            }
            Ok(id)
        },
        None => Err(Error::FailedToExtractPeerIdFromMultiaddr(multiaddr.to_string())),
    }
}

/// An address whose last component is a peer id ends in that peer id.
pub proof fn lemma_last_peer(addr: Seq<Seq<char>>, peer_id: Seq<char>)
    requires
        addr.len() > 0,
        addr.last() == "/p2p/"@ + peer_id,
    ensures
        last_peer(addr) == Some(peer_id),
{
    let mark = "/p2p/"@;
    assert(mark =~= addr.last().subrange(0, mark.len() as int));
    assert(addr.last().skip(mark.len() as int) =~= peer_id);
}

/// The relayed form of an address keeps the address in front, and the local peer id can be
/// extracted from it.
pub proof fn law_relayed_address(addr: Seq<Seq<char>>, local_peer_id: Seq<char>)
    ensures
        relayed(addr, local_peer_id).take(addr.len() as int) == addr,
        last_peer(relayed(addr, local_peer_id)) == Some(local_peer_id),
{
    assert(relayed(addr, local_peer_id).take(addr.len() as int) =~= addr);
    lemma_last_peer(relayed(addr, local_peer_id), local_peer_id);
}

/// The address of a node behind a relay, whatever the relay's address ends in, has exactly two
/// components more than the relay's address, which it starts with: right behind it the circuit, and
/// at the end the peer id of the node.
pub proof fn law_relayed_components(addr: Seq<Seq<char>>, local_peer_id: Seq<char>)
    ensures
        ({
            let behind = relayed(addr, local_peer_id);
            &&& behind.len() == addr.len() + 2
            &&& forall|i: int| 0 <= i < addr.len() ==> #[trigger] behind[i] == addr[i]
            &&& behind[addr.len() as int] == "/p2p-circuit"@
            &&& behind.last() == "/p2p/"@ + local_peer_id
        }),
{
}

/// An address ends in a peer id if and only if its last component is `/p2p/` and that peer id.
pub proof fn law_last_peer(addr: Seq<Seq<char>>, peer_id: Seq<char>)
    ensures
        last_peer(addr) == Some(peer_id) <==> addr.len() > 0 && addr.last() == "/p2p/"@ + peer_id,
        last_peer(addr) is None <==> addr.len() == 0 || !("/p2p/"@.is_prefix_of(addr.last())),
{
    if addr.len() > 0 && addr.last() == "/p2p/"@ + peer_id {
        lemma_last_peer(addr, peer_id);
    }
    if last_peer(addr) == Some(peer_id) {
        let mark = "/p2p/"@;
        assert(mark =~= addr.last().subrange(0, mark.len() as int));
        assert(addr.last() =~= mark + peer_id);
    }
}

} // verus!

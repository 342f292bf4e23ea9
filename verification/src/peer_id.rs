//! Identifiers of peers.
use std::str::FromStr;

use vstd::prelude::*;

use crate::table::TableKey;

verus! {

/// The error of libp2p's peer id parser.
#[verifier::external_type_specification]
#[verifier::external_body]
pub struct ExPeerIdParseError(libp2p::identity::ParseError);

/// The base-58 text of the peer id that `PeerId::from_str` reads from `text`, if it reads one.
pub uninterp spec fn peer_id_text(text: Seq<char>) -> Option<Seq<char>>;

/// libp2p's `PeerId::from_str`, followed by `PeerId::to_base58` so that the peer id comes back as
/// its text. That text is read as the same peer id again.
#[verifier::external_body]
fn parse_peer_id(text: &str) -> (parsed: Result<String, libp2p::identity::ParseError>)
    ensures
        match parsed {
            Ok(id) => peer_id_text(text@) == Some(id@) && peer_id_text(id@) == Some(id@),
            Err(_) => peer_id_text(text@) is None,
        },
{
    libp2p::PeerId::from_str(text).map(|id| id.to_base58())
}

/// Identifier of a peer of the network, held as its base-58 text.
#[derive(Debug)]
pub struct PeerId {
    text: String,
}

impl View for PeerId {
    type V = Seq<char>;

    closed spec fn view(&self) -> Seq<char> {
        self.text@
    }
}

impl PeerId {
    /// The text of a peer id is the one that its peer id is written with.
    #[verifier::type_invariant]
    spec fn is_base58(self) -> bool {
        peer_id_text(self.text@) == Some(self.text@)
    }

    /// The peer id that `text` spells.
    pub fn parse(text: &str) -> (parsed: Result<PeerId, libp2p::identity::ParseError>)
        ensures
            match parsed {
                Ok(id) => peer_id_text(text@) == Some(id@),
                Err(_) => peer_id_text(text@) is None,
            },
    {
        match parse_peer_id(text) {
            Ok(text) => Ok(PeerId { text }),
            Err(error) => Err(error),
        }
    }

    /// The peer id with the base-58 text `text`.
    pub(crate) fn of_base58(text: String) -> (id: PeerId)
        requires
            peer_id_text(text@) == Some(text@),
        ensures
            id@ == text@,
    {
        PeerId { text }
    }

    /// The base-58 text of the peer id.
    pub fn to_string(&self) -> (text: String)
        ensures
            text@ == self@,
            peer_id_text(text@) == Some(text@),
    {
        proof {
            use_type_invariant(self);
        }
        self.text.clone()
    }

    /// The base-58 text of the peer id.
    pub fn as_str(&self) -> (text: &str)
        ensures
            text@ == self@,
            peer_id_text(text@) == Some(text@),
    {
        proof {
            use_type_invariant(self);
        }
        self.text.as_str()
    }
}

impl Clone for PeerId {
    fn clone(&self) -> (copy: PeerId)
        ensures
            copy@ == self@,
    {
        proof {
            use_type_invariant(self);
        }
        PeerId { text: self.text.clone() }
    }
}

impl TableKey for PeerId {
    fn same_key(&self, other: &PeerId) -> (same: bool) {
        self.text == other.text
    }
}

} // verus!

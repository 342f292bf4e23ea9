//! Questions to a server that knows which tokens grant access to this node.
use vstd::prelude::*;

use crate::peer_id::PeerId;

verus! {

/// The path of the question below the endpoint.
pub const ACCESS_CONTROL_PATH: &'static str = "access-control";

/// The text of the URL that `Url::join` gives for the URL that `base` spells and the text `path`,
/// if `base` spells a URL and the two can be joined.
pub uninterp spec fn url_join(base: Seq<char>, path: Seq<char>) -> Option<Seq<char>>;

/// reqwest's `Url::join`, on a base that is given as text, with the result as text.
#[verifier::external_body]
fn join_url(base: &str, path: &str) -> (joined: Option<String>)
    ensures
        match joined {
            Some(url) => url_join(base@, path@) == Some(url@),
            None => url_join(base@, path@) is None,
        },
{
    let base = reqwest::Url::parse(base).ok()?;
    base.join(path).ok().map(String::from)
}

/// A question to the server: a GET request for the URL with two query parameters, each a name and
/// a value.
#[derive(Debug)]
pub struct AccessQuery {
    pub url: String,
    pub params: [(String, String); 2],
}

/// What the server replies.
#[derive(Debug)]
pub struct AuthClientResponse {
    pub data: bool,
}

/// What happens while the server is asked. `E` is the type of the errors of a request.
#[derive(Debug)]
pub enum AuthEvent<E> {
    /// It is asked whether the token grants access.
    Requested { token: String },
    /// The server replied, or could not be asked.
    Responded(Result<AuthClientResponse, E>),
}

/// What is to be done while the server is asked.
#[derive(Debug)]
pub enum AuthAction<E> {
    /// The endpoint cannot be asked, because no path can be joined to it.
    NoUrl,
    /// Send the question.
    Send(AccessQuery),
    /// Nothing more.
    Done(Result<bool, E>),
}

/// Asks a server whether tokens grant access to this node.
#[derive(Debug)]
pub struct AuthClient {
    local_id: PeerId,
    endpoint: String,
}

/// The view of a client: the peer id of this node and the text of the endpoint's URL.
pub struct AuthClientView {
    pub local_id: Seq<char>,
    pub endpoint: Seq<char>,
}

impl View for AuthClient {
    type V = AuthClientView;

    closed spec fn view(&self) -> AuthClientView {
        AuthClientView { local_id: self.local_id@, endpoint: self.endpoint@ }
    }
}

/// Whether the action asks about `token` on behalf of `local_id` at `url`, or says that there is
/// no URL.
pub open spec fn asks<E>(
    action: AuthAction<E>,
    url: Option<Seq<char>>,
    local_id: Seq<char>,
    token: Seq<char>,
) -> bool {
    match url {
        None => action is NoUrl,
        Some(url) => {
            &&& action matches AuthAction::Send(query)
            &&& query.url@ == url
            &&& query.params[0].0@ == "device"@
            &&& query.params[0].1@ == local_id
            &&& query.params[1].0@ == "token"@
            &&& query.params[1].1@ == token
        },
    }
}

impl AuthClient {
    pub fn new(local_id: PeerId, endpoint: String) -> (client: AuthClient)
        ensures
            client@ == (AuthClientView { local_id: local_id@, endpoint: endpoint@ }),
    {
        AuthClient { local_id, endpoint }
    }

    /// The question about a token, at the URL that the path of the question leads to.
    pub fn access_query<E>(&self, url: Option<String>, token: String) -> (action: AuthAction<E>)
        ensures
            asks(
                action,
                match url {
                    Some(text) => Some(text@),
                    None => None,
                },
                self@.local_id,
                token@,
            ),
    {
        match url {
            None => AuthAction::NoUrl,
            Some(url) => {
                let device = ("device".to_owned(), self.local_id.to_string());
                let token = ("token".to_owned(), token);
                AuthAction::Send(AccessQuery { url, params: [device, token] })
            },
        }
    }

    /// Whether a token grants access to this node, step by step: the server decides.
    pub fn is_valid<E>(&self, event: AuthEvent<E>) -> (action: AuthAction<E>)
        ensures
            match event {
                AuthEvent::Requested { token } => asks(
                    action,
                    url_join(self@.endpoint, ACCESS_CONTROL_PATH@),
                    self@.local_id,
                    token@,
                ),
                AuthEvent::Responded(Ok(response)) => action == AuthAction::<E>::Done(
                    Ok(response.data),
                ),
                AuthEvent::Responded(Err(error)) => action == AuthAction::<E>::Done(Err(error)),
            },
    {
        match event {
            AuthEvent::Requested { token } => {
                let url = join_url(self.endpoint.as_str(), ACCESS_CONTROL_PATH);
                self.access_query(url, token)
            },
            AuthEvent::Responded(Ok(response)) => AuthAction::Done(Ok(response.data)),
            AuthEvent::Responded(Err(error)) => AuthAction::Done(Err(error)),
        }
    }
}

/// A question is a question about the token, on behalf of the node, at the URL: it has two
/// parameters, first the peer id of the node as `device` and then the token as `token`. Without a
/// URL there is none.
pub proof fn law_question<E>(
    action: AuthAction<E>,
    url: Option<Seq<char>>,
    local_id: Seq<char>,
    token: Seq<char>,
)
    requires
        asks(action, url, local_id, token),
    ensures
        url is None <==> action is NoUrl,
        url matches Some(text) ==> {
            &&& action matches AuthAction::Send(query)
            &&& query.url@ == text
            &&& query.params@.len() == 2
            &&& query.params[0].0@ == "device"@
            &&& query.params[0].1@ == local_id
            &&& query.params[1].0@ == "token"@
            &&& query.params[1].1@ == token
        },
{
}

/// The question is asked at `access-control`, relative to the endpoint.
pub proof fn law_path_of_the_question()
    ensures
        ACCESS_CONTROL_PATH@ == "access-control"@,
{
}

} // verus!

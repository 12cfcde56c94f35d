//! Servers that help peers to find a path to each other.

use vstd::prelude::*;

use crate::text::owned_text;

verus! {

/// A STUN or TURN server.
#[derive(Debug, PartialEq, Eq)]
pub struct IceServer<S = String, L = Vec<String>> {
    pub urls: L,
    pub username: Option<S>,
    pub credential: Option<S>,
}

/// A server, its texts taken as sequences.
pub type Ice = IceServer<Seq<char>, Seq<Seq<char>>>;

/// The texts of a list.
pub open spec fn texts(list: Seq<String>) -> Seq<Seq<char>> {
    list.map_values(|s: String| s@)
}

/// What a list of servers holds.
pub open spec fn servers_of(list: Seq<IceServer>) -> Seq<Ice> {
    list.map_values(|s: IceServer| s@)
}

impl View for IceServer {
    type V = Ice;

    open spec fn view(&self) -> Ice {
        IceServer {
            urls: texts(self.urls@),
            username: owned_text(self.username),
            credential: owned_text(self.credential),
        }
    }
}

impl IceServer {
    /// A server that wants no credentials.
    pub fn new(urls: Vec<String>) -> (server: IceServer)
        ensures
            server@ == (Ice { urls: texts(urls@), username: None, credential: None }),
    {
        IceServer { urls, username: None, credential: None }
    }

    /// A server that wants credentials.
    pub fn with_credentials(urls: Vec<String>, username: &str, credential: &str) -> (server:
        IceServer)
        ensures
            server@ == (IceServer {
                urls: texts(urls@),
                username: Some(username@),
                credential: Some(credential@),
            }),
    {
        IceServer {
            urls,
            username: Some(username.to_string()),
            credential: Some(credential.to_string()),
        }
    }
}

} // verus!

//! Where to ask for TURN credentials, and what to make of the answer.

use vstd::prelude::*;
use vstd::string::*;

use crate::rtc::address::{
    url_endpoint, url_endpoint_of, url_host_of, url_scheme, url_scheme_of, MAX_ADDRESS_LEN,
    MAX_PARSED_LEN,
};
use crate::rtc::resolve::{fallback_applies, RELAY_HOST};
use crate::signaling::{texts, Ice, IceServer};
use crate::text::{chars_of, lemma_trimmed_len, owned_text, text_equal, trim, trimmed};

verus! {

/// How long an answer is waited for, in seconds.
pub const FETCH_TIMEOUT_SECS: u64 = 5;

/// The scheme under which a relay of this scheme hands out credentials.
pub open spec fn credentials_scheme(scheme: Seq<char>) -> Seq<char> {
    if scheme == "ws"@ || scheme == "http"@ {
        "http"@
    } else {
        "https"@
    }
}

/// The scheme under which a relay of this scheme hands out credentials.
pub fn https_scheme(scheme: &str) -> (out: &'static str)
    ensures
        out@ == credentials_scheme(scheme@),
{
    if text_equal(scheme, "ws") || text_equal(scheme, "http") {
        "http"
    } else {
        "https"
    }
}

/// Where a relay hands out credentials to a peer, given its scheme.
pub open spec fn credentials_url(
    relay: Seq<char>,
    scheme: Option<Seq<char>>,
    peer_id: Seq<char>,
) -> Option<Seq<char>> {
    match scheme {
        None => None,
        Some(s) => url_endpoint_of(
            relay,
            credentials_scheme(s),
            "/turn-credentials"@,
            "peer_id="@ + peer_id,
        ),
    }
}

/// Where a relay hands out credentials to a peer. There is no such place where the
/// relay's address is blank or no address.
pub fn turn_credentials_url(relay_server_url: &str, peer_id: &str) -> (url: Option<String>)
    requires
        relay_server_url@.len() <= MAX_ADDRESS_LEN,
        peer_id@.len() <= MAX_ADDRESS_LEN,
    ensures
        owned_text(url) == (if trimmed(relay_server_url@).len() == 0 {
            None
        } else {
            credentials_url(
                trimmed(relay_server_url@),
                url_scheme_of(trimmed(relay_server_url@)),
                peer_id@,
            )
        }),
{
    proof {
        lemma_trimmed_len(relay_server_url@);
        reveal_strlit("http");
        reveal_strlit("https");
        reveal_strlit("peer_id=");
        reveal_strlit("/turn-credentials");
    }
    let relay: String = trim(relay_server_url);
    if chars_of(relay.as_str()).len() == 0 {
        return None;
    }
    let scheme: String = match url_scheme(relay.as_str()) {
        Some(scheme) => scheme,
        None => return None,
    };
    let mut query: String = "peer_id=".to_string();
    query.append(peer_id);
    url_endpoint(
        relay.as_str(),
        https_scheme(scheme.as_str()),
        "/turn-credentials",
        query.as_str(),
    )
}

/// What a relay answers.
pub struct TurnCredentials {
    pub username: String,
    pub credential: String,
    pub urls: Vec<String>,
}

/// The server of an answer: none where the request failed, where the answer could not
/// be read, or where it names no address.
pub fn ice_server_from_reply(success: bool, reply: Option<TurnCredentials>) -> (server: Option<
    IceServer,
>)
    ensures
        match reply {
            Some(creds) => if success && creds.urls@.len() > 0 {
                server is Some && server->Some_0@ == (Ice {
                    urls: texts(creds.urls@),
                    username: Some(creds.username@),
                    credential: Some(creds.credential@),
                })
            } else {
                server is None
            },
            None => server is None,
        },
{
    if !success {
        return None;
    }
    match reply {
        Some(creds) => {
            if creds.urls.len() == 0 {
                return None;
            }
            Some(
                IceServer {
                    urls: creds.urls,
                    username: Some(creds.username),
                    credential: Some(creds.credential),
                },
            )
        },
        None => None,
    }
}

/// What to do after the first request.
pub enum FetchStep {
    /// This is the outcome.
    Done(Option<IceServer>),
    /// Ask again, at the relay's known address.
    AskFallback,
}

/// Decides what to do after the first request: one that brought nothing is made
/// again, at a known address, if the relay is the official one.
pub fn after_first_fetch(relay_server_url: &str, first: Option<IceServer>) -> (step: FetchStep)
    requires
        relay_server_url@.len() <= MAX_PARSED_LEN,
    ensures
        match first {
            Some(server) => step matches FetchStep::Done(Some(s)) && s@ == server@,
            None => if url_host_of(relay_server_url@) == Some(RELAY_HOST@) {
                step is AskFallback
            } else {
                step matches FetchStep::Done(None)
            },
        },
{
    match first {
        Some(server) => FetchStep::Done(Some(server)),
        None => {
            if fallback_applies(relay_server_url) {
                FetchStep::AskFallback
            } else {
                FetchStep::Done(None)
            }
        },
    }
}

/// Credentials come over a plain connection exactly from a relay that is itself reached
/// over one, and over an encrypted one from every other.
pub proof fn law_credentials_keep_the_protection(scheme: Seq<char>)
    ensures
        scheme == "ws"@ || scheme == "http"@ ==> credentials_scheme(scheme) == "http"@,
        scheme != "ws"@ && scheme != "http"@ ==> credentials_scheme(scheme) == "https"@,
{
}

/// Credentials are asked for at the relay itself, for this peer, and nowhere where the
/// relay's address has no scheme.
pub proof fn law_credentials_are_asked_at_the_relay(
    relay: Seq<char>,
    scheme: Option<Seq<char>>,
    peer_id: Seq<char>,
)
    ensures
        scheme is None ==> credentials_url(relay, scheme, peer_id) is None,
        scheme matches Some(s) ==> credentials_url(relay, scheme, peer_id) == url_endpoint_of(
            relay,
            if s == "ws"@ || s == "http"@ {
                "http"@
            } else {
                "https"@
            },
            "/turn-credentials"@,
            "peer_id="@ + peer_id,
        ),
{
}

} // verus!

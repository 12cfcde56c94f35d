//! Addressing of the official relay where its name does not resolve.

use vstd::prelude::*;
use vstd::string::*;

use crate::rtc::address::{url_host, url_host_of, MAX_PARSED_LEN};
use crate::signaling::{servers_of, texts, Ice, IceServer};
use crate::text::{borrow, copy_text, has_prefix, replace, replaced, text_equal, text_of};

verus! {

/// The name of the official relay.
pub const RELAY_HOST: &'static str = "relay.plenumonline.me";

/// The address of the official relay.
pub const RELAY_FALLBACK_IP: &'static str = "13.232.226.146";

/// Whether a host is the official relay.
pub fn is_relay_host(host: Option<&str>) -> (is_relay: bool)
    ensures
        is_relay == (text_of(host) == Some(RELAY_HOST@)),
{
    match host {
        Some(name) => text_equal(name, RELAY_HOST),
        None => false,
    }
}

/// Whether an address is one of the official relay.
pub fn fallback_applies(url: &str) -> (applies: bool)
    requires
        url@.len() <= MAX_PARSED_LEN,
    ensures
        applies == (url_host_of(url@) == Some(RELAY_HOST@)),
{
    let host: Option<String> = url_host(url);
    is_relay_host(borrow(&host))
}

/// An address with the relay's name replaced by its address.
pub open spec fn rewritten(url: Seq<char>) -> Seq<char> {
    replaced(url, RELAY_HOST@, RELAY_FALLBACK_IP@)
}

/// Replaces the relay's name in an address by its address.
pub fn rewrite_host_to_fallback_ip(url: &str) -> (out: String)
    ensures
        out@ == rewritten(url@),
{
    proof {
        reveal_strlit("relay.plenumonline.me");
    }
    replace(url, RELAY_HOST, RELAY_FALLBACK_IP)
}

/// A server with the relay's name replaced in its addresses.
pub open spec fn rewritten_server(server: Ice) -> Ice {
    IceServer { urls: server.urls.map_values(|url: Seq<char>| rewritten(url)), ..server }
}

/// Servers with the relay's name replaced in their addresses.
pub open spec fn rewritten_servers(servers: Seq<Ice>) -> Seq<Ice> {
    servers.map_values(|server: Ice| rewritten_server(server))
}

fn rewrite_urls(urls: &Vec<String>) -> (out: Vec<String>)
    ensures
        texts(out@) == texts(urls@).map_values(|url: Seq<char>| rewritten(url)),
{
    let mut out: Vec<String> = Vec::new();
    let mut i: usize = 0;
    while i < urls.len()
        invariant
            i <= urls@.len(),
            out@.len() == i,
            forall|j: int| 0 <= j < i ==> (#[trigger] out@[j])@ == rewritten(urls@[j]@),
        decreases urls@.len() - i,
    {
        let url: String = rewrite_host_to_fallback_ip(urls[i].as_str());
        out.push(url);
        i = i + 1;
    }
    assert(texts(out@) =~= texts(urls@).map_values(|url: Seq<char>| rewritten(url)));
    out
}

/// Replaces the relay's name in the addresses of all servers.
pub fn rewrite_ice_servers_to_fallback_ip(servers: &[IceServer]) -> (out: Vec<IceServer>)
    ensures
        servers_of(out@) == rewritten_servers(servers_of(servers@)),
{
    let mut out: Vec<IceServer> = Vec::new();
    let mut i: usize = 0;
    while i < servers.len()
        invariant
            i <= servers@.len(),
            out@.len() == i,
            forall|j: int|
                0 <= j < i ==> (#[trigger] out@[j])@ == rewritten_server(servers@[j]@),
        decreases servers@.len() - i,
    {
        let server: &IceServer = &servers[i];
        out.push(
            IceServer {
                urls: rewrite_urls(&server.urls),
                username: copy_text(&server.username),
                credential: copy_text(&server.credential),
            },
        );
        i = i + 1;
    }
    assert(servers_of(out@) =~= rewritten_servers(servers_of(servers@)));
    out
}

/// Whether a text holds the relay's name.
pub open spec fn names_relay(url: Seq<char>) -> bool {
    exists|i: int| 0 <= i <= url.len() && #[trigger] has_prefix(url.skip(i), RELAY_HOST@)
}

/// An address that does not name the relay stays as it is.
pub proof fn law_other_addresses_stay(url: Seq<char>)
    requires
        !names_relay(url),
    ensures
        rewritten(url) == url,
    decreases url.len(),
{
    if url.len() > 0 {
        assert(url.skip(0) =~= url);
        let rest = url.skip(1);
        assert forall|i: int| 0 <= i <= rest.len() implies !(#[trigger] has_prefix(
            rest.skip(i),
            RELAY_HOST@,
        )) by {
            assert(rest.skip(i) =~= url.skip(i + 1));
        }
        law_other_addresses_stay(rest);
        assert(seq![url[0]] + rest =~= url);
    }
}

/// Rewriting changes addresses only: the servers stay as many and in order, and keep
/// their credentials.
pub proof fn law_rewriting_keeps_credentials(servers: Seq<Ice>, i: int)
    requires
        0 <= i < servers.len(),
    ensures
        ({
            let out = rewritten_servers(servers);
            &&& out.len() == servers.len()
            &&& out[i].username == servers[i].username
            &&& out[i].credential == servers[i].credential
            &&& out[i].urls.len() == servers[i].urls.len()
        }),
{
}

/// What the relay's name and address are made of: the name starts with a letter, the
/// address with a digit that the name does not have, and the address has no letter.
proof fn lemma_name_and_address()
    ensures
        RELAY_HOST@.len() > 0,
        RELAY_HOST@[0] == 'r',
        RELAY_FALLBACK_IP@.len() > 0,
        RELAY_FALLBACK_IP@[0] == '1',
        forall|i: int| 0 <= i < RELAY_HOST@.len() ==> #[trigger] RELAY_HOST@[i] != '1',
        forall|i: int|
            0 <= i < RELAY_FALLBACK_IP@.len() ==> #[trigger] RELAY_FALLBACK_IP@[i] != 'r',
{
    reveal_strlit("relay.plenumonline.me");
    reveal_strlit("13.232.226.146");
}

/// Where a rewritten address starts with the end of the relay's name, so did the address.
proof fn lemma_rewritten_prefix(url: Seq<char>, at: int)
    requires
        0 <= at < RELAY_HOST@.len(),
        has_prefix(rewritten(url), RELAY_HOST@.skip(at)),
    ensures
        has_prefix(url, RELAY_HOST@.skip(at)),
        !has_prefix(url, RELAY_HOST@),
    decreases url.len(),
{
    lemma_name_and_address();
    let wanted = RELAY_HOST@.skip(at);
    let out = rewritten(url);
    assert(out.take(wanted.len() as int)[0] == out[0]);
    assert(out[0] == wanted[0]);
    assert(wanted[0] == RELAY_HOST@[at]);
    assert(url.len() > 0);
    if has_prefix(url, RELAY_HOST@) {
        assert(out[0] == RELAY_FALLBACK_IP@[0]);
        assert(false);
    }
    let rest = url.skip(1);
    assert(out =~= seq![url[0]] + rewritten(rest));
    assert(out.skip(1) =~= rewritten(rest));
    if at + 1 < RELAY_HOST@.len() {
        let shorter = RELAY_HOST@.skip(at + 1);
        assert(wanted.skip(1) =~= shorter);
        assert(out.take(wanted.len() as int).skip(1) =~= out.skip(1).take(shorter.len() as int));
        lemma_rewritten_prefix(rest, at + 1);
        assert(wanted =~= seq![url[0]] + shorter);
        assert(url.take(wanted.len() as int) =~= seq![url[0]] + rest.take(shorter.len() as int));
    } else {
        assert(wanted =~= seq![url[0]]);
        assert(url.take(1) =~= seq![url[0]]);
    }
}

proof fn lemma_no_name_at(url: Seq<char>, at: int)
    requires
        0 <= at <= rewritten(url).len(),
    ensures
        !has_prefix(rewritten(url).skip(at), RELAY_HOST@),
    decreases url.len(),
{
    lemma_name_and_address();
    let out = rewritten(url);
    if at == 0 {
        assert(out.skip(0) =~= out);
        assert(RELAY_HOST@.skip(0) =~= RELAY_HOST@);
        if has_prefix(out, RELAY_HOST@) {
            lemma_rewritten_prefix(url, 0);
        }
    } else if has_prefix(url, RELAY_HOST@) {
        let rest = url.skip(RELAY_HOST@.len() as int);
        let n = RELAY_FALLBACK_IP@.len() as int;
        assert(out =~= RELAY_FALLBACK_IP@ + rewritten(rest));
        if at < n {
            if has_prefix(out.skip(at), RELAY_HOST@) {
                assert(out.skip(at).take(RELAY_HOST@.len() as int)[0] == RELAY_FALLBACK_IP@[at]);
            }
        } else {
            assert(out.skip(at) =~= rewritten(rest).skip(at - n));
            lemma_no_name_at(rest, at - n);
        }
    } else if url.len() > 0 {
        let rest = url.skip(1);
        assert(out =~= seq![url[0]] + rewritten(rest));
        assert(out.skip(at) =~= rewritten(rest).skip(at - 1));
        lemma_no_name_at(rest, at - 1);
    }
}

/// A rewritten address no longer names the relay, and rewriting it again changes nothing.
pub proof fn law_rewriting_leaves_no_name(url: Seq<char>)
    ensures
        !names_relay(rewritten(url)),
        rewritten(rewritten(url)) == rewritten(url),
{
    assert forall|i: int| 0 <= i <= rewritten(url).len() implies !(#[trigger] has_prefix(
        rewritten(url).skip(i),
        RELAY_HOST@,
    )) by {
        lemma_no_name_at(url, i);
    }
    law_other_addresses_stay(rewritten(url));
}

/// Rewriting servers a second time changes nothing, and leaves none of their addresses
/// with the relay's name. Servers whose addresses do not name the relay stay as they are.
pub proof fn law_servers_are_rewritten_once(servers: Seq<Ice>)
    ensures
        rewritten_servers(rewritten_servers(servers)) == rewritten_servers(servers),
        forall|i: int, j: int|
            0 <= i < servers.len() && 0 <= j < servers[i].urls.len() ==> !names_relay(
                #[trigger] rewritten_servers(servers)[i].urls[j],
            ),
        forall|i: int|
            0 <= i < servers.len() && (forall|j: int|
                0 <= j < servers[i].urls.len() ==> !names_relay(#[trigger] servers[i].urls[j]))
                ==> #[trigger] rewritten_servers(servers)[i] == servers[i],
{
    let once = rewritten_servers(servers);
    let twice = rewritten_servers(once);
    assert forall|i: int, j: int|
        0 <= i < servers.len() && 0 <= j < servers[i].urls.len() implies !names_relay(
        #[trigger] rewritten_servers(servers)[i].urls[j],
    ) by {
        law_rewriting_leaves_no_name(servers[i].urls[j]);
    }
    assert forall|i: int| 0 <= i < servers.len() implies twice[i] == once[i] by {
        assert forall|j: int| 0 <= j < servers[i].urls.len() implies twice[i].urls[j]
            == once[i].urls[j] by {
            law_rewriting_leaves_no_name(servers[i].urls[j]);
        }
        assert(twice[i].urls =~= once[i].urls);
    }
    assert(twice =~= once);
    assert forall|i: int|
        0 <= i < servers.len() && (forall|j: int|
            0 <= j < servers[i].urls.len() ==> !names_relay(#[trigger] servers[i].urls[j]))
        implies #[trigger] rewritten_servers(servers)[i] == servers[i] by {
        assert forall|j: int| 0 <= j < servers[i].urls.len() implies once[i].urls[j]
            == servers[i].urls[j] by {
            law_other_addresses_stay(servers[i].urls[j]);
        }
        assert(once[i].urls =~= servers[i].urls);
    }
}

} // verus!

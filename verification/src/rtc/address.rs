//! Addresses, as the `url` crate reads and writes them.

use vstd::prelude::*;

verus! {

/// How many characters an address or a part of one may have. The `url` crate counts
/// the bytes of an address in a `u32`; this leaves more than two hundred of them for
/// every character of an address and of its query, however they are escaped.
pub const MAX_ADDRESS_LEN: usize = 0x0080_0000;

/// How many characters a text may have that is read as an address. The `url` crate
/// counts those of its authority in an `i32`.
pub const MAX_PARSED_LEN: usize = 0x7FFF_FFFF;

/// How many characters a scheme or a path may have that an address is given.
pub const MAX_PART_LEN: usize = 0x1_0000;

/// The host of an address, if it is one and has one.
pub uninterp spec fn url_host_of(text: Seq<char>) -> Option<Seq<char>>;

/// The scheme of an address, if it is one.
pub uninterp spec fn url_scheme_of(text: Seq<char>) -> Option<Seq<char>>;

/// An address with another scheme, path and query, if it is one and can have that
/// scheme.
pub uninterp spec fn url_endpoint_of(
    text: Seq<char>,
    scheme: Seq<char>,
    path: Seq<char>,
    query: Seq<char>,
) -> Option<Seq<char>>;

/// `url::Url::host_str` of what `url::Url::parse` reads: a function of the text. The bound
/// leaves out texts on which the parser's count of characters could overflow.
#[verifier::external_body]
pub(crate) fn url_host(text: &str) -> (host: Option<String>)
    requires
        text@.len() <= MAX_PARSED_LEN,
    ensures
        crate::text::owned_text(host) == url_host_of(text@),
{
    url::Url::parse(text).ok().and_then(|url| url.host_str().map(String::from))
}

/// `url::Url::scheme` of what `url::Url::parse` reads: a function of the text. The bound
/// leaves out texts on which the parser's count of characters could overflow.
#[verifier::external_body]
pub(crate) fn url_scheme(text: &str) -> (scheme: Option<String>)
    requires
        text@.len() <= MAX_PARSED_LEN,
    ensures
        crate::text::owned_text(scheme) == url_scheme_of(text@),
{
    url::Url::parse(text).ok().map(|url| String::from(url.scheme()))
}

/// What `url::Url::parse` reads, after `set_scheme`, `set_path` and `set_query`: a
/// function of the four texts. It is nothing where the text is no address, or where
/// the scheme cannot be set. The setters panic on a scheme, and on an address, of more
/// bytes than a `u32` counts, which the bounds leave out.
#[verifier::external_body]
pub(crate) fn url_endpoint(text: &str, scheme: &str, path: &str, query: &str) -> (address: Option<
    String,
>)
    requires
        text@.len() <= MAX_ADDRESS_LEN,
        scheme@.len() <= MAX_PART_LEN,
        path@.len() <= MAX_PART_LEN,
        query@.len() <= MAX_ADDRESS_LEN + MAX_PART_LEN,
    ensures
        crate::text::owned_text(address) == url_endpoint_of(text@, scheme@, path@, query@),
{
    let mut url = url::Url::parse(text).ok()?;
    url.set_scheme(scheme).ok()?;
    url.set_path(path);
    url.set_query(Some(query));
    Some(String::from(url))
}

} // verus!

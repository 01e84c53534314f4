//! The boundary to `reqwest::Url`: the only place where URLs are parsed or
//! edited. What the functions in this file claim of the names in it is
//! believed, not proved.

use crate::text::{byte_len, utf8_len};
use reqwest::Url;
use vstd::prelude::*;

verus! {

/// `reqwest::Url`, of which nothing is seen but what the names below say.
#[verifier::external_type_specification]
#[verifier::external_body]
pub struct ExUrl(Url);

/// The longest serialization, in bytes, that the URL type can hold: it
/// keeps its offsets in 32 bits.
pub const MAX_URL_BYTES: u64 = 0xFFFF_FFFF;

/// The bytes that an edit may add beside the text it is given: separators
/// and the like.
pub const EDIT_SLACK: u64 = 16;

/// The serialization of a URL, as `Url::as_str` returns it.
pub uninterp spec fn url_text(url: Url) -> Seq<char>;

/// The decoded name/value pairs of a URL's query string, in order, as
/// `Url::query_pairs` yields them.
pub uninterp spec fn url_query(url: Url) -> Seq<(Seq<char>, Seq<char>)>;

/// What `Url::parse` makes of a text: the URL, or `None` where it reports an error.
pub uninterp spec fn parsed_url(text: Seq<char>) -> Option<Url>;

/// The URL that `append_pair` on `Url::query_pairs_mut` leaves behind.
pub uninterp spec fn url_with_pair(url: Url, name: Seq<char>, value: Seq<char>) -> Url;

/// The URL that `Url::set_path` leaves behind.
pub uninterp spec fn url_with_path(url: Url, path: Seq<char>) -> Url;

/// The URL that `Url::set_query` leaves behind when it is given no query.
pub uninterp spec fn url_without_query(url: Url) -> Url;

/// Whether the URL type can surely hold a URL after a text of `added` bytes
/// has been put into it: an edit writes at most three bytes for each byte
/// it is given, and `EDIT_SLACK` bytes beside.
pub open spec fn room_for(url: Url, added: nat) -> bool {
    utf8_len(url_text(url)) + 3 * added + EDIT_SLACK <= MAX_URL_BYTES
}

/// Calls `Url::parse`. The result is a function of the text alone; the
/// error's detail is dropped.
#[verifier::external_body]
pub(crate) fn parse_url(text: &str) -> (r: Option<Url>)
    ensures
        r == parsed_url(text@),
{
    Url::parse(text).ok()
}

/// Calls `Url::clone`.
#[verifier::external_body]
pub(crate) fn clone_url(url: &Url) -> (r: Url)
    ensures
        r == *url,
{
    url.clone()
}

/// Calls `append_pair` on `Url::query_pairs_mut`. The pair is appended in
/// form-urlencoded syntax behind the pairs that are there, so that reading
/// the query back yields the old pairs followed by this one, decoded. The
/// call panics where the serialization outgrows 32 bits; the bound leaves
/// that out.
#[verifier::external_body]
pub(crate) fn append_pair(url: &mut Url, name: &str, value: &str)
    requires
        room_for(*old(url), utf8_len(name@) + utf8_len(value@)),
    ensures
        *final(url) == url_with_pair(*old(url), name@, value@),
        url_query(*final(url)) == url_query(*old(url)).push((name@, value@)),
{
    url.query_pairs_mut().append_pair(name, value);
}

/// Calls `Url::set_path`. Only the path changes: the query is kept as it is.
/// The call panics where the serialization outgrows 32 bits; the bound
/// leaves that out.
#[verifier::external_body]
pub(crate) fn set_path(url: &mut Url, path: &str)
    requires
        room_for(*old(url), utf8_len(path@)),
    ensures
        *final(url) == url_with_path(*old(url), path@),
        url_query(*final(url)) == url_query(*old(url)),
{
    url.set_path(path);
}

/// Calls `Url::set_query` with no query. The query is cut out, so that
/// reading it back yields no pair, and the serialization does not grow.
#[verifier::external_body]
pub(crate) fn clear_query(url: &mut Url)
    requires
        utf8_len(url_text(*old(url))) <= MAX_URL_BYTES,
    ensures
        *final(url) == url_without_query(*old(url)),
        url_query(*final(url)) == Seq::<(Seq<char>, Seq<char>)>::empty(),
        utf8_len(url_text(*final(url))) <= utf8_len(url_text(*old(url))),
{
    url.set_query(None);
}

/// Calls `Url::as_str`.
#[verifier::external_body]
pub(crate) fn url_as_str(url: &Url) -> (s: &str)
    ensures
        s@ == url_text(*url),
{
    url.as_str()
}

/// The length of a URL's serialization in bytes.
pub fn url_byte_len(url: &Url) -> (n: usize)
    ensures
        n == utf8_len(url_text(*url)),
{
    byte_len(url_as_str(url))
}

/// Whether the URL type can surely hold the URL after a text of `added`
/// bytes has been put into it.
pub fn has_room_for(url: &Url, added: usize) -> (b: bool)
    ensures
        b == room_for(*url, added as nat),
{
    let length: u128 = url_byte_len(url) as u128;
    let wanted: u128 = added as u128;
    length + 3 * wanted + (EDIT_SLACK as u128) <= (MAX_URL_BYTES as u128)
}

} // verus!

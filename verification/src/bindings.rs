//! Calls into the crates that this library builds on (uuid, rand, md5,
//! format-url) and into parts of std that have no specification yet.
//! Each item here states only what the called code's source or documentation shows.
use vstd::prelude::*;
use crate::text::{has_prefix, hex_bytes, hex_fixed};
use rand::distr::{Alphanumeric, SampleString};
use rand::seq::SliceRandom;
use rand::Rng;
use std::rc::Rc;

verus! {

/// Whether `c` is an ASCII letter or digit.
pub open spec fn is_ascii_alphanumeric(c: char) -> bool {
    ('a' <= c && c <= 'z') || ('A' <= c && c <= 'Z') || ('0' <= c && c <= '9')
}

/// The 16-byte MD5 digest of the UTF-8 bytes of a text, as `md5::compute` returns it.
pub uninterp spec fn md5_digest(text: Seq<char>) -> Seq<u8>;

/// The URL that `format_url::FormatUrl` builds from a base, a path template,
/// the substitutions for the template's `:key` parts and, optionally, query parameters.
pub uninterp spec fn formatted_url(
    base: Seq<char>,
    path_template: Seq<char>,
    substitutes: Seq<(Seq<char>, Seq<char>)>,
    query: Option<Seq<(Seq<char>, Seq<char>)>>,
) -> Seq<char>;

/// The views of a list of string pairs.
pub open spec fn pair_views(v: Seq<(String, String)>) -> Seq<(Seq<char>, Seq<char>)> {
    Seq::new(v.len(), |i: int| (v[i].0@, v[i].1@))
}

/// The view of an optional list of string pairs.
pub open spec fn opt_pair_views(v: Option<&Vec<(String, String)>>) -> Option<Seq<(Seq<char>, Seq<char>)>> {
    match v {
        Some(p) => Some(pair_views(p@)),
        None => None,
    }
}

/// `uuid::Uuid::new_v4`, as the 128-bit big-endian value of the UUID.
/// The uuid source sets the version nibble to 4 and the variant bits to `10`;
/// the other bits come from a random source, and nothing more is stated of them.
#[verifier::external_body]
pub(crate) fn uuid_v4() -> (u: u128)
    ensures
        (u >> 76u128) & 0xfu128 == 4u128,
        (u >> 62u128) & 0x3u128 == 2u128,
{
    uuid::Uuid::new_v4().as_u128()
}

/// `uuid::Uuid::as_simple` formatted with `to_string`: the 32 lowercase
/// hexadecimal digits of the UUID's big-endian value, without hyphens.
#[verifier::external_body]
pub(crate) fn uuid_simple_text(u: u128) -> (s: String)
    ensures
        s@ == hex_fixed(u as nat, 32),
{
    uuid::Uuid::from_u128(u).as_simple().to_string()
}

/// `rand::Rng::random_range` over `lo..=hi` with the thread-local generator:
/// some value in that range (the range is not empty, so the call does not panic).
#[verifier::external_body]
pub(crate) fn random_index_in(lo: usize, hi: usize) -> (r: usize)
    requires
        lo <= hi,
    ensures
        lo <= r <= hi,
{
    rand::rng().random_range(lo..=hi)
}

/// `rand::seq::SliceRandom::shuffle` with the thread-local generator: the same
/// elements in some order.
#[verifier::external_body]
pub(crate) fn shuffle_indices(v: &mut Vec<usize>)
    ensures
        final(v)@.to_multiset() == old(v)@.to_multiset(),
{
    v.shuffle(&mut rand::rng());
}

/// `rand::distr::Alphanumeric::sample_string` for 16 characters: a random text of
/// 16 ASCII letters and digits.
#[verifier::external_body]
pub(crate) fn random_salt() -> (s: String)
    ensures
        s@.len() == 16,
        forall|i: int| 0 <= i < 16 ==> is_ascii_alphanumeric(#[trigger] s@[i]),
{
    Alphanumeric.sample_string(&mut rand::rng(), 16)
}

/// `md5::compute` of the text, formatted with `{:x}`: two lowercase hexadecimal
/// digits per byte of the 16-byte digest, so 32 characters.
#[verifier::external_body]
pub(crate) fn md5_hex(text: &str) -> (s: String)
    ensures
        s@ == hex_bytes(md5_digest(text@)),
        s@.len() == 32,
{
    format!("{:x}", md5::compute(text))
}

/// `format_url::FormatUrl` built from `base`, `path_template`, `substitutes` and,
/// where given, `query`, then `format_url`. Its source writes the base first.
#[verifier::external_body]
pub(crate) fn format_url(
    base: &str,
    path_template: &str,
    substitutes: &Vec<(String, String)>,
    query: Option<&Vec<(String, String)>>,
) -> (s: String)
    ensures
        s@ == formatted_url(base@, path_template@, pair_views(substitutes@), opt_pair_views(query)),
        has_prefix(s@, base@),
{
    let subs: Vec<(&str, &str)> = substitutes.iter().map(|(k, v)| (k.as_str(), v.as_str())).collect();
    let url = format_url::FormatUrl::new(base).with_path_template(path_template).with_substitutes(subs);
    match query {
        Some(q) => url.with_query_params(q.iter().map(|(k, v)| (k.as_str(), v.as_str())).collect()).format_url(),
        None => url.format_url(),
    }
}

/// The upper-case form of a text, as `str::to_uppercase` gives it.
pub uninterp spec fn uppercased(s: Seq<char>) -> Seq<char>;

/// `str::to_uppercase`.
#[verifier::external_body]
pub(crate) fn to_uppercase(s: &str) -> (r: String)
    ensures
        r@ == uppercased(s@),
{
    s.to_uppercase()
}

/// `Rc::clone`: another pointer to the same value.
#[verifier::external_body]
pub(crate) fn rc_share<T>(r: &Rc<T>) -> (s: Rc<T>)
    ensures
        s == *r,
{
    Rc::clone(r)
}

} // verus!

//! URL handling through the `url` crate.
//!
//! A URL is held by the library as its serialization: the canonical text that
//! `url::Url::as_str` returns. Each operation below hands that text back to the
//! `url` crate, which parses it and performs the operation; the WHATWG parser
//! reads a serialization back to the same URL. The results are named by
//! uninterpreted functions of the arguments: the parser takes pages to state.
use vstd::prelude::*;
use vstd::string::*;

use crate::api::types::opt_view;

verus! {

/// What `url::Url::parse` makes of `input`: the serialization of the URL, or the parse error.
pub uninterp spec fn url_parse(input: Seq<char>) -> Result<Seq<char>, url::ParseError>;

/// The path component (`url::Url::path`) of the URL serialized as `url`.
pub uninterp spec fn url_path(url: Seq<char>) -> Seq<char>;

/// The serialization after `url::Url::set_path(path)` on the URL serialized as `url`.
pub uninterp spec fn url_with_path(url: Seq<char>, path: Seq<char>) -> Seq<char>;

/// What `url::Url::join(input)` makes of `input` against the URL serialized as `base`.
pub uninterp spec fn url_join(base: Seq<char>, input: Seq<char>) -> Result<Seq<char>, url::ParseError>;

/// The host (`url::Url::host_str`) of the URL serialized as `url`, where it has one.
pub uninterp spec fn url_host(url: Seq<char>) -> Option<Seq<char>>;

/// Calls `url::Url::parse`. The contract claims that the result is `url_parse`
/// of the input's characters: the serialization on success, the crate's error otherwise.
#[verifier::external_body]
pub(crate) fn parse(input: &str) -> (r: Result<String, url::ParseError>)
    ensures
        match r {
            Ok(s) => url_parse(input@) == Ok::<Seq<char>, url::ParseError>(s@),
            Err(e) => url_parse(input@) == Err::<Seq<char>, url::ParseError>(e),
        },
{
    url::Url::parse(input).map(String::from)
}

/// Calls `url::Url::path` on the URL serialized as `url`. The contract claims
/// that the result is `url_path` of the serialization. Text that does not parse
/// has no path; the empty string comes back for it.
#[verifier::external_body]
pub(crate) fn path(url: &str) -> (r: String)
    ensures
        r@ == url_path(url@),
{
    match url::Url::parse(url) {
        Ok(u) => u.path().to_string(),
        Err(_) => String::new(),
    }
}

/// Calls `url::Url::set_path` on the URL serialized as `url` and returns the new
/// serialization. The contract claims that it is `url_with_path` of the two
/// arguments. Text that does not parse comes back unchanged.
///
/// `set_path` panics when a serialization exceeds `u32::MAX` bytes. `requires`
/// keeps both below it: re-encoding a character of `url` (percent-encoding,
/// IDNA and IPv4 normalisation of its host) yields far fewer than 64 bytes,
/// and percent-encoding a character of the new path yields at most 12.
#[verifier::external_body]
pub(crate) fn with_path(url: &str, new_path: &str) -> (r: String)
    requires
        64 * (url@.len() + 1) + 12 * new_path@.len() < 0x1_0000_0000,
    ensures
        r@ == url_with_path(url@, new_path@),
{
    match url::Url::parse(url) {
        Ok(mut u) => {
            u.set_path(new_path);
            String::from(u)
        },
        Err(_) => url.to_string(),
    }
}

/// Calls `url::Url::join` on the URL serialized as `base`. The contract claims
/// that the result is `url_join` of the two arguments: the joined serialization,
/// or the crate's error (also where `base` itself does not parse).
#[verifier::external_body]
pub(crate) fn join(base: &str, input: &str) -> (r: Result<String, url::ParseError>)
    ensures
        match r {
            Ok(s) => url_join(base@, input@) == Ok::<Seq<char>, url::ParseError>(s@),
            Err(e) => url_join(base@, input@) == Err::<Seq<char>, url::ParseError>(e),
        },
{
    match url::Url::parse(base) {
        Ok(u) => u.join(input).map(String::from),
        Err(e) => Err(e),
    }
}

/// Calls `url::Url::host_str` on the URL serialized as `url`. The contract
/// claims that the result is `url_host` of the serialization.
#[verifier::external_body]
pub(crate) fn host(url: &str) -> (r: Option<String>)
    ensures
        opt_view(r) == url_host(url@),
{
    match url::Url::parse(url) {
        Ok(u) => u.host_str().map(|h| h.to_string()),
        Err(_) => None,
    }
}

/// Whether the text ends with a `/`.
pub open spec fn ends_with_slash(s: Seq<char>) -> bool {
    s.len() > 0 && s.last() == '/'
}

/// The base URL of a node's API: the node URL with a trailing `/` on its path,
/// joined with `api/`.
pub open spec fn spec_api_base(raw: Seq<char>) -> Result<Seq<char>, url::ParseError> {
    match url_parse(raw) {
        Err(e) => Err(e),
        Ok(u) => {
            let p = url_path(u);
            let fixed = if ends_with_slash(p) { u } else { url_with_path(u, p + "/"@) };
            url_join(fixed, "api/"@)
        },
    }
}

/// Whether adding the trailing `/` to the node URL's path stays within the
/// sizes that `url::Url::set_path` handles (see `with_path`). Without a
/// trailing `/` to add, or where the URL does not parse, nothing is needed.
pub open spec fn spec_base_fits(raw: Seq<char>) -> bool {
    match url_parse(raw) {
        Err(_) => true,
        Ok(u) => {
            let p = url_path(u);
            ends_with_slash(p) || 64 * (u.len() + 1) + 12 * (p.len() + 1) < 0x1_0000_0000
        },
    }
}

/// Checks whether the text ends with a `/`.
pub fn has_trailing_slash(s: &str) -> (r: bool)
    ensures
        r == ends_with_slash(s@),
{
    let n = s.unicode_len();
    if n == 0 {
        false
    } else {
        s.get_char(n - 1) == '/'
    }
}

/// Checks whether deriving the API base of `raw` stays within the sizes that
/// the `url` crate handles.
pub fn api_base_fits(raw: &str) -> (r: bool)
    ensures
        r == spec_base_fits(raw@),
{
    let parsed = match parse(raw) {
        Ok(u) => u,
        Err(_) => return true,
    };
    let p = path(parsed.as_str());
    if has_trailing_slash(p.as_str()) {
        return true;
    }
    let ulen = parsed.unicode_len() as u128;
    let plen = p.unicode_len() as u128;
    assert(ulen <= usize::MAX && plen <= usize::MAX);
    64 * (ulen + 1) + 12 * (plen + 1) < 0x1_0000_0000u128
}

/// Parses a node URL and derives the base URL of its API.
pub fn api_base(raw: &str) -> (r: Result<String, url::ParseError>)
    requires
        spec_base_fits(raw@),
    ensures
        match r {
            Ok(s) => spec_api_base(raw@) == Ok::<Seq<char>, url::ParseError>(s@),
            Err(e) => spec_api_base(raw@) == Err::<Seq<char>, url::ParseError>(e),
        },
{
    let parsed = match parse(raw) {
        Ok(u) => u,
        Err(e) => return Err(e),
    };
    let p = path(parsed.as_str());
    let fixed = if has_trailing_slash(p.as_str()) {
        parsed
    } else {
        let with_slash = p.concat("/");
        proof {
            reveal_strlit("/");
        }
        with_path(parsed.as_str(), with_slash.as_str())
    };
    join(fixed.as_str(), "api/")
}

} // verus!

//! The URL boundary: trusted wrappers around the `url` crate.
//!
//! A `url::Url` is modelled by its canonical serialization, the text
//! `Url::as_str` returns. Parsing, joining and path replacement are pure
//! functions of that text and of their other arguments, so each gets a
//! name; the wrappers relate the crate's calls to those names.

use vstd::prelude::*;

verus! {

#[verifier::external_type_specification]
#[verifier::external_body]
pub struct ExUrl(url::Url);

/// The canonical serialization of a parsed URL: what `Url::as_str` returns.
pub uninterp spec fn url_str(u: url::Url) -> Seq<char>;

/// What `Url::parse` yields on a text, as that URL's serialization; `None`
/// where the text is not a valid absolute URL.
pub uninterp spec fn parsed_url(s: Seq<char>) -> Option<Seq<char>>;

/// What `Url::join` yields on a base URL's serialization and a relative
/// reference; `None` where joining fails.
pub uninterp spec fn joined_url(base: Seq<char>, rel: Seq<char>) -> Option<Seq<char>>;

/// What a URL's serialization becomes when `Url::set_path` replaces its
/// path.
pub uninterp spec fn with_path(base: Seq<char>, path: Seq<char>) -> Seq<char>;

/// Relies on `url::Url::parse`: parsing depends on the text alone.
#[verifier::external_body]
pub(crate) fn parse_url(s: &str) -> (r: Option<url::Url>)
    ensures
        r is Some <==> parsed_url(s@) is Some,
        r matches Some(u) ==> parsed_url(s@) == Some(url_str(u)),
{
    url::Url::parse(s).ok()
}

/// Relies on `url::Url::join`: the result depends on the base URL and the
/// relative reference alone.
#[verifier::external_body]
pub(crate) fn join_url(u: &url::Url, rel: &str) -> (r: Option<url::Url>)
    ensures
        r is Some <==> joined_url(url_str(*u), rel@) is Some,
        r matches Some(u2) ==> joined_url(url_str(*u), rel@) == Some(url_str(u2)),
{
    u.join(rel).ok()
}

/// Relies on `url::Url::set_path`: the new serialization depends on the old
/// one and the path alone. The call cannot fail; on a cannot-be-a-base URL
/// it writes the path in percent-encoded opaque form, which the name
/// absorbs.
#[verifier::external_body]
pub(crate) fn set_url_path(u: &mut url::Url, path: &str)
    ensures
        url_str(*final(u)) == with_path(url_str(*old(u)), path@),
{
    u.set_path(path)
}

/// Relies on `url::Url::as_str`: returns the URL's serialization.
#[verifier::external_body]
pub(crate) fn url_as_string(u: &url::Url) -> (r: String)
    ensures
        r@ == url_str(*u),
{
    u.as_str().to_owned()
}

/// The browse URL derived from an issue's self link: the self link with its
/// path replaced by `browse/<key>`, or the empty text where the self link
/// does not parse. A bad self link degrades display only; it never fails.
pub open spec fn browse_url_of(self_url: Seq<char>, key: Seq<char>) -> Seq<char> {
    match parsed_url(self_url) {
        Some(b) => with_path(b, "browse/"@ + key),
        None => Seq::empty(),
    }
}

/// A self link that does not parse as a URL yields the empty browse URL,
/// whatever the key: the derivation degrades, it never fails.
pub proof fn lemma_bad_self_link_empty_browse_url(self_url: Seq<char>, key: Seq<char>)
    requires
        parsed_url(self_url) is None,
    ensures
        browse_url_of(self_url, key) == Seq::<char>::empty(),
{
}

/// Derives the browse URL for `key` from the issue's self link.
pub fn derive_browse_url(self_url: &str, key: &str) -> (r: String)
    ensures
        r@ == browse_url_of(self_url@, key@),
{
    match parse_url(self_url) {
        Some(u) => {
            let mut u = u;
            let path = "browse/".to_owned().concat(key);
            set_url_path(&mut u, path.as_str());
            url_as_string(&u)
        },
        None => String::new(),
    }
}

} // verus!

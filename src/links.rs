//! Reading URLs: whether a text is one, and its domain.

use vstd::prelude::*;

verus! {

/// Whether `url::Url::parse` accepts `s`.
pub uninterp spec fn url_parses(s: Seq<char>) -> bool;

/// What `url::Url::domain` returns on the URL that `s` parses to.
pub uninterp spec fn url_domain(s: Seq<char>) -> Option<Seq<char>>;

/// Relies on `url::Url::parse` (does `s` parse as an absolute URL) and on
/// `url::Url::domain` of the parsed URL (its host when that is a domain name,
/// `None` for an IP address or no host). `None` when parsing fails.
#[verifier::external_body]
pub(crate) fn parse_domain(s: &str) -> (r: Option<Option<String>>)
    ensures
        r is Some <==> url_parses(s@),
        r matches Some(d) ==> d.deep_view() == url_domain(s@),
{
    match url::Url::parse(s) {
        Ok(u) => Some(u.domain().map(|d| d.to_string())),
        Err(_) => None,
    }
}

} // verus!

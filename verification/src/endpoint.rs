//! Endpoint addresses, held as the plain parts that the aggregator reads.

use vstd::prelude::*;
use vstd::string::StringExecFns;

verus! {

/// Whether a text is exactly the given word.
pub fn text_is(text: &str, word: &str) -> (r: bool)
    ensures
        r == (text@ == word@),
{
    let a = text.to_owned();
    let b = word.to_owned();
    a == b
}

/// An absolute URL after parsing: its normalised text, its path, and its
/// host where it names one.
#[derive(Clone, Debug)]
pub struct ParsedUrl {
    pub href: String,
    pub path: String,
    pub host: Option<String>,
}

/// The parts of a parsed URL as plain text.
pub struct UrlParts {
    pub href: Seq<char>,
    pub path: Seq<char>,
    pub host: Option<Seq<char>>,
}

impl View for ParsedUrl {
    type V = UrlParts;

    open spec fn view(&self) -> UrlParts {
        UrlParts {
            href: self.href@,
            path: self.path@,
            host: match self.host {
                Some(h) => Some(h@),
                None => None,
            },
        }
    }
}

/// The parts that the `url` crate finds in a text, where the text is an
/// absolute URL. Stands for `Url::parse` followed by `as_str`, `path` and
/// `host_str`.
pub uninterp spec fn url_parts(text: Seq<char>) -> Option<UrlParts>;

/// Calls `url::Url::parse` and reads the result's `as_str`, `path` and
/// `host_str`. Trusted: the outcome is a function of the text alone, named
/// `url_parts`; nothing is claimed about which texts parse.
#[verifier::external_body]
pub(crate) fn parse_url(text: &str) -> (r: Option<ParsedUrl>)
    ensures
        r.is_some() == url_parts(text@).is_some(),
        r.is_some() ==> r.unwrap()@ == url_parts(text@).unwrap(),
{
    url::Url::parse(text).ok().map(|u| ParsedUrl {
        href: u.as_str().to_string(),
        path: u.path().to_string(),
        host: u.host_str().map(|h| h.to_string()),
    })
}

/// The text of the URL that the `url` crate finds when a reference is
/// resolved against a base, where both can be read. Stands for
/// `Url::parse` of the base, `join` with the reference, and `as_str`.
pub uninterp spec fn url_joined(base: Seq<char>, reference: Seq<char>) -> Option<Seq<char>>;

/// Calls `url::Url::parse` on the base and `Url::join` with the reference,
/// and reads the result's `as_str`. Trusted: the outcome is a function of
/// the two texts alone, named `url_joined`; nothing is claimed about which
/// texts can be joined.
#[verifier::external_body]
pub(crate) fn join_url(base: &str, reference: &str) -> (r: Option<String>)
    ensures
        r.is_some() == url_joined(base@, reference@).is_some(),
        r.is_some() ==> r.unwrap()@ == url_joined(base@, reference@).unwrap(),
{
    url::Url::parse(base).ok()?.join(reference).ok().map(|u| u.as_str().to_string())
}

/// Puts two texts together.
pub fn join_text(first: &str, second: &str) -> (r: String)
    ensures
        r@ == first@ + second@,
{
    first.to_owned().concat(second)
}

} // verus!

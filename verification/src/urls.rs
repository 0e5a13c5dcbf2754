//! Absolute URLs.

use vstd::prelude::*;

use url::Url;

use crate::text::opt_str_view;
use crate::text::opt_view;
use crate::text::texts;

verus! {

/// The URLs of the `url` crate.
#[verifier::external_type_specification]
#[verifier::external_body]
pub struct ExUrl(Url);

/// The text of a URL, which holds all its parts.
pub uninterp spec fn url_text(url: Url) -> Seq<char>;

/// What the `url` crate reads from a text: the text of a URL, or the message of the error.
pub uninterp spec fn url_read(text: Seq<char>) -> Result<Seq<char>, Seq<char>>;

/// The scheme of the URL with the given text.
pub uninterp spec fn url_scheme(text: Seq<char>) -> Seq<char>;

/// The host of the URL with the given text.
pub uninterp spec fn url_host(text: Seq<char>) -> Option<Seq<char>>;

/// The path of the URL with the given text.
pub uninterp spec fn url_path(text: Seq<char>) -> Seq<char>;

/// The text of a URL with segments added to its path; `None` if its path has no segments.
pub uninterp spec fn url_with_segments(text: Seq<char>, segments: Seq<Seq<char>>) -> Option<
    Seq<char>,
>;

/// The text of a URL without its query.
pub uninterp spec fn url_without_query(text: Seq<char>) -> Seq<char>;

/// The text of a URL with pairs of names and values added to its query.
pub uninterp spec fn url_with_pairs(text: Seq<char>, pairs: Seq<(Seq<char>, Seq<char>)>) -> Seq<
    char,
>;

/// Calls `Url::parse`. What it reads depends on the text alone.
#[verifier::external_body]
pub(crate) fn read_url(text: &str) -> (r: Result<Url, String>)
    ensures
        r matches Ok(url) ==> url_read(text@) is Ok && url_read(text@)->Ok_0 == url_text(url),
        r matches Err(message) ==> url_read(text@) is Err && url_read(text@)->Err_0 == message@,
{
    match Url::parse(text) {
        Ok(url) => Ok(url),
        Err(error) => Err(error.to_string()),
    }
}

/// Calls `Url::as_str`, which gives the text of a URL.
#[verifier::external_body]
pub(crate) fn text_of(url: &Url) -> (r: String)
    ensures
        r@ == url_text(*url),
{
    url.as_str().to_string()
}

/// Calls `Url::scheme`, which depends on the text of the URL alone.
#[verifier::external_body]
pub(crate) fn scheme_of(url: &Url) -> (r: String)
    ensures
        r@ == url_scheme(url_text(*url)),
{
    url.scheme().to_string()
}

/// Calls `Url::host_str`, which depends on the text of the URL alone.
#[verifier::external_body]
pub(crate) fn host_of(url: &Url) -> (r: Option<String>)
    ensures
        opt_view(r) == url_host(url_text(*url)),
{
    url.host_str().map(str::to_string)
}

/// Calls `Url::path`, which depends on the text of the URL alone.
#[verifier::external_body]
pub(crate) fn path_of(url: &Url) -> (r: String)
    ensures
        r@ == url_path(url_text(*url)),
{
    url.path().to_string()
}

/// Calls `Url::path_segments_mut` and `PathSegmentsMut::extend`, which adds segments to the path of
/// a URL, encoded as needed. A URL that cannot be a base has no such path, and stays as it is.
#[verifier::external_body]
pub(crate) fn add_segments(url: &mut Url, segments: &Vec<String>) -> (r: bool)
    ensures
        r == (url_with_segments(url_text(*old(url)), texts(segments@)) is Some),
        r ==> url_with_segments(url_text(*old(url)), texts(segments@)) == Some(
            url_text(*final(url)),
        ),
        !r ==> url_text(*final(url)) == url_text(*old(url)),
{
    match url.path_segments_mut() {
        Ok(mut path) => {
            path.extend(segments);
            true
        },
        Err(()) => false,
    }
}

/// Calls `Url::set_query` with nothing, which drops the query of a URL.
#[verifier::external_body]
pub(crate) fn drop_query(url: &mut Url)
    ensures
        url_text(*final(url)) == url_without_query(url_text(*old(url))),
{
    url.set_query(None);
}

/// The texts of a list of pairs.
pub open spec fn pair_texts(pairs: Seq<(String, String)>) -> Seq<(Seq<char>, Seq<char>)> {
    pairs.map_values(|p: (String, String)| (p.0@, p.1@))
}

/// Calls `Url::query_pairs_mut` and `Serializer::extend_pairs`, which adds pairs of names and
/// values to the query of a URL, encoded as needed.
#[verifier::external_body]
pub(crate) fn add_pairs(url: &mut Url, pairs: &Vec<(String, String)>)
    ensures
        url_text(*final(url)) == url_with_pairs(url_text(*old(url)), pair_texts(pairs@)),
{
    url.query_pairs_mut().extend_pairs(pairs);
}

/// Adds a pair to a list.
pub fn push_pair(pairs: &mut Vec<(String, String)>, name: &str, value: &str)
    ensures
        pair_texts(final(pairs)@) == pair_texts(old(pairs)@).push((name@, value@)),
{
    pairs.push((name.to_owned(), value.to_owned()));
    assert(pair_texts(pairs@) =~= pair_texts(old(pairs)@).push((name@, value@)));
}

/// A pair for a value that may be absent.
pub open spec fn pair_if(name: Seq<char>, value: Option<Seq<char>>) -> Seq<(Seq<char>, Seq<char>)> {
    match value {
        Some(text) => seq![(name, text)],
        None => Seq::empty(),
    }
}

/// Adds a pair to a list, if there is a value.
pub fn push_pair_if(pairs: &mut Vec<(String, String)>, name: &str, value: Option<&str>)
    ensures
        pair_texts(final(pairs)@) == pair_texts(old(pairs)@) + pair_if(name@, opt_str_view(value)),
{
    match value {
        Some(value) => push_pair(pairs, name, value),
        None => {},
    }
    assert(pair_texts(pairs@) =~= pair_texts(old(pairs)@) + pair_if(name@, opt_str_view(value)));
}

/// The parts of a URL.
pub struct UrlParts {
    pub scheme: String,
    pub host: Option<String>,
    pub path: String,
}

/// The parts of a URL, as sequences of characters.
pub struct UrlView {
    pub scheme: Seq<char>,
    pub host: Option<Seq<char>>,
    pub path: Seq<char>,
}

impl View for UrlParts {
    type V = UrlView;

    open spec fn view(&self) -> UrlView {
        UrlView { scheme: self.scheme@, host: opt_view(self.host), path: self.path@ }
    }
}

/// The parts of the URL with the given text.
pub open spec fn url_parts(text: Seq<char>) -> UrlView {
    UrlView { scheme: url_scheme(text), host: url_host(text), path: url_path(text) }
}

/// Takes a URL apart.
pub(crate) fn parts_of(url: &Url) -> (r: UrlParts)
    ensures
        r@ == url_parts(url_text(*url)),
{
    UrlParts { scheme: scheme_of(url), host: host_of(url), path: path_of(url) }
}

/// Pairs are shown by their texts, in order, and one for a value that is absent is left out.
pub proof fn law_pairs(
    pairs: Seq<(String, String)>,
    name: Seq<char>,
    value: Seq<char>,
    parts: UrlParts,
    text: Seq<char>,
)
    ensures
        pair_texts(pairs).len() == pairs.len(),
        forall|i: int|
            0 <= i < pairs.len() ==> #[trigger] pair_texts(pairs)[i] == (pairs[i].0@, pairs[i].1@),
        pair_if(name, Some(value)) == seq![(name, value)],
        pair_if(name, None).len() == 0,
        parts@.scheme == parts.scheme@,
        parts@.path == parts.path@,
        parts@.host is Some <==> parts.host is Some,
        parts.host is Some ==> parts@.host->0 == parts.host->0@,
        url_parts(text).scheme == url_scheme(text),
        url_parts(text).host == url_host(text),
        url_parts(text).path == url_path(text),
{
}

} // verus!

//! What the rules read of a URL: its scheme and its host.

use vstd::prelude::*;

verus! {

/// The parts of a parsed absolute URL that the rules read.
#[derive(Debug)]
pub struct UrlParts {
    pub scheme: String,
    pub host: Option<String>,
}

/// The parts of a URL as plain text.
pub struct UrlPartsView {
    pub scheme: Seq<char>,
    pub host: Option<Seq<char>>,
}

impl View for UrlParts {
    type V = UrlPartsView;

    open spec fn view(&self) -> UrlPartsView {
        UrlPartsView { scheme: self.scheme@, host: self.host.deep_view() }
    }
}

impl DeepView for UrlParts {
    type V = UrlPartsView;

    open spec fn deep_view(&self) -> UrlPartsView {
        self@
    }
}

/// The scheme and host that the `url` crate reads from a text; `None` where
/// the text is no absolute URL.
pub uninterp spec fn url_parts(text: Seq<char>) -> Option<UrlPartsView>;

/// Calls `reqwest::Url::parse` (the parser of the `url` crate) and copies the
/// scheme and the host out of the result. The contract only names the
/// result.
#[verifier::external_body]
pub(crate) fn parse_url(text: &str) -> (r: Option<UrlParts>)
    ensures
        r.deep_view() == url_parts(text@),
{
    let url = reqwest::Url::parse(text).ok()?;
    Some(UrlParts { scheme: url.scheme().to_owned(), host: url.host_str().map(|h| h.to_owned()) })
}

} // verus!

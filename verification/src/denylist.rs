//! The static list of hosts whose media is never used.

use crate::text::same_text;
use crate::urls::{parse_url, url_parts, UrlParts, UrlPartsView};
use vstd::prelude::*;

verus! {

/// A podcast advertising host whose media links do not serve images.
pub const TRITON_AUDIO_HOST: &'static str = "bbc.pdn.tritondigital.com";

/// A live audio streaming host whose media links do not serve images.
pub const BBC_LIVE_HOST: &'static str = "open.live.bbc.co.uk";

/// The banned domains, in the order in which they are consulted.
pub open spec fn banned_domains() -> Seq<Seq<char>> {
    seq![TRITON_AUDIO_HOST@, BBC_LIVE_HOST@]
}

/// A host is banned when it is one of the banned domains.
pub open spec fn banned_host(host: Seq<char>) -> bool {
    exists|k: int| 0 <= k < banned_domains().len() && #[trigger] banned_domains()[k] == host
}

/// The parts of a URL name a banned host.
pub open spec fn names_banned_host(parts: Option<UrlPartsView>) -> bool {
    parts matches Some(p) && p.host matches Some(host) && banned_host(host)
}

/// A URL is banned when it parses as an absolute URL and its host is one of
/// the banned domains. What stands in its path or query does not matter.
pub open spec fn is_banned(url: Seq<char>) -> bool {
    names_banned_host(url_parts(url))
}

/// Whether a host is one of the banned domains.
pub fn is_banned_host(host: &str) -> (b: bool)
    ensures
        b == banned_host(host@),
{
    let first = same_text(TRITON_AUDIO_HOST, host);
    let second = same_text(BBC_LIVE_HOST, host);
    proof {
        let d = banned_domains();
        assert(d.len() == 2);
        assert(d[0] == TRITON_AUDIO_HOST@ && d[1] == BBC_LIVE_HOST@);
    }
    first || second
}

/// Whether the parts of a URL, as its parser gave them, name a banned host.
pub fn has_banned_host(parts: &Option<UrlParts>) -> (b: bool)
    ensures
        b == names_banned_host(parts.deep_view()),
{
    match parts {
        Some(p) => match &p.host {
            Some(host) => is_banned_host(host.as_str()),
            None => false,
        },
        None => false,
    }
}

/// Whether the host of `url` is a banned domain.
pub fn is_banned_url(url: &str) -> (b: bool)
    ensures
        b == is_banned(url@),
{
    has_banned_host(&parse_url(url))
}

} // verus!

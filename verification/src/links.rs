//! Web addresses: the link to a track that an admin pastes, and the address
//! the provider sends a user back to after signing in.

use vstd::prelude::*;
use vstd::string::StringExecFns;
use url::Url;
use crate::provider::optional_text_view;

verus! {

/// Mathematical model of a [`UrlParts`].
pub struct UrlPartsView {
    pub scheme: Seq<char>,
    pub has_host: bool,
    pub domain: Option<Seq<char>>,
    pub path: Option<Seq<Seq<char>>>,
}

/// The parts of a parsed web address that this crate looks at.
#[derive(Debug, Clone, PartialEq, Eq)]
pub struct UrlParts {
    /// The scheme, in lower case and without the colon.
    pub scheme: String,
    /// Whether the address names a host.
    pub has_host: bool,
    /// The host, if it is a domain name.
    pub domain: Option<String>,
    /// The segments of the path, if the address can have any.
    pub path: Option<Vec<String>>,
}

/// The model of an optional list of texts.
pub open spec fn optional_texts_view(texts: Option<Vec<String>>) -> Option<Seq<Seq<char>>> {
    match texts {
        Some(t) => Some(t.deep_view()),
        None => None,
    }
}

impl View for UrlParts {
    type V = UrlPartsView;

    open spec fn view(&self) -> UrlPartsView {
        UrlPartsView {
            scheme: self.scheme@,
            has_host: self.has_host,
            domain: optional_text_view(self.domain),
            path: optional_texts_view(self.path),
        }
    }
}

/// The model of optional parts.
pub open spec fn optional_parts_view(parts: Option<UrlParts>) -> Option<UrlPartsView> {
    match parts {
        Some(p) => Some(p@),
        None => None,
    }
}

/// What `url::Url::parse` makes of a text: the parts of the address it
/// parsed, or `None` where it refuses the text.
pub uninterp spec fn parsed_url(text: Seq<char>) -> Option<UrlPartsView>;

/// What `url::Url::join` makes of a reference, resolved against the address
/// that `url::Url::parse` made of `base`: the text of the resulting address,
/// or `None` where either refuses.
pub uninterp spec fn joined_url(base: Seq<char>, reference: Seq<char>) -> Option<Seq<char>>;

/// Calls `url::Url::parse` and reads the scheme, the host, the domain and
/// the path segments off the result, with `scheme`, `host`, `domain` and
/// `path_segments`.
///
/// Trusted: only that the outcome is determined by the text. What the parts
/// are is left to the `url` crate.
#[verifier::external_body]
pub(crate) fn parse_url(text: &str) -> (parts: Option<UrlParts>)
    ensures
        optional_parts_view(parts) == parsed_url(text@),
{
    let url = Url::parse(text).ok()?;
    Some(UrlParts {
        scheme: url.scheme().to_string(),
        has_host: url.host().is_some(),
        domain: url.domain().map(|domain| domain.to_string()),
        path: url.path_segments().map(|segments| segments.map(|s| s.to_string()).collect()),
    })
}

/// Calls `url::Url::parse` on `base` and `url::Url::join` on the result,
/// and hands out the text of the address that came of it.
///
/// Trusted: only that the outcome is determined by the two texts.
#[verifier::external_body]
pub(crate) fn join_url(base: &str, reference: &str) -> (joined: Option<String>)
    ensures
        optional_text_view(joined) == joined_url(base@, reference@),
{
    let url = Url::parse(base).ok()?;
    Some(url.join(reference).ok()?.to_string())
}

/// Whether the text reads as the given word.
fn reads(text: &String, word: &str) -> (res: bool)
    ensures
        res == (text@ == word@),
{
    *text == String::from_str(word)
}

impl UrlPartsView {
    /// The provider address of the track that a link with these parts shows,
    /// or `None` where the link shows no track.
    ///
    /// A link shows a track if it is a secure link to the provider's player,
    /// and its path is the word `track` followed by one more segment, the
    /// track's identifier.
    pub open spec fn track_uri(self) -> Option<Seq<char>> {
        match self.path {
            Some(segments) => if self.domain == Some("open.spotify.com"@) && self.scheme
                == "https"@ && segments.len() == 2 && segments[0] == "track"@ {
                Some("spotify:track:"@ + segments[1])
            } else {
                None
            },
            None => None,
        }
    }

    /// Whether an address with these parts can serve a web page: it is an
    /// `http` or `https` address and names a host.
    pub open spec fn is_web_address(self) -> bool {
        (self.scheme == "http"@ || self.scheme == "https"@) && self.has_host
    }
}

impl UrlParts {
    /// The provider address of the track that a link with these parts shows.
    pub fn track_uri(&self) -> (uri: Option<String>)
        ensures
            optional_text_view(uri) == self@.track_uri(),
    {
        let on_player = match &self.domain {
            Some(domain) => reads(domain, "open.spotify.com"),
            None => false,
        };
        if !on_player || !reads(&self.scheme, "https") {
            return None;
        }
        match &self.path {
            Some(segments) => {
                if segments.len() == 2 && reads(&segments[0], "track") {
                    Some(String::from_str("spotify:track:").concat(segments[1].as_str()))
                } else {
                    None
                }
            },
            None => None,
        }
    }

    /// Whether an address with these parts can serve a web page.
    pub fn is_web_address(&self) -> (res: bool)
        ensures
            res == self@.is_web_address(),
    {
        (reads(&self.scheme, "http") || reads(&self.scheme, "https")) && self.has_host
    }
}

/// The provider address of the track that a link shows, in the form
/// `spotify:track:` and the identifier, or `None` where the text is no link
/// to a track.
pub fn spotify_link_to_uri(link: String) -> (uri: Option<String>)
    ensures
        optional_text_view(uri) == match parsed_url(link@) {
            Some(parts) => parts.track_uri(),
            None => None,
        },
{
    match parse_url(link.as_str()) {
        Some(parts) => parts.track_uri(),
        None => None,
    }
}

/// The address the provider sends a user back to after signing in: the page
/// `authorize` beside the base address, or `None` where the base is no web
/// address.
pub fn authorize_url(url: &str) -> (target: Option<String>)
    ensures
        optional_text_view(target) == match parsed_url(url@) {
            Some(parts) => if parts.is_web_address() {
                joined_url(url@, "authorize"@)
            } else {
                None
            },
            None => None,
        },
{
    match parse_url(url) {
        Some(parts) => {
            if parts.is_web_address() {
                join_url(url, "authorize")
            } else {
                None
            }
        },
        None => None,
    }
}

} // verus!

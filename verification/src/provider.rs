//! Addresses of tracks at the music provider.

use vstd::prelude::*;
use rspotify::model::{Id, TrackId};

verus! {

/// Whether `c` is an ASCII letter or digit.
pub open spec fn is_ascii_alphanumeric(c: char) -> bool {
    ('0' <= c && c <= '9') || ('a' <= c && c <= 'z') || ('A' <= c && c <= 'Z')
}

/// The part of a track address that stands before the identifier, written
/// with the given separator.
pub open spec fn track_uri_head(separator: char) -> Seq<char> {
    seq!['s', 'p', 'o', 't', 'i', 'f', 'y', separator, 't', 'r', 'a', 'c', 'k', separator]
}

/// The identifier that a track address names, or `None` where the text is no
/// track address.
///
/// A track address is the word `spotify`, a separator, the word `track`, the
/// same separator again and an identifier of ASCII letters and digits. The
/// separator is a colon or a slash. The identifier may be empty.
pub open spec fn track_uri_id(uri: Seq<char>) -> Option<Seq<char>> {
    if uri.len() >= 14 && (uri[7] == ':' || uri[7] == '/') && uri.subrange(0, 14)
        == track_uri_head(uri[7]) && forall|i: int|
        14 <= i < uri.len() ==> is_ascii_alphanumeric(#[trigger] uri[i]) {
        Some(uri.subrange(14, uri.len() as int))
    } else {
        None
    }
}

/// The model of an optional text.
pub open spec fn optional_text_view(text: Option<String>) -> Option<Seq<char>> {
    match text {
        Some(t) => Some(t@),
        None => None,
    }
}

/// Calls `rspotify::model::TrackId::from_uri` and hands out the identifier of
/// the track id it built.
///
/// Trusted: that the call succeeds exactly on the texts made of `spotify`, a
/// colon or slash, `track`, the same separator and ASCII letters and digits,
/// and that the track id then holds what follows the second separator.
#[verifier::external_body]
pub(crate) fn track_id_from_uri(uri: &str) -> (id: Option<String>)
    ensures
        optional_text_view(id) == track_uri_id(uri@),
{
    TrackId::from_uri(uri).ok().map(|track| track.id().to_string())
}

} // verus!

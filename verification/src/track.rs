//! Track metadata, as the music provider reports it and as clients see it.

use vstd::prelude::*;
use vstd::std_specs::convert::FromSpecImpl;

verus! {

/// Mathematical model of a [`TrackMetadata`].
pub struct TrackMetadataView {
    pub name: Seq<char>,
    pub artists: Seq<Seq<char>>,
    pub images: Seq<Seq<char>>,
}

impl TrackMetadataView {
    /// The address of the cover image shown to clients: the first one the
    /// provider lists, or the empty string if it lists none.
    pub open spec fn cover(self) -> Seq<char> {
        if self.images.len() > 0 {
            self.images[0]
        } else {
            Seq::empty()
        }
    }

    /// What clients get to see of this metadata.
    pub open spec fn track(self) -> TrackView {
        TrackView { name: self.name, artists: self.artists, image: self.cover() }
    }
}

/// What the music provider reports about a track, reduced to the parts the
/// game uses: its name, the names of its artists and the addresses of its
/// album's cover images, all in the provider's order.
#[derive(Debug, PartialEq, Eq)]
pub struct TrackMetadata {
    pub name: String,
    pub artists: Vec<String>,
    pub images: Vec<String>,
}

impl View for TrackMetadata {
    type V = TrackMetadataView;

    open spec fn view(&self) -> TrackMetadataView {
        TrackMetadataView {
            name: self.name@,
            artists: self.artists.deep_view(),
            images: self.images.deep_view(),
        }
    }
}

impl Clone for TrackMetadata {
    fn clone(&self) -> (res: Self)
        ensures
            res@ == self@,
    {
        let res = TrackMetadata {
            name: self.name.clone(),
            artists: self.artists.clone(),
            images: self.images.clone(),
        };
        assert(res.artists.deep_view() =~= self.artists.deep_view());
        assert(res.images.deep_view() =~= self.images.deep_view());
        res
    }
}

/// Mathematical model of a [`Track`].
pub struct TrackView {
    pub name: Seq<char>,
    pub artists: Seq<Seq<char>>,
    pub image: Seq<char>,
}

/// The representation of a track for the clients.
#[derive(Debug, PartialEq, Eq)]
pub struct Track {
    pub name: String,
    pub artists: Vec<String>,
    pub image: String,
}

impl View for Track {
    type V = TrackView;

    open spec fn view(&self) -> TrackView {
        TrackView { name: self.name@, artists: self.artists.deep_view(), image: self.image@ }
    }
}

impl Clone for Track {
    fn clone(&self) -> (res: Self)
        ensures
            res@ == self@,
    {
        let res = Track {
            name: self.name.clone(),
            artists: self.artists.clone(),
            image: self.image.clone(),
        };
        assert(res.artists.deep_view() =~= self.artists.deep_view());
        res
    }
}

impl Default for Track {
    fn default() -> (res: Self)
        ensures
            res@ == (TrackView { name: Seq::empty(), artists: Seq::empty(), image: Seq::empty() }),
    {
        let res = Track { name: String::new(), artists: Vec::new(), image: String::new() };
        assert(res.artists.deep_view() =~= Seq::<Seq<char>>::empty());
        res
    }
}

/// The conversion is specified over views, by the contract of `from` below:
/// no equation between executable values is claimed for it.
impl FromSpecImpl<TrackMetadata> for Track {
    open spec fn obeys_from_spec() -> bool {
        false
    }

    open spec fn from_spec(value: TrackMetadata) -> Track {
        arbitrary()
    }
}

impl From<TrackMetadata> for Track {
    /// Keeps the name and the artists and picks the cover image.
    fn from(value: TrackMetadata) -> (res: Track)
        ensures
            res@ == value@.track(),
    {
        let mut images = value.images;
        let image = if images.len() > 0 {
            images.swap_remove(0)
        } else {
            String::new()
        };
        Track { name: value.name, artists: value.artists, image }
    }
}

} // verus!

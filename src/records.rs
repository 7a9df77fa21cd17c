use vstd::prelude::*;
use vstd::string::*;

verus! {

/// The public web link of a catalog entity.
pub struct ExternalUrls {
    pub spotify: String,
}

/// An artist credited on an album.
pub struct Artist {
    pub name: String,
    pub external_urls: ExternalUrls,
}

/// The album a track belongs to, with its artists in catalog order.
pub struct Album {
    pub name: String,
    pub artists: Vec<Artist>,
    pub external_urls: ExternalUrls,
}

/// One track matched by a search.
pub struct Track {
    pub name: String,
    pub href: String,
    pub popularity: u32,
    pub album: Album,
    pub external_urls: ExternalUrls,
}

/// A list of results of one kind, as the catalog nests them.
pub struct Items<T> {
    pub items: Vec<T>,
}

/// The envelope of a search response: only the tracks are kept.
pub struct APIResponse {
    pub tracks: Items<Track>,
}

/// What an artist holds: its name and its web link.
pub struct ArtistView {
    pub name: Seq<char>,
    pub link: Seq<char>,
}

/// What an album holds: its name, its artists in order and its web link.
pub struct AlbumView {
    pub name: Seq<char>,
    pub artists: Seq<ArtistView>,
    pub link: Seq<char>,
}

/// What a track holds, with its album and its own web link.
pub struct TrackView {
    pub name: Seq<char>,
    pub href: Seq<char>,
    pub popularity: u32,
    pub album: AlbumView,
    pub link: Seq<char>,
}

impl View for ExternalUrls {
    type V = Seq<char>;

    open spec fn view(&self) -> Seq<char> {
        self.spotify@
    }
}

impl View for Artist {
    type V = ArtistView;

    open spec fn view(&self) -> ArtistView {
        ArtistView { name: self.name@, link: self.external_urls@ }
    }
}

impl View for Album {
    type V = AlbumView;

    open spec fn view(&self) -> AlbumView {
        AlbumView {
            name: self.name@,
            artists: self.artists@.map_values(|a: Artist| a@),
            link: self.external_urls@,
        }
    }
}

impl View for Track {
    type V = TrackView;

    open spec fn view(&self) -> TrackView {
        TrackView {
            name: self.name@,
            href: self.href@,
            popularity: self.popularity,
            album: self.album@,
            link: self.external_urls@,
        }
    }
}

impl<T: View> View for Items<T> {
    type V = Seq<T::V>;

    open spec fn view(&self) -> Seq<T::V> {
        self.items@.map_values(|t: T| t@)
    }
}

impl View for APIResponse {
    type V = Seq<TrackView>;

    open spec fn view(&self) -> Seq<TrackView> {
        self.tracks@
    }
}

/// The names of the given artists written one after another, with nothing
/// between them.
pub open spec fn joined_names(artists: Seq<ArtistView>) -> Seq<char>
    decreases artists.len(),
{
    if artists.len() == 0 {
        Seq::empty()
    } else {
        joined_names(artists.drop_last()) + artists.last().name
    }
}

impl Album {
    /// The album's artist names concatenated in order, without a separator.
    pub fn artist_names(&self) -> (r: String)
        ensures
            r@ == joined_names(self@.artists),
    {
        let ghost all = self@.artists;
        let mut r = String::new();
        let mut i: usize = 0;
        while i < self.artists.len()
            invariant
                i <= self.artists@.len(),
                all == self.artists@.map_values(|a: Artist| a@),
                r@ == joined_names(all.take(i as int)),
            decreases self.artists@.len() - i,
        {
            r.append(self.artists[i].name.as_str());
            proof {
                assert(all.take(i + 1).drop_last() =~= all.take(i as int));
            }
            i = i + 1;
        }
        proof {
            assert(all.take(i as int) =~= all);
        }
        r
    }
}

} // verus!

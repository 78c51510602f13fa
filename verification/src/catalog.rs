//! Plain-value records for the entities the catalog service reports: an
//! artist, the albums of its discography, their tracks, and each track's
//! contributing artists. Every entity carries the catalog's opaque stable
//! identifier verbatim; the caller converts the catalog client's records into
//! these before handing them to the compiler.

use vstd::prelude::*;

verus! {

/// A contributing artist listed on a track.
pub struct TrackArtist {
    /// Catalog identifier of the contributing artist.
    pub uri: String,
    /// Display name of the contributing artist.
    pub name: String,
}

/// Mathematical model of a [`TrackArtist`].
pub ghost struct TrackArtistView {
    pub uri: Seq<char>,
    pub name: Seq<char>,
}

impl View for TrackArtist {
    type V = TrackArtistView;

    open spec fn view(&self) -> TrackArtistView {
        TrackArtistView { uri: self.uri@, name: self.name@ }
    }
}

/// One track of an album. A track may lack its catalog identifier; such a
/// track cannot be upserted and is reported as malformed by the compiler.
pub struct Track {
    /// Catalog identifier of the track, when the catalog reported one.
    pub uri: Option<String>,
    /// Display name of the track.
    pub name: String,
    /// The contributing artists of the track.
    pub artists: Vec<TrackArtist>,
}

/// Mathematical model of a [`Track`].
pub ghost struct TrackView {
    pub uri: Option<Seq<char>>,
    pub name: Seq<char>,
    pub artists: Seq<TrackArtistView>,
}

impl View for Track {
    type V = TrackView;

    open spec fn view(&self) -> TrackView {
        TrackView {
            uri: match self.uri {
                Some(u) => Some(u@),
                None => None,
            },
            name: self.name@,
            artists: self.artists@.map_values(|a: TrackArtist| a@),
        }
    }
}

/// One album of an artist's discography, expanded to full detail.
pub struct Album {
    /// Catalog identifier of the album.
    pub uri: String,
    /// Display name of the album.
    pub name: String,
    /// Genre names attached to the album.
    pub genres: Vec<String>,
    /// Artwork image URLs, in the catalog's order.
    pub images: Vec<String>,
    /// The album's tracks, in the catalog's order.
    pub tracks: Vec<Track>,
}

/// Mathematical model of an [`Album`].
pub ghost struct AlbumView {
    pub uri: Seq<char>,
    pub name: Seq<char>,
    pub genres: Seq<Seq<char>>,
    pub images: Seq<Seq<char>>,
    pub tracks: Seq<TrackView>,
}

impl View for Album {
    type V = AlbumView;

    open spec fn view(&self) -> AlbumView {
        AlbumView {
            uri: self.uri@,
            name: self.name@,
            genres: self.genres@.map_values(|g: String| g@),
            images: self.images@.map_values(|u: String| u@),
            tracks: self.tracks@.map_values(|t: Track| t@),
        }
    }
}

/// The retrieval step's final decision: an artist with no albums has no
/// discography to report, every other result is handed on whole.
pub fn nonempty_discography(albums: Vec<Album>) -> (r: Option<Vec<Album>>)
    ensures
        albums@.len() == 0 ==> r is None,
        albums@.len() > 0 ==> r == Some(albums),
{
    if albums.len() == 0 {
        None
    } else {
        Some(albums)
    }
}

/// An artist record as the catalog service reports it.
pub struct Artist {
    /// Catalog identifier of the artist.
    pub uri: String,
    /// Display name of the artist.
    pub name: String,
    /// Genre names attached to the artist.
    pub genres: Vec<String>,
}

/// Mathematical model of an [`Artist`].
pub ghost struct ArtistView {
    pub uri: Seq<char>,
    pub name: Seq<char>,
    pub genres: Seq<Seq<char>>,
}

impl View for Artist {
    type V = ArtistView;

    open spec fn view(&self) -> ArtistView {
        ArtistView {
            uri: self.uri@,
            name: self.name@,
            genres: self.genres@.map_values(|g: String| g@),
        }
    }
}

} // verus!

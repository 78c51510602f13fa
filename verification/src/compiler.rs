//! The upsert compiler: turns one artist's full discography into the ordered
//! sequence of idempotent graph-merge operations that the expansion engine
//! applies, one transaction each. The compilation is a pure transformation;
//! its exact output is stated by [`spec_compile`].

use vstd::prelude::*;
use crate::catalog::{Album, AlbumView, Artist, ArtistView, Track, TrackArtist, TrackArtistView,
    TrackView};

verus! {

/// One idempotent graph-upsert operation. Each variant merges the entities it
/// names and the edges between them, so that the operation is self-sufficient
/// and does not assume any earlier statement ran in the same transaction.
pub enum UpsertOp {
    /// Merge the artist node.
    MergeArtist { uri: String, name: String },
    /// Merge the artist, one of its genres, and the edge between them.
    MergeArtistGenre { artist_uri: String, artist_name: String, genre: String },
    /// Merge the artist, one of its albums, and the "released" edge.
    MergeReleased { artist_uri: String, artist_name: String, album_uri: String, album_name: String },
    /// Merge an album, one of its genres, and the edge between them.
    MergeAlbumGenre { album_uri: String, album_name: String, genre: String },
    /// Merge an album, one of its artwork images, and the edge between them.
    MergeAlbumImage { album_uri: String, album_name: String, url: String },
    /// Merge a track's contributing artist, the album, and the track, with the
    /// "wrote" and "contains" edges.
    MergeTrack {
        artist_uri: String,
        artist_name: String,
        album_uri: String,
        album_name: String,
        track_uri: String,
        track_name: String,
    },
}

/// Mathematical model of an [`UpsertOp`].
pub ghost enum OpView {
    MergeArtist { uri: Seq<char>, name: Seq<char> },
    MergeArtistGenre { artist_uri: Seq<char>, artist_name: Seq<char>, genre: Seq<char> },
    MergeReleased {
        artist_uri: Seq<char>,
        artist_name: Seq<char>,
        album_uri: Seq<char>,
        album_name: Seq<char>,
    },
    MergeAlbumGenre { album_uri: Seq<char>, album_name: Seq<char>, genre: Seq<char> },
    MergeAlbumImage { album_uri: Seq<char>, album_name: Seq<char>, url: Seq<char> },
    MergeTrack {
        artist_uri: Seq<char>,
        artist_name: Seq<char>,
        album_uri: Seq<char>,
        album_name: Seq<char>,
        track_uri: Seq<char>,
        track_name: Seq<char>,
    },
}

impl View for UpsertOp {
    type V = OpView;

    open spec fn view(&self) -> OpView {
        match *self {
            UpsertOp::MergeArtist { uri, name } => OpView::MergeArtist {
                uri: uri@,
                name: name@,
            },
            UpsertOp::MergeArtistGenre { artist_uri, artist_name, genre } => OpView::MergeArtistGenre {
                artist_uri: artist_uri@,
                artist_name: artist_name@,
                genre: genre@,
            },
            UpsertOp::MergeReleased { artist_uri, artist_name, album_uri, album_name } => OpView::MergeReleased {
                artist_uri: artist_uri@,
                artist_name: artist_name@,
                album_uri: album_uri@,
                album_name: album_name@,
            },
            UpsertOp::MergeAlbumGenre { album_uri, album_name, genre } => OpView::MergeAlbumGenre {
                album_uri: album_uri@,
                album_name: album_name@,
                genre: genre@,
            },
            UpsertOp::MergeAlbumImage { album_uri, album_name, url } => OpView::MergeAlbumImage {
                album_uri: album_uri@,
                album_name: album_name@,
                url: url@,
            },
            UpsertOp::MergeTrack {
                artist_uri,
                artist_name,
                album_uri,
                album_name,
                track_uri,
                track_name,
            } => OpView::MergeTrack {
                artist_uri: artist_uri@,
                artist_name: artist_name@,
                album_uri: album_uri@,
                album_name: album_name@,
                track_uri: track_uri@,
                track_name: track_name@,
            },
        }
    }
}

/// The models of a sequence of operations.
pub open spec fn ops_view(ops: Seq<UpsertOp>) -> Seq<OpView> {
    ops.map_values(|o: UpsertOp| o@)
}

/// The models of a sequence of strings.
pub open spec fn strs_view(ss: Seq<String>) -> Seq<Seq<char>> {
    ss.map_values(|s: String| s@)
}

/// The models of a sequence of albums.
pub open spec fn albums_view(albums: Seq<Album>) -> Seq<AlbumView> {
    albums.map_values(|a: Album| a@)
}

/// The one operation merging the artist node itself.
pub open spec fn artist_op(artist: ArtistView) -> OpView {
    OpView::MergeArtist { uri: artist.uri, name: artist.name }
}

/// One operation per genre in `genres`, each merging the artist, the genre,
/// and the edge between them.
pub open spec fn genre_ops(artist: ArtistView, genres: Seq<Seq<char>>) -> Seq<OpView> {
    genres.map_values(
        |g: Seq<char>| OpView::MergeArtistGenre {
            artist_uri: artist.uri,
            artist_name: artist.name,
            genre: g,
        },
    )
}

/// The operation merging the artist, an album, and the "released" edge.
pub open spec fn released_op(artist: ArtistView, album: AlbumView) -> OpView {
    OpView::MergeReleased {
        artist_uri: artist.uri,
        artist_name: artist.name,
        album_uri: album.uri,
        album_name: album.name,
    }
}

/// One operation per genre in `genres`, each merging the album, the genre,
/// and the edge between them.
pub open spec fn album_genre_ops(album: AlbumView, genres: Seq<Seq<char>>) -> Seq<OpView> {
    genres.map_values(
        |g: Seq<char>| OpView::MergeAlbumGenre {
            album_uri: album.uri,
            album_name: album.name,
            genre: g,
        },
    )
}

/// One operation per artwork URL in `images`, each merging the album, the
/// image, and the edge between them.
pub open spec fn image_ops(album: AlbumView, images: Seq<Seq<char>>) -> Seq<OpView> {
    images.map_values(
        |u: Seq<char>| OpView::MergeAlbumImage {
            album_uri: album.uri,
            album_name: album.name,
            url: u,
        },
    )
}

/// One operation per contributing artist of a keyed track.
pub open spec fn track_write_ops(
    album: AlbumView,
    track_uri: Seq<char>,
    track_name: Seq<char>,
    artists: Seq<TrackArtistView>,
) -> Seq<OpView> {
    artists.map_values(
        |ta: TrackArtistView| OpView::MergeTrack {
            artist_uri: ta.uri,
            artist_name: ta.name,
            album_uri: album.uri,
            album_name: album.name,
            track_uri: track_uri,
            track_name: track_name,
        },
    )
}

/// The operations of one track: one per contributing artist when the track
/// carries its identifier, none when it does not (the track is malformed and
/// skipped).
pub open spec fn track_ops(album: AlbumView, t: TrackView) -> Seq<OpView> {
    match t.uri {
        Some(turi) => track_write_ops(album, turi, t.name, t.artists),
        None => Seq::empty(),
    }
}

/// The operations of a sequence of tracks, in order.
pub open spec fn tracks_ops(album: AlbumView, tracks: Seq<TrackView>) -> Seq<OpView> {
    tracks.flat_map(|t: TrackView| track_ops(album, t))
}

/// The operations of one album: the "released" merge, then the album's
/// genres, then its artwork, then its tracks.
pub open spec fn album_ops(artist: ArtistView, album: AlbumView) -> Seq<OpView> {
    seq![released_op(artist, album)] + album_genre_ops(album, album.genres) + image_ops(
        album,
        album.images,
    ) + tracks_ops(album, album.tracks)
}

/// The operations of a sequence of albums, in order.
pub open spec fn albums_ops(artist: ArtistView, albums: Seq<AlbumView>) -> Seq<OpView> {
    albums.flat_map(|a: AlbumView| album_ops(artist, a))
}

/// The compiler's exact output for one artist and its discography: the artist
/// merge, then one operation per artist genre, then each album's operations.
pub open spec fn spec_compile(artist: ArtistView, albums: Seq<AlbumView>) -> Seq<OpView> {
    seq![artist_op(artist)] + genre_ops(artist, artist.genres) + albums_ops(artist, albums)
}

/// The diagnostic for one track: its display name when the track lacks its
/// identifier, nothing otherwise.
pub open spec fn track_skipped(t: TrackView) -> Seq<Seq<char>> {
    match t.uri {
        Some(_) => Seq::empty(),
        None => seq![t.name],
    }
}

/// The diagnostics of a sequence of tracks, in order.
pub open spec fn tracks_skipped(tracks: Seq<TrackView>) -> Seq<Seq<char>> {
    tracks.flat_map(|t: TrackView| track_skipped(t))
}

/// The names of every malformed track in the discography, in order.
pub open spec fn spec_skipped(albums: Seq<AlbumView>) -> Seq<Seq<char>> {
    albums.flat_map(|a: AlbumView| tracks_skipped(a.tracks))
}

/// How many operations one track contributes: one per contributing artist
/// when the track carries its identifier, none otherwise.
pub open spec fn track_count(t: TrackView) -> nat {
    match t.uri {
        Some(_) => t.artists.len(),
        None => 0,
    }
}

/// The operations contributed by a sequence of tracks.
pub open spec fn tracks_count(tracks: Seq<TrackView>) -> nat
    decreases tracks.len(),
{
    if tracks.len() == 0 {
        0
    } else {
        tracks_count(tracks.drop_last()) + track_count(tracks.last())
    }
}

/// How many operations one album contributes: the "released" merge, one per
/// album genre, one per artwork image, and its tracks' operations.
pub open spec fn album_count(a: AlbumView) -> nat {
    1 + a.genres.len() + a.images.len() + tracks_count(a.tracks)
}

/// The operations contributed by a sequence of albums.
pub open spec fn albums_count(albums: Seq<AlbumView>) -> nat
    decreases albums.len(),
{
    if albums.len() == 0 {
        0
    } else {
        albums_count(albums.drop_last()) + album_count(albums.last())
    }
}

proof fn lemma_tracks_ops_len(album: AlbumView, tracks: Seq<TrackView>)
    ensures
        tracks_ops(album, tracks).len() == tracks_count(tracks),
    decreases tracks.len(),
{
    if tracks.len() == 0 {
        assert(tracks =~= Seq::<TrackView>::empty());
        assert(tracks.map_values(|t: TrackView| track_ops(album, t)) =~= Seq::<
            Seq<OpView>,
        >::empty());
        assert(Seq::<Seq<OpView>>::empty().flatten() =~= Seq::<OpView>::empty());
    } else {
        lemma_tracks_ops_len(album, tracks.drop_last());
        tracks.drop_last().lemma_flat_map_push(
            |t: TrackView| track_ops(album, t),
            tracks.last(),
        );
        assert(tracks.drop_last().push(tracks.last()) =~= tracks);
        assert(tracks_ops(album, tracks) == tracks_ops(album, tracks.drop_last()) + track_ops(
            album,
            tracks.last(),
        ));
        assert(track_ops(album, tracks.last()).len() == track_count(tracks.last()));
    }
}

proof fn lemma_albums_ops_len(artist: ArtistView, albums: Seq<AlbumView>)
    ensures
        albums_ops(artist, albums).len() == albums_count(albums),
    decreases albums.len(),
{
    if albums.len() == 0 {
        assert(albums =~= Seq::<AlbumView>::empty());
        assert(albums.map_values(|a: AlbumView| album_ops(artist, a)) =~= Seq::<
            Seq<OpView>,
        >::empty());
        assert(Seq::<Seq<OpView>>::empty().flatten() =~= Seq::<OpView>::empty());
    } else {
        lemma_albums_ops_len(artist, albums.drop_last());
        albums.drop_last().lemma_flat_map_push(
            |a: AlbumView| album_ops(artist, a),
            albums.last(),
        );
        assert(albums.drop_last().push(albums.last()) =~= albums);
        assert(albums_ops(artist, albums) == albums_ops(artist, albums.drop_last()) + album_ops(
            artist,
            albums.last(),
        ));
        lemma_tracks_ops_len(albums.last(), albums.last().tracks);
    }
}

/// Compiler completeness: for an artist with `g` genres and albums where
/// each album has its own genres, images, and keyed tracks with their
/// contributing artists, the compiler emits exactly
/// `1 + g + sum over albums of (1 + genres + images + sum over keyed tracks
/// of contributing artists)` operations.
pub proof fn lemma_compile_count(artist: ArtistView, albums: Seq<AlbumView>)
    ensures
        spec_compile(artist, albums).len() == 1 + artist.genres.len() + albums_count(albums),
{
    lemma_albums_ops_len(artist, albums);
}

/// What compiling one discography yields: the ordered operations, and the
/// names of the tracks that were skipped because they lack an identifier.
pub struct CompileOutput {
    /// The compiled operations, in emission order.
    pub ops: Vec<UpsertOp>,
    /// Display names of tracks skipped as malformed, in encounter order.
    pub skipped_tracks: Vec<String>,
}

/// Compiles the operations of one track onto the end of `ops`, recording the
/// track's name in `skipped` instead when the track lacks its identifier.
fn compile_track(album: &Album, track: &Track, ops: &mut Vec<UpsertOp>, skipped: &mut Vec<String>)
    ensures
        ops_view(final(ops)@) == ops_view(old(ops)@) + track_ops(album@, track@),
        strs_view(final(skipped)@) == strs_view(old(skipped)@) + track_skipped(track@),
{
    match &track.uri {
        None => {
            skipped.push(track.name.clone());
            proof {
                assert(strs_view(skipped@) =~= strs_view(old(skipped)@) + track_skipped(track@));
                assert(ops_view(ops@) =~= ops_view(old(ops)@) + track_ops(album@, track@));
            }
        },
        Some(track_uri) => {
            let ghost turi: Seq<char> = track_uri@;
            let mut i: usize = 0;
            while i < track.artists.len()
                invariant
                    i <= track.artists.len(),
                    track@.uri == Some(turi),
                    track@.artists == track.artists@.map_values(|a: TrackArtist| a@),
                    track.uri == Some(*track_uri),
                    ops_view(ops@) == ops_view(old(ops)@) + track_write_ops(
                        album@,
                        turi,
                        track@.name,
                        track@.artists.take(i as int),
                    ),
                    skipped@ == old(skipped)@,
                decreases track.artists.len() - i,
            {
                let ta = &track.artists[i];
                let ghost prev = ops@;
                let op = UpsertOp::MergeTrack {
                    artist_uri: ta.uri.clone(),
                    artist_name: ta.name.clone(),
                    album_uri: album.uri.clone(),
                    album_name: album.name.clone(),
                    track_uri: track_uri.clone(),
                    track_name: track.name.clone(),
                };
                proof {
                    assert(track@.artists[i as int] == ta@);
                    assert(track_write_ops(album@, turi, track@.name, track@.artists.take(i + 1))
                        =~= track_write_ops(album@, turi, track@.name, track@.artists.take(
                        i as int,
                    )).push(op@));
                }
                ops.push(op);
                proof {
                    assert(ops@ == prev.push(op));
                    assert(ops_view(prev.push(op)) =~= ops_view(prev).push(op@));
                    assert(ops_view(ops@) =~= ops_view(old(ops)@) + track_write_ops(
                        album@,
                        turi,
                        track@.name,
                        track@.artists.take(i + 1),
                    ));
                }
                i = i + 1;
            }
            proof {
                assert(track@.artists.take(track.artists@.len() as int) =~= track@.artists);
                assert(ops_view(ops@) =~= ops_view(old(ops)@) + track_ops(album@, track@));
            }
        },
    }
}

/// Compiles the operations of one album onto the end of `ops`: the
/// "released" merge, the album's genres, its artwork, then its tracks.
fn compile_album(artist: &Artist, album: &Album, ops: &mut Vec<UpsertOp>, skipped: &mut Vec<String>)
    ensures
        ops_view(final(ops)@) == ops_view(old(ops)@) + album_ops(artist@, album@),
        strs_view(final(skipped)@) == strs_view(old(skipped)@) + tracks_skipped(album@.tracks),
{
    let ghost prev0 = ops@;
    let rel = UpsertOp::MergeReleased {
        artist_uri: artist.uri.clone(),
        artist_name: artist.name.clone(),
        album_uri: album.uri.clone(),
        album_name: album.name.clone(),
    };
    ops.push(rel);
    proof {
        assert(ops_view(ops@) =~= ops_view(old(ops)@).push(released_op(artist@, album@)));
    }
    let mut gi: usize = 0;
    while gi < album.genres.len()
        invariant
            gi <= album.genres.len(),
            ops_view(ops@) == ops_view(old(ops)@).push(released_op(artist@, album@))
                + album_genre_ops(album@, album@.genres.take(gi as int)),
            skipped@ == old(skipped)@,
        decreases album.genres.len() - gi,
    {
        let g = &album.genres[gi];
        let ghost prev = ops@;
        let op = UpsertOp::MergeAlbumGenre {
            album_uri: album.uri.clone(),
            album_name: album.name.clone(),
            genre: g.clone(),
        };
        proof {
            assert(album@.genres[gi as int] == g@);
            assert(album_genre_ops(album@, album@.genres.take(gi + 1)) =~= album_genre_ops(
                album@,
                album@.genres.take(gi as int),
            ).push(op@));
        }
        ops.push(op);
        proof {
            assert(ops_view(prev.push(op)) =~= ops_view(prev).push(op@));
            assert(ops_view(ops@) =~= ops_view(old(ops)@).push(released_op(artist@, album@))
                + album_genre_ops(album@, album@.genres.take(gi + 1)));
        }
        gi = gi + 1;
    }
    proof {
        assert(album@.genres.take(album.genres@.len() as int) =~= album@.genres);
    }
    let mut ii: usize = 0;
    while ii < album.images.len()
        invariant
            ii <= album.images.len(),
            ops_view(ops@) == ops_view(old(ops)@).push(released_op(artist@, album@))
                + album_genre_ops(album@, album@.genres) + image_ops(
                album@,
                album@.images.take(ii as int),
            ),
            skipped@ == old(skipped)@,
        decreases album.images.len() - ii,
    {
        let u = &album.images[ii];
        let ghost prev = ops@;
        let op = UpsertOp::MergeAlbumImage {
            album_uri: album.uri.clone(),
            album_name: album.name.clone(),
            url: u.clone(),
        };
        proof {
            assert(album@.images[ii as int] == u@);
            assert(image_ops(album@, album@.images.take(ii + 1)) =~= image_ops(
                album@,
                album@.images.take(ii as int),
            ).push(op@));
        }
        ops.push(op);
        proof {
            assert(ops_view(prev.push(op)) =~= ops_view(prev).push(op@));
            assert(ops_view(ops@) =~= ops_view(old(ops)@).push(released_op(artist@, album@))
                + album_genre_ops(album@, album@.genres) + image_ops(
                album@,
                album@.images.take(ii + 1),
            ));
        }
        ii = ii + 1;
    }
    proof {
        assert(album@.images.take(album.images@.len() as int) =~= album@.images);
    }
    let mut ti: usize = 0;
    while ti < album.tracks.len()
        invariant
            ti <= album.tracks.len(),
            ops_view(ops@) == ops_view(old(ops)@).push(released_op(artist@, album@))
                + album_genre_ops(album@, album@.genres) + image_ops(album@, album@.images)
                + tracks_ops(album@, album@.tracks.take(ti as int)),
            strs_view(skipped@) == strs_view(old(skipped)@) + tracks_skipped(
                album@.tracks.take(ti as int),
            ),
        decreases album.tracks.len() - ti,
    {
        let ghost prev_ops = ops@;
        let ghost prev_skipped = skipped@;
        compile_track(album, &album.tracks[ti], ops, skipped);
        proof {
            assert(album@.tracks[ti as int] == album.tracks@[ti as int]@);
            album@.tracks.lemma_flat_map_take_append(
                |t: TrackView| track_ops(album@, t),
                ti as int,
            );
            album@.tracks.lemma_flat_map_take_append(|t: TrackView| track_skipped(t), ti as int);
            assert(tracks_ops(album@, album@.tracks.take(ti + 1)) =~= tracks_ops(
                album@,
                album@.tracks.take(ti as int),
            ) + track_ops(album@, album@.tracks[ti as int]));
            assert(tracks_skipped(album@.tracks.take(ti + 1)) =~= tracks_skipped(
                album@.tracks.take(ti as int),
            ) + track_skipped(album@.tracks[ti as int]));
            assert(ops_view(ops@) =~= ops_view(old(ops)@).push(released_op(artist@, album@))
                + album_genre_ops(album@, album@.genres) + image_ops(album@, album@.images)
                + tracks_ops(album@, album@.tracks.take(ti + 1)));
            assert(strs_view(skipped@) =~= strs_view(old(skipped)@) + tracks_skipped(
                album@.tracks.take(ti + 1),
            ));
        }
        ti = ti + 1;
    }
    proof {
        assert(album@.tracks.take(album.tracks@.len() as int) =~= album@.tracks);
        assert(ops_view(ops@) =~= ops_view(old(ops)@) + album_ops(artist@, album@));
    }
}

/// Compiles one artist's full discography into the ordered sequence of
/// idempotent upsert operations of [`spec_compile`], reporting the display
/// name of every track skipped for want of its identifier.
pub fn compile(artist: &Artist, albums: &Vec<Album>) -> (out: CompileOutput)
    ensures
        ops_view(out.ops@) == spec_compile(artist@, albums_view(albums@)),
        strs_view(out.skipped_tracks@) == spec_skipped(albums_view(albums@)),
{
    let mut ops: Vec<UpsertOp> = Vec::new();
    let mut skipped: Vec<String> = Vec::new();
    ops.push(UpsertOp::MergeArtist { uri: artist.uri.clone(), name: artist.name.clone() });
    proof {
        assert(ops_view(ops@) =~= seq![artist_op(artist@)]);
        assert(strs_view(skipped@) =~= Seq::<Seq<char>>::empty());
    }
    let mut gi: usize = 0;
    while gi < artist.genres.len()
        invariant
            gi <= artist.genres.len(),
            ops_view(ops@) == seq![artist_op(artist@)] + genre_ops(
                artist@,
                artist@.genres.take(gi as int),
            ),
            strs_view(skipped@) == Seq::<Seq<char>>::empty(),
        decreases artist.genres.len() - gi,
    {
        let g = &artist.genres[gi];
        let ghost prev = ops@;
        let op = UpsertOp::MergeArtistGenre {
            artist_uri: artist.uri.clone(),
            artist_name: artist.name.clone(),
            genre: g.clone(),
        };
        proof {
            assert(artist@.genres[gi as int] == g@);
            assert(genre_ops(artist@, artist@.genres.take(gi + 1)) =~= genre_ops(
                artist@,
                artist@.genres.take(gi as int),
            ).push(op@));
        }
        ops.push(op);
        proof {
            assert(ops_view(prev.push(op)) =~= ops_view(prev).push(op@));
            assert(ops_view(ops@) =~= seq![artist_op(artist@)] + genre_ops(
                artist@,
                artist@.genres.take(gi + 1),
            ));
        }
        gi = gi + 1;
    }
    proof {
        assert(artist@.genres.take(artist.genres@.len() as int) =~= artist@.genres);
    }
    let mut ai: usize = 0;
    while ai < albums.len()
        invariant
            ai <= albums.len(),
            ops_view(ops@) == seq![artist_op(artist@)] + genre_ops(artist@, artist@.genres)
                + albums_ops(artist@, albums_view(albums@).take(ai as int)),
            strs_view(skipped@) == spec_skipped(albums_view(albums@).take(ai as int)),
        decreases albums.len() - ai,
    {
        compile_album(artist, &albums[ai], &mut ops, &mut skipped);
        proof {
            assert(albums_view(albums@)[ai as int] == albums@[ai as int]@);
            albums_view(albums@).lemma_flat_map_take_append(
                |a: AlbumView| album_ops(artist@, a),
                ai as int,
            );
            albums_view(albums@).lemma_flat_map_take_append(
                |a: AlbumView| tracks_skipped(a.tracks),
                ai as int,
            );
            assert(albums_ops(artist@, albums_view(albums@).take(ai + 1)) =~= albums_ops(
                artist@,
                albums_view(albums@).take(ai as int),
            ) + album_ops(artist@, albums_view(albums@)[ai as int]));
            assert(spec_skipped(albums_view(albums@).take(ai + 1)) =~= spec_skipped(
                albums_view(albums@).take(ai as int),
            ) + tracks_skipped(albums_view(albums@)[ai as int].tracks));
            assert(ops_view(ops@) =~= seq![artist_op(artist@)] + genre_ops(
                artist@,
                artist@.genres,
            ) + albums_ops(artist@, albums_view(albums@).take(ai + 1)));
            assert(strs_view(skipped@) =~= spec_skipped(albums_view(albums@).take(ai + 1)));
        }
        ai = ai + 1;
    }
    proof {
        assert(albums_view(albums@).take(albums@.len() as int) =~= albums_view(albums@));
        assert(ops_view(ops@) =~= spec_compile(artist@, albums_view(albums@)));
    }
    CompileOutput { ops, skipped_tracks: skipped }
}

} // verus!

//! Rendering of compiled upsert operations into the graph query language's
//! statement text. Every interpolated value is escaped for the statement's
//! quoting delimiter before being embedded.

use vstd::prelude::*;
use crate::compiler::{ops_view, strs_view, OpView, UpsertOp};
use crate::escape::{escape, spec_escape};

verus! {

/// The clause merging an artist node, as embedded at the head of a statement.
pub open spec fn artist_clause(uri: Seq<char>, name: Seq<char>) -> Seq<char> {
    "MERGE (artist:Artist {uri: '"@ + spec_escape(uri) + "', name: '"@ + spec_escape(name) + "'})"@
}

/// The clause merging an album node.
pub open spec fn album_clause(uri: Seq<char>, name: Seq<char>) -> Seq<char> {
    "MERGE (album:Album {uri: '"@ + spec_escape(uri) + "', name: '"@ + spec_escape(name) + "'})"@
}

/// The full statement text of one upsert operation: entity-merge clauses
/// first, then the edge-merge clauses that reference them.
pub open spec fn spec_render(op: OpView) -> Seq<char> {
    match op {
        OpView::MergeArtist { uri, name } => artist_clause(uri, name),
        OpView::MergeArtistGenre { artist_uri, artist_name, genre } => artist_clause(
            artist_uri,
            artist_name,
        ) + "MERGE (genre:Genre {name: '"@ + spec_escape(genre)
            + "'})MERGE (artist)-[:genre]->(genre)"@,
        OpView::MergeReleased { artist_uri, artist_name, album_uri, album_name } => artist_clause(
            artist_uri,
            artist_name,
        ) + album_clause(album_uri, album_name) + "MERGE (artist)-[:released]->(album)"@,
        OpView::MergeAlbumGenre { album_uri, album_name, genre } => album_clause(
            album_uri,
            album_name,
        ) + "MERGE (genre: Genre {name: '"@ + spec_escape(genre)
            + "'})MERGE (album)-[:has_genre]->(genre)"@,
        OpView::MergeAlbumImage { album_uri, album_name, url } => album_clause(
            album_uri,
            album_name,
        ) + "MERGE (image: Image {url: '"@ + spec_escape(url)
            + "'})MERGE (album)-[:has_album_art]->(image)"@,
        OpView::MergeTrack {
            artist_uri,
            artist_name,
            album_uri,
            album_name,
            track_uri,
            track_name,
        } => artist_clause(artist_uri, artist_name) + album_clause(album_uri, album_name)
            + "MERGE (track:Track {uri: '"@ + spec_escape(track_uri) + "', name: '"@ + spec_escape(
            track_name,
        ) + "'})MERGE (artist)-[:wrote]->(track)MERGE (album)-[:has_track]->(track)"@,
    }
}

/// The statement texts of a sequence of operations, in order.
pub open spec fn render_views(ops: Seq<OpView>) -> Seq<Seq<char>> {
    ops.map_values(|o: OpView| spec_render(o))
}

/// Appends the artist-merge clause for the given identifier and name.
fn push_artist_clause(out: &mut String, uri: &String, name: &String)
    ensures
        final(out)@ == old(out)@ + artist_clause(uri@, name@),
{
    out.append("MERGE (artist:Artist {uri: '");
    let e = escape(uri.as_str());
    out.append(e.as_str());
    out.append("', name: '");
    let e = escape(name.as_str());
    out.append(e.as_str());
    out.append("'})");
    proof {
        assert(out@ =~= old(out)@ + artist_clause(uri@, name@));
    }
}

/// Appends the album-merge clause for the given identifier and name.
fn push_album_clause(out: &mut String, uri: &String, name: &String)
    ensures
        final(out)@ == old(out)@ + album_clause(uri@, name@),
{
    out.append("MERGE (album:Album {uri: '");
    let e = escape(uri.as_str());
    out.append(e.as_str());
    out.append("', name: '");
    let e = escape(name.as_str());
    out.append(e.as_str());
    out.append("'})");
    proof {
        assert(out@ =~= old(out)@ + album_clause(uri@, name@));
    }
}

/// Appends one escaped value between clause text already written and the
/// clause text that follows it.
fn push_escaped(out: &mut String, value: &String)
    ensures
        final(out)@ == old(out)@ + spec_escape(value@),
{
    let e = escape(value.as_str());
    out.append(e.as_str());
}

/// Renders one operation into its statement text.
pub fn render(op: &UpsertOp) -> (r: String)
    ensures
        r@ == spec_render(op@),
{
    let mut out = String::new();
    match op {
        UpsertOp::MergeArtist { uri, name } => {
            push_artist_clause(&mut out, uri, name);
        },
        UpsertOp::MergeArtistGenre { artist_uri, artist_name, genre } => {
            push_artist_clause(&mut out, artist_uri, artist_name);
            out.append("MERGE (genre:Genre {name: '");
            push_escaped(&mut out, genre);
            out.append("'})MERGE (artist)-[:genre]->(genre)");
        },
        UpsertOp::MergeReleased { artist_uri, artist_name, album_uri, album_name } => {
            push_artist_clause(&mut out, artist_uri, artist_name);
            push_album_clause(&mut out, album_uri, album_name);
            out.append("MERGE (artist)-[:released]->(album)");
        },
        UpsertOp::MergeAlbumGenre { album_uri, album_name, genre } => {
            push_album_clause(&mut out, album_uri, album_name);
            out.append("MERGE (genre: Genre {name: '");
            push_escaped(&mut out, genre);
            out.append("'})MERGE (album)-[:has_genre]->(genre)");
        },
        UpsertOp::MergeAlbumImage { album_uri, album_name, url } => {
            push_album_clause(&mut out, album_uri, album_name);
            out.append("MERGE (image: Image {url: '");
            push_escaped(&mut out, url);
            out.append("'})MERGE (album)-[:has_album_art]->(image)");
        },
        UpsertOp::MergeTrack {
            artist_uri,
            artist_name,
            album_uri,
            album_name,
            track_uri,
            track_name,
        } => {
            push_artist_clause(&mut out, artist_uri, artist_name);
            push_album_clause(&mut out, album_uri, album_name);
            out.append("MERGE (track:Track {uri: '");
            push_escaped(&mut out, track_uri);
            out.append("', name: '");
            push_escaped(&mut out, track_name);
            out.append("'})MERGE (artist)-[:wrote]->(track)MERGE (album)-[:has_track]->(track)");
        },
    }
    proof {
        assert(out@ =~= spec_render(op@));
    }
    out
}

/// Renders every compiled operation into its statement text, in order.
pub fn render_all(ops: &Vec<UpsertOp>) -> (stmts: Vec<String>)
    ensures
        strs_view(stmts@) == render_views(ops_view(ops@)),
{
    let mut stmts: Vec<String> = Vec::new();
    let mut i: usize = 0;
    while i < ops.len()
        invariant
            i <= ops.len(),
            strs_view(stmts@) == render_views(ops_view(ops@).take(i as int)),
        decreases ops.len() - i,
    {
        let ghost prev = stmts@;
        let s = render(&ops[i]);
        stmts.push(s);
        proof {
            assert(ops_view(ops@)[i as int] == ops@[i as int]@);
            assert(ops_view(ops@).take(i + 1) =~= ops_view(ops@).take(i as int).push(
                ops@[i as int]@,
            ));
            assert(render_views(ops_view(ops@).take(i + 1)) =~= render_views(
                ops_view(ops@).take(i as int),
            ).push(spec_render(ops@[i as int]@)));
            assert(strs_view(stmts@) =~= strs_view(prev).push(stmts@.last()@));
            assert(strs_view(stmts@) =~= render_views(ops_view(ops@).take(i + 1)));
        }
        i = i + 1;
    }
    proof {
        assert(ops_view(ops@).take(ops@.len() as int) =~= ops_view(ops@));
    }
    stmts
}

} // verus!
